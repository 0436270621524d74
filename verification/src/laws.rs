use vstd::prelude::*;

use crate::console::{digits_value, is_digit, parsed_i32};
use crate::endpoint::{battle_port, endpoint_text};
use crate::error::{error_text, Error};
use crate::messages::{RankQuestView, RankRequestView};
use crate::socket::{
    after_submit, answer_score, can_submit, check_request, initial_socket, join_request, quest_form,
    rank_quest,
    rank_request, score_form, SocketView,
};
use crate::text::{decimal, digit_char, nat_decimal};

verus! {

/// Session `s` after answering `answers` (card index and whether the answer
/// was right) one after the other, and the reports sent on the way.
pub open spec fn submit_run(s: SocketView, answers: Seq<(Seq<char>, bool)>) -> (SocketView, Seq<RankRequestView>)
    decreases answers.len(),
{
    if answers.len() == 0 {
        (s, Seq::empty())
    } else {
        let (s1, r) = after_submit(s, answers[0].0, answers[0].1);
        let (s2, rs) = submit_run(s1, answers.drop_first());
        (s2, match r {
            Some(r) => seq![r] + rs,
            None => rs,
        })
    }
}

/// Whether every answer of `answers`, given in turn from session `s`, keeps
/// the session's counters within `i32`.
pub open spec fn run_allowed(s: SocketView, answers: Seq<(Seq<char>, bool)>) -> bool
    decreases answers.len(),
{
    answers.len() == 0 || (can_submit(s, answers[0].1)
        && run_allowed(after_submit(s, answers[0].0, answers[0].1).0, answers.drop_first()))
}

/// The answers that a sequence of reports carries, in the order sent.
pub open spec fn reported(reports: Seq<RankRequestView>) -> Seq<RankQuestView>
    decreases reports.len(),
{
    if reports.len() == 0 {
        Seq::empty()
    } else {
        reports[0].quest + reported(reports.drop_first())
    }
}

/// How the answers `answers` stand in the buffer of session `s`.
pub open spec fn scored(s: SocketView, answers: Seq<(Seq<char>, bool)>) -> Seq<(Seq<char>, i32, bool)> {
    answers.map_values(|a: (Seq<char>, bool)| (a.0, answer_score(s, a.1), a.1))
}

/// The points that `answers` earn in session `s`.
pub open spec fn score_sum(s: SocketView, answers: Seq<(Seq<char>, bool)>) -> int
    decreases answers.len(),
{
    if answers.len() == 0 {
        0
    } else {
        answer_score(s, answers[0].1) + score_sum(s, answers.drop_first())
    }
}

/// How many of `answers` are right.
pub open spec fn correct_count(answers: Seq<(Seq<char>, bool)>) -> int
    decreases answers.len(),
{
    if answers.len() == 0 {
        0
    } else {
        (if answers[0].1 { 1int } else { 0int }) + correct_count(answers.drop_first())
    }
}

proof fn lemma_scored_first(s: SocketView, answers: Seq<(Seq<char>, bool)>)
    requires
        answers.len() > 0,
    ensures
        scored(s, answers) =~= seq![(answers[0].0, answer_score(s, answers[0].1), answers[0].1)]
            + scored(s, answers.drop_first()),
{
}

proof fn lemma_reported_cons(r: RankRequestView, rs: Seq<RankRequestView>)
    ensures
        reported(seq![r] + rs) == r.quest + reported(rs),
{
    assert((seq![r] + rs).drop_first() =~= rs);
}

/// Answering never changes how a session scores and buffers answers.
proof fn lemma_submit_keeps_rules(s: SocketView, card_idx: Seq<char>, correct: bool)
    ensures
        after_submit(s, card_idx, correct).0.correct_score == s.correct_score,
        after_submit(s, card_idx, correct).0.fail_score == s.fail_score,
        after_submit(s, card_idx, correct).0.buffer_size == s.buffer_size,
{
}

/// No answer is lost, duplicated or reordered: the answers that the reports
/// carry while answering, followed by those still buffered at the end (which
/// the final submission reports), are the answers buffered at the start
/// followed by the new answers, each with its score, in the order given.
pub proof fn law_every_answer_reported_once(s: SocketView, answers: Seq<(Seq<char>, bool)>)
    requires
        run_allowed(s, answers),
    ensures
        reported(submit_run(s, answers).1) + submit_run(s, answers).0.send_buffer.map_values(
            |e: (Seq<char>, i32, bool)| rank_quest(e),
        ) == (s.send_buffer + scored(s, answers)).map_values(
            |e: (Seq<char>, i32, bool)| rank_quest(e),
        ),
    decreases answers.len(),
{
    if answers.len() == 0 {
        assert(s.send_buffer + scored(s, answers) =~= s.send_buffer);
        assert(reported(Seq::<RankRequestView>::empty()) =~= Seq::empty());
        assert(reported(submit_run(s, answers).1) + submit_run(s, answers).0.send_buffer.map_values(
            |e: (Seq<char>, i32, bool)| rank_quest(e),
        ) =~= s.send_buffer.map_values(|e: (Seq<char>, i32, bool)| rank_quest(e)));
    } else {
        let a0 = answers[0];
        let rest = answers.drop_first();
        let (s1, r) = after_submit(s, a0.0, a0.1);
        let (s2, rs) = submit_run(s1, rest);
        law_every_answer_reported_once(s1, rest);
        lemma_scored_first(s, answers);
        lemma_submit_keeps_rules(s, a0.0, a0.1);
        assert(scored(s1, rest) =~= scored(s, rest));
        let e0 = (a0.0, answer_score(s, a0.1), a0.1);
        match r {
            Some(r) => {
                lemma_reported_cons(r, rs);
                assert(s1.send_buffer =~= Seq::empty());
                assert(Seq::<(Seq<char>, i32, bool)>::empty() + scored(s1, rest) =~= scored(s1, rest));
                assert(r.quest =~= s.send_buffer.push(e0).map_values(
                    |e: (Seq<char>, i32, bool)| rank_quest(e),
                ));
                assert(s.send_buffer + scored(s, answers) =~= s.send_buffer.push(e0) + scored(s, rest));
                assert(submit_run(s, answers).1 == seq![r] + rs);
                let m1 = s.send_buffer.push(e0).map_values(|e: (Seq<char>, i32, bool)| rank_quest(e));
                let m2 = scored(s, rest).map_values(|e: (Seq<char>, i32, bool)| rank_quest(e));
                assert((s.send_buffer.push(e0) + scored(s, rest)).map_values(
                    |e: (Seq<char>, i32, bool)| rank_quest(e),
                ) =~= m1 + m2);
                assert(reported(rs) + s2.send_buffer.map_values(
                    |e: (Seq<char>, i32, bool)| rank_quest(e),
                ) == m2);
                assert(reported(submit_run(s, answers).1) + s2.send_buffer.map_values(
                    |e: (Seq<char>, i32, bool)| rank_quest(e),
                ) =~= (s.send_buffer + scored(s, answers)).map_values(
                    |e: (Seq<char>, i32, bool)| rank_quest(e),
                ));
            },
            None => {
                assert(s1.send_buffer == s.send_buffer.push(e0));
                assert(s.send_buffer + scored(s, answers) =~= s1.send_buffer + scored(s1, rest));
            },
        }
    }
}

/// The score and the counters keep account: after answering `answers`, the
/// total score has grown by the points of the answers, the answer count by
/// their number and the correct count by the number of right answers; and the
/// session still never counts more right answers than answers.
pub proof fn law_score_accounting(s: SocketView, answers: Seq<(Seq<char>, bool)>)
    requires
        s.wf(),
        run_allowed(s, answers),
    ensures
        submit_run(s, answers).0.total_score == s.total_score + score_sum(s, answers),
        submit_run(s, answers).0.quest_cnt == s.quest_cnt + answers.len(),
        submit_run(s, answers).0.correct_cnt == s.correct_cnt + correct_count(answers),
        submit_run(s, answers).0.wf(),
    decreases answers.len(),
{
    if answers.len() > 0 {
        let a0 = answers[0];
        let s1 = after_submit(s, a0.0, a0.1).0;
        law_score_accounting(s1, answers.drop_first());
        lemma_submit_keeps_rules(s, a0.0, a0.1);
        lemma_score_sum_rules(s1, s, answers.drop_first());
    }
}

proof fn lemma_score_sum_rules(s1: SocketView, s: SocketView, answers: Seq<(Seq<char>, bool)>)
    requires
        s1.correct_score == s.correct_score,
        s1.fail_score == s.fail_score,
    ensures
        score_sum(s1, answers) == score_sum(s, answers),
    decreases answers.len(),
{
    if answers.len() > 0 {
        lemma_score_sum_rules(s1, s, answers.drop_first());
    }
}

/// With a buffer of one answer (or none), every answer is reported at once,
/// alone: from an empty buffer, answering sends one report per answer, the
/// report of each answer carries that answer only, and nothing stays buffered.
pub proof fn law_unit_buffer_reports_each_answer(s: SocketView, answers: Seq<(Seq<char>, bool)>)
    requires
        s.buffer_size <= 1,
        s.send_buffer.len() == 0,
    ensures
        submit_run(s, answers).1.len() == answers.len(),
        forall|i: int| 0 <= i < answers.len() ==> (#[trigger] submit_run(s, answers).1[i]).quest
            == seq![rank_quest(scored(s, answers)[i])],
        submit_run(s, answers).0.send_buffer.len() == 0,
    decreases answers.len(),
{
    if answers.len() > 0 {
        let a0 = answers[0];
        let rest = answers.drop_first();
        let (s1, r) = after_submit(s, a0.0, a0.1);
        lemma_submit_keeps_rules(s, a0.0, a0.1);
        law_unit_buffer_reports_each_answer(s1, rest);
        lemma_scored_first(s, answers);
        assert(scored(s1, rest) =~= scored(s, rest));
        let rs = submit_run(s1, rest).1;
        assert(r is Some);
        assert(submit_run(s, answers).1 == seq![r.unwrap()] + rs);
        assert forall|i: int| 0 <= i < answers.len() implies (#[trigger] submit_run(s, answers).1[i]).quest
            == seq![rank_quest(scored(s, answers)[i])] by {
            if i == 0 {
                assert(r.unwrap().quest =~= seq![rank_quest(scored(s, answers)[0])]);
            } else {
                assert(submit_run(s, answers).1[i] == rs[i - 1]);
                assert(scored(s, answers)[i] == scored(s, rest)[i - 1]);
            }
        }
    }
}

/// With room in the buffer for all the answers, none is reported before the
/// final submission: answering sends nothing and every answer, with its score,
/// waits in the buffer after those that were there.
pub proof fn law_large_buffer_holds_answers(s: SocketView, answers: Seq<(Seq<char>, bool)>)
    requires
        s.send_buffer.len() + answers.len() < s.buffer_size,
    ensures
        submit_run(s, answers).1.len() == 0,
        submit_run(s, answers).0.send_buffer == s.send_buffer + scored(s, answers),
    decreases answers.len(),
{
    if answers.len() == 0 {
        assert(s.send_buffer + scored(s, answers) =~= s.send_buffer);
    } else {
        let a0 = answers[0];
        let rest = answers.drop_first();
        let s1 = after_submit(s, a0.0, a0.1).0;
        lemma_submit_keeps_rules(s, a0.0, a0.1);
        law_large_buffer_holds_answers(s1, rest);
        lemma_scored_first(s, answers);
        assert(scored(s1, rest) =~= scored(s, rest));
        assert(s.send_buffer + scored(s, answers) =~= s1.send_buffer + scored(s1, rest));
    }
}

proof fn lemma_next_remainder(q: int, b: int, l: int)
    by (nonlinear_arith)
    requires
        0 <= q,
        0 < b,
        l == q % b,
    ensures
        0 <= l < b,
        (q + 1) % b == if l + 1 < b { l + 1 } else { 0 },
{
    assert(q == b * (q / b) + l);
    if l + 1 < b {
        assert(q + 1 == b * (q / b) + (l + 1));
    } else {
        assert(q + 1 == b * (q / b + 1));
    }
}

/// The buffer holds exactly the answers given since the last report: where
/// its length is the answer count modulo the buffer size, it still is after
/// any further answers, and it is then shorter than the buffer size.
pub proof fn law_buffer_holds_answers_since_report(s: SocketView, answers: Seq<(Seq<char>, bool)>)
    requires
        s.wf(),
        s.buffer_size > 0,
        run_allowed(s, answers),
        s.send_buffer.len() == (s.quest_cnt as int) % (s.buffer_size as int),
    ensures
        submit_run(s, answers).0.send_buffer.len()
            == (submit_run(s, answers).0.quest_cnt as int) % (s.buffer_size as int),
        submit_run(s, answers).0.send_buffer.len() < s.buffer_size,
    decreases answers.len(),
{
    lemma_next_remainder(s.quest_cnt as int, s.buffer_size as int, s.send_buffer.len() as int);
    if answers.len() > 0 {
        let a0 = answers[0];
        let s1 = after_submit(s, a0.0, a0.1).0;
        lemma_submit_keeps_rules(s, a0.0, a0.1);
        law_buffer_holds_answers_since_report(s1, answers.drop_first());
    }
}

proof fn lemma_default_score_sum(s: SocketView, answers: Seq<(Seq<char>, bool)>)
    requires
        s.correct_score == 100,
        s.fail_score == 0,
    ensures
        score_sum(s, answers) == 100 * correct_count(answers),
    decreases answers.len(),
{
    if answers.len() > 0 {
        lemma_default_score_sum(s, answers.drop_first());
    }
}

/// A session with its initial settings keeps these counts after any answers:
/// the score is 1000 plus 100 for each right answer, and the buffer holds the
/// answers since the last report, fewer than five.
pub proof fn law_initial_session_counts(answers: Seq<(Seq<char>, bool)>)
    requires
        run_allowed(initial_socket(), answers),
    ensures
        submit_run(initial_socket(), answers).0.total_score
            == 1000 + 100 * submit_run(initial_socket(), answers).0.correct_cnt,
        submit_run(initial_socket(), answers).0.send_buffer.len()
            == submit_run(initial_socket(), answers).0.quest_cnt % 5,
        submit_run(initial_socket(), answers).0.send_buffer.len() < 5,
{
    let s = initial_socket();
    law_score_accounting(s, answers);
    lemma_default_score_sum(s, answers);
    law_buffer_holds_answers_since_report(s, answers);
}

proof fn lemma_digit_char(d: int)
    requires
        0 <= d < 10,
    ensures
        is_digit(digit_char(d)),
        digit_char(d) as int - '0' as int == d,
{
}

proof fn lemma_nat_decimal_digits(n: nat)
    ensures
        nat_decimal(n).len() > 0,
        forall|i: int| 0 <= i < nat_decimal(n).len() ==> is_digit(#[trigger] nat_decimal(n)[i]),
        digits_value(nat_decimal(n)) == n,
    decreases n,
{
    if n < 10 {
        lemma_digit_char(n as int);
        assert(seq![digit_char(n as int)].drop_last() =~= Seq::<char>::empty());
        assert(digits_value(Seq::<char>::empty()) == 0);
    } else {
        lemma_nat_decimal_digits(n / 10);
        lemma_digit_char((n % 10) as int);
        let s = nat_decimal(n);
        assert(s.drop_last() =~= nat_decimal(n / 10));
        assert(s.last() == digit_char((n % 10) as int));
    }
}

/// What the library writes as a number reads back as that number: the
/// decimal text of any `i32` is a text that `str::parse::<i32>` takes to the
/// same value.
pub proof fn law_decimal_reads_back(n: int)
    requires
        i32::MIN <= n <= i32::MAX,
    ensures
        parsed_i32(decimal(n)) == Some(n as i32),
{
    if n < 0 {
        lemma_nat_decimal_digits((-n) as nat);
        let s = decimal(n);
        assert(s[0] == '-');
        assert(s.drop_first() =~= nat_decimal((-n) as nat));
    } else {
        lemma_nat_decimal_digits(n as nat);
        let s = decimal(n);
        assert(is_digit(s[0]));
    }
}

/// Any existing choice can be submitted, right or wrong, on a session whose
/// answer count is below the `i32` limit and whose score stays within `i32`
/// after either a right or a wrong answer; a fresh session takes any choice.
pub proof fn law_any_choice_accepted(s: SocketView)
    requires
        s.quest_cnt < i32::MAX,
        i32::MIN <= s.total_score + s.correct_score <= i32::MAX,
        i32::MIN <= s.total_score + s.fail_score <= i32::MAX,
    ensures
        can_submit(s, true),
        can_submit(s, false),
        can_submit(initial_socket(), true),
        can_submit(initial_socket(), false),
{
}

/// The final form reports the counts of the whole session, not of the answers
/// still buffered: read back as numbers, its answer count, correct count and
/// wrong count are the session's, the correct and wrong counts add up to the
/// answer count, and the form is the same whatever the buffer holds.
pub proof fn law_score_form_counts_whole_session(s: SocketView, buffer: Seq<(Seq<char>, i32, bool)>)
    requires
        s.wf(),
    ensures
        score_form(s).params.len() == 9,
        score_form(s).params[4].0 == "total_score"@,
        score_form(s).params[5].0 == "quest_cnt"@,
        score_form(s).params[6].0 == "correct_cnt"@,
        score_form(s).params[7].0 == "wrong_cnt"@,
        parsed_i32(score_form(s).params[4].1) == Some(s.total_score),
        parsed_i32(score_form(s).params[5].1) == Some(s.quest_cnt),
        parsed_i32(score_form(s).params[6].1) == Some(s.correct_cnt),
        parsed_i32(score_form(s).params[7].1) matches Some(wrong)
            && wrong + s.correct_cnt == s.quest_cnt,
        score_form(SocketView { send_buffer: buffer, ..s }) == score_form(s),
{
    law_decimal_reads_back(s.total_score as int);
    law_decimal_reads_back(s.quest_cnt as int);
    law_decimal_reads_back(s.correct_cnt as int);
    law_decimal_reads_back(s.quest_cnt - s.correct_cnt);
}

/// After any answers from a fresh session, the final form counts every one of
/// them, however many were already reported: its answer count reads back as
/// the number of answers, and its correct and wrong counts add up to it.
pub proof fn law_final_form_counts_all_answers(answers: Seq<(Seq<char>, bool)>)
    requires
        run_allowed(initial_socket(), answers),
    ensures
        parsed_i32(score_form(submit_run(initial_socket(), answers).0).params[5].1)
            == Some(answers.len() as i32),
        parsed_i32(score_form(submit_run(initial_socket(), answers).0).params[6].1)
            == Some(correct_count(answers) as i32),
        parsed_i32(score_form(submit_run(initial_socket(), answers).0).params[7].1)
            == Some((answers.len() - correct_count(answers)) as i32),
{
    let s = initial_socket();
    law_score_accounting(s, answers);
    law_score_form_counts_whole_session(submit_run(s, answers).0, Seq::empty());
}

/// Battles are spread over the ports in blocks of 9000 ids: the `k`-th block
/// from 19000 (for `k` from 0 to 8) is served on port `801 + k`, so that ids
/// 73000 to 81999 go to port 807; every id outside 19000..=99999 goes to 800.
pub proof fn law_port_blocks(battle_id: int, k: int)
    ensures
        0 <= k < 9 && 19000 + 9000 * k <= battle_id < 28000 + 9000 * k
            ==> battle_port(battle_id) == 801 + k,
        73000 <= battle_id <= 81999 ==> battle_port(battle_id) == 807,
        !(19000 <= battle_id <= 99999) ==> battle_port(battle_id) == 800,
        800 <= battle_port(battle_id) <= 809,
{
    if 0 <= k < 9 && 19000 + 9000 * k <= battle_id < 28000 + 9000 * k {
        assert((battle_id - 19000) / 9000 == k) by (nonlinear_arith)
            requires
                9000 * k <= battle_id - 19000 < 9000 * k + 9000,
        {
        }
    }
    if 19000 <= battle_id <= 99999 {
        assert(0 <= (battle_id - 19000) / 9000 <= 8) by (nonlinear_arith)
            requires
                0 <= battle_id - 19000 <= 80999,
        {
        }
    }
}

/// Both join messages name the battle by the id the player typed: the request
/// and the confirmation carry the same battle id text, which reads back as
/// that id, whatever the session holds (its test id included) and whichever
/// message it is.
pub proof fn law_join_messages_name_the_battle(s: SocketView, t: SocketView, battle_id: int, a: i32, b: i32)
    requires
        i32::MIN <= battle_id <= i32::MAX,
    ensures
        join_request(s, battle_id, a).battle_id == join_request(t, battle_id, b).battle_id,
        parsed_i32(join_request(s, battle_id, a).battle_id) == Some(battle_id as i32),
        join_request(s, battle_id, a).is_add == a,
        join_request(s, battle_id, a).user_name == s.username,
{
    law_decimal_reads_back(battle_id);
}

/// The question form asks for the test the player joined: its only field is
/// the session's test id, which reads back as that id whether or not the battle
/// has started, and the form depends on nothing else of the session but the
/// user agent.
pub proof fn law_quest_form_asks_for_joined_test(s: SocketView, t: SocketView)
    ensures
        quest_form(s).params.len() == 1,
        quest_form(s).params[0].0 == "test_id"@,
        parsed_i32(quest_form(s).params[0].1) == Some(s.test_id),
        s.test_id == t.test_id && s.user_agent == t.user_agent ==> quest_form(s) == quest_form(t),
{
    law_decimal_reads_back(s.test_id as int);
}

/// One answer: a right answer earns the correct score and a wrong one the
/// fail score; a report goes out exactly when the answer fills the buffer,
/// and it carries the session's new total and, last, this answer with its
/// score and a correct mark of 1 or 0.
pub proof fn law_one_answer(s: SocketView, card_idx: Seq<char>, correct: bool)
    ensures
        after_submit(s, card_idx, correct).0.total_score
            == (s.total_score + if correct { s.correct_score } else { s.fail_score }) as i32,
        after_submit(s, card_idx, correct).0.quest_cnt == (s.quest_cnt + 1) as i32,
        (after_submit(s, card_idx, correct).1 is Some) <==> s.send_buffer.len() + 1 >= s.buffer_size,
        after_submit(s, card_idx, correct).1 matches Some(r) ==> {
            &&& r.cmd == "b_get_rank"@
            &&& r.total_score == after_submit(s, card_idx, correct).0.total_score
            &&& r.quest.len() == s.send_buffer.len() + 1
            &&& r.quest.last().card_idx == card_idx
            &&& r.quest.last().score == if correct { s.correct_score } else { s.fail_score }
            &&& r.quest.last().correct_yn == if correct { 1i32 } else { 0i32 }
        },
        after_submit(s, card_idx, correct).1 is None ==>
            after_submit(s, card_idx, correct).0.send_buffer.len() == s.send_buffer.len() + 1,
{
}

/// The final report carries the session's total score and exactly the answers
/// still buffered, in order.
pub proof fn law_final_report(total: i32, answers: Seq<(Seq<char>, i32, bool)>)
    ensures
        rank_request(total, answers).cmd == "b_get_rank"@,
        rank_request(total, answers).total_score == total,
        rank_request(total, answers).quest.len() == answers.len(),
        forall|i: int| 0 <= i < answers.len() ==> {
            &&& (#[trigger] rank_request(total, answers).quest[i]).card_idx == answers[i].0
            &&& rank_request(total, answers).quest[i].score == answers[i].1
            &&& rank_request(total, answers).quest[i].correct_yn == if answers[i].2 { 1i32 } else { 0i32 }
        },
{
}

/// A fresh session: a Chrome browser on Mac OS X, no test joined (test id -1),
/// a score of 1000, nothing answered or buffered, answers reported five at a
/// time, 100 points for a right answer and none for a wrong one.
pub proof fn law_fresh_session()
    ensures
        initial_socket().browser == "Chrome"@,
        initial_socket().platform == "Mac OS X"@,
        initial_socket().test_id == -1,
        !initial_socket().is_start,
        initial_socket().total_score == 1000,
        initial_socket().send_buffer.len() == 0,
        initial_socket().quest_cnt == 0,
        initial_socket().correct_cnt == 0,
        initial_socket().buffer_size == 5,
        initial_socket().correct_score == 100,
        initial_socket().fail_score == 0,
        initial_socket().wf(),
{
}

/// The battle check names the battle by its id, which reads back as the id,
/// with the client's protocol version 8.0 and no automatic play.
pub proof fn law_check_names_the_battle(battle_id: int)
    requires
        i32::MIN <= battle_id <= i32::MAX,
    ensures
        check_request(battle_id).cmd == "b_check"@,
        parsed_i32(check_request(battle_id).battle_id) == Some(battle_id as i32),
        !check_request(battle_id).is_auto,
        check_request(battle_id).major_ver == 8,
        check_request(battle_id).minor_ver == 0,
{
    law_decimal_reads_back(battle_id);
}

/// The websocket address of a battle is `wss://`, the host, `/wss_` and the
/// battle's port, whose text reads back as the port.
pub proof fn law_endpoint_names_the_port(host: Seq<char>, battle_id: int)
    ensures
        exists|p: Seq<char>| endpoint_text(host, battle_id) == "wss://"@ + host + "/wss_"@ + p
            && #[trigger] parsed_i32(p) == Some(battle_port(battle_id) as i32),
{
    law_port_blocks(battle_id, 0);
    law_decimal_reads_back(battle_port(battle_id));
    let p = decimal(battle_port(battle_id));
    assert(parsed_i32(p) == Some(battle_port(battle_id) as i32));
}

/// The words of each error.
pub proof fn law_error_texts(cmd: String, msg: String)
    ensures
        error_text(Error::ReadError) == "Failed to read from socket"@,
        error_text(Error::GetDataError) == "Failed to get data from socket"@,
        error_text(Error::InvalidCmd(cmd)) == "Invalid cmd: "@ + cmd@,
        error_text(Error::ServerError) == "Server sent error"@,
        error_text(Error::InvalidUri(msg)) == msg@,
{
}

} // verus!
