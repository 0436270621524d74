use vstd::prelude::*;
use vstd::string::*;

use crate::endpoint::{battle_port, endpoint_text, endpoint_uri, uri_error_text, uri_from_text};
use crate::error::{error_text, Error};
use crate::messages::{
    CheckRequest, CheckRequestView, FormRequest, FormRequestView, JoinRequest, JoinRequestView,
    JoinResult, Quest, RankQuest, RankQuestView, RankRequest, RankRequestView, SendRankResult,
    TestStart,
};
use crate::text::{decimal, decimal_string};

verus! {

/// A player's session in a battle: who the player is, how the client presents
/// itself, how far the battle has gone, and the answers not yet reported.
pub struct Socket {
    browser: String,
    platform: String,
    user_agent: String,
    test_id: i32,
    is_start: bool,
    total_score: i32,
    /// Answers not yet reported: card index, score, whether it was correct.
    send_buffer: Vec<(String, i32, bool)>,
    rank_id: String,
    username: String,
    quest_cnt: i32,
    correct_cnt: i32,
    /// How many answers are held back before they are reported together.
    buffer_size: usize,
    correct_score: i32,
    fail_score: i32,
}

/// What a session holds, as mathematical values.
pub struct SocketView {
    pub browser: Seq<char>,
    pub platform: Seq<char>,
    pub user_agent: Seq<char>,
    pub test_id: i32,
    pub is_start: bool,
    pub total_score: i32,
    pub send_buffer: Seq<(Seq<char>, i32, bool)>,
    pub rank_id: Seq<char>,
    pub username: Seq<char>,
    pub quest_cnt: i32,
    pub correct_cnt: i32,
    pub buffer_size: usize,
    pub correct_score: i32,
    pub fail_score: i32,
}

/// The view of a buffer of unreported answers.
pub open spec fn buffer_view(b: Seq<(String, i32, bool)>) -> Seq<(Seq<char>, i32, bool)> {
    b.map_values(|e: (String, i32, bool)| (e.0@, e.1, e.2))
}

impl View for Socket {
    type V = SocketView;

    closed spec fn view(&self) -> SocketView {
        SocketView {
            browser: self.browser@,
            platform: self.platform@,
            user_agent: self.user_agent@,
            test_id: self.test_id,
            is_start: self.is_start,
            total_score: self.total_score,
            send_buffer: buffer_view(self.send_buffer@),
            rank_id: self.rank_id@,
            username: self.username@,
            quest_cnt: self.quest_cnt,
            correct_cnt: self.correct_cnt,
            buffer_size: self.buffer_size,
            correct_score: self.correct_score,
            fail_score: self.fail_score,
        }
    }
}

impl Socket {
    /// A session never counts more correct answers than answers.
    #[verifier::type_invariant]
    spec fn counts_agree(self) -> bool {
        0 <= self.correct_cnt <= self.quest_cnt
    }
}

impl SocketView {
    /// A session never counts more correct answers than answers.
    pub open spec fn wf(self) -> bool {
        0 <= self.correct_cnt <= self.quest_cnt
    }
}

/// The user agent that the client presents unless told otherwise.
pub open spec fn default_user_agent() -> Seq<char> {
    "Mozilla/5.0 (Macintosh; Intel Mac OS X 10_15_7) AppleWebKit/537.36 (KHTML, like Gecko) Chrome/126.0.0.0 Safari/537.36"@
}

/// A session as it stands right after connecting: a Chrome browser on Mac OS X,
/// no battle joined, a score of 1000, nothing answered, answers reported five
/// at a time, 100 points for a correct answer and none for a wrong one.
pub open spec fn initial_socket() -> SocketView {
    SocketView {
        browser: "Chrome"@,
        platform: "Mac OS X"@,
        user_agent: default_user_agent(),
        test_id: -1i32,
        is_start: false,
        total_score: 1000,
        send_buffer: Seq::empty(),
        rank_id: Seq::empty(),
        username: Seq::empty(),
        quest_cnt: 0,
        correct_cnt: 0,
        buffer_size: 5,
        correct_score: 100,
        fail_score: 0,
    }
}

/// The message that asks whether battle `battle_id` exists.
pub open spec fn check_request(battle_id: int) -> CheckRequestView {
    CheckRequestView {
        cmd: "b_check"@,
        battle_id: decimal(battle_id),
        is_auto: false,
        major_ver: 8,
        minor_ver: 0,
    }
}

/// The join message of session `s` for battle `battle_id`: a request to
/// enter when `is_add` is 0, the confirmation when it is 1.
pub open spec fn join_request(s: SocketView, battle_id: int, is_add: i32) -> JoinRequestView {
    JoinRequestView {
        cmd: "b_join"@,
        battle_id: decimal(battle_id),
        user_name: s.username,
        is_add: is_add,
        is_auto: false,
        platform: s.platform,
        browser: s.browser,
        major_ver: 8,
        minor_ver: 0,
    }
}

/// How a buffered answer is reported.
pub open spec fn rank_quest(e: (Seq<char>, i32, bool)) -> RankQuestView {
    RankQuestView { card_idx: e.0, score: e.1, correct_yn: if e.2 { 1 } else { 0 } }
}

/// The report of a total score and a batch of answers.
pub open spec fn rank_request(total_score: i32, answers: Seq<(Seq<char>, i32, bool)>) -> RankRequestView {
    RankRequestView {
        cmd: "b_get_rank"@,
        total_score: total_score,
        quest: answers.map_values(|e: (Seq<char>, i32, bool)| rank_quest(e)),
    }
}

/// The points that an answer earns in session `s`.
pub open spec fn answer_score(s: SocketView, correct: bool) -> i32 {
    if correct { s.correct_score } else { s.fail_score }
}

/// Whether session `s` can take one more answer, correct or not, without a
/// counter leaving the range of `i32`.
pub open spec fn can_submit(s: SocketView, correct: bool) -> bool {
    &&& s.quest_cnt < i32::MAX
    &&& i32::MIN <= s.total_score + answer_score(s, correct) <= i32::MAX
}

/// What answering the card `card_idx` does to session `s`: the answer is
/// scored and counted and joins the buffer; once the buffer holds
/// `buffer_size` answers, all of them are reported together with the new
/// total, and the buffer empties.
pub open spec fn after_submit(s: SocketView, card_idx: Seq<char>, correct: bool) -> (SocketView, Option<RankRequestView>) {
    let score = answer_score(s, correct);
    let total = (s.total_score + score) as i32;
    let buffer = s.send_buffer.push((card_idx, score, correct));
    let counted = SocketView {
        total_score: total,
        send_buffer: buffer,
        quest_cnt: (s.quest_cnt + 1) as i32,
        correct_cnt: if correct { (s.correct_cnt + 1) as i32 } else { s.correct_cnt },
        ..s
    };
    if buffer.len() < s.buffer_size {
        (counted, None)
    } else {
        (SocketView { send_buffer: Seq::empty(), ..counted }, Some(rank_request(total, buffer)))
    }
}

/// The view of an optional report.
pub open spec fn report_view(r: Option<RankRequest>) -> Option<RankRequestView> {
    match r {
        Some(r) => Some(r@),
        None => None,
    }
}

/// The form that asks for the questions of the battle that session `s` joined.
pub open spec fn quest_form(s: SocketView) -> FormRequestView {
    FormRequestView {
        url: "https://b.classcard.net/ClassBattle/battle_quest"@,
        user_agent: s.user_agent,
        accept: "*/*"@,
        params: seq![("test_id"@, decimal(s.test_id as int))],
    }
}

/// The form that records the final result of session `s`.
pub open spec fn score_form(s: SocketView) -> FormRequestView {
    FormRequestView {
        url: "https://b.classcard.net/ClassMainAsync/battle_send_std_score"@,
        user_agent: s.user_agent,
        accept: "*/*"@,
        params: seq![
            ("rank_id"@, s.rank_id),
            ("rank_type"@, decimal(0)),
            ("rank_num"@, decimal(99999)),
            ("user_name"@, s.username),
            ("total_score"@, decimal(s.total_score as int)),
            ("quest_cnt"@, decimal(s.quest_cnt as int)),
            ("correct_cnt"@, decimal(s.correct_cnt as int)),
            ("wrong_cnt"@, decimal(s.quest_cnt - s.correct_cnt)),
            ("unknow_cnt"@, decimal(0)),
        ],
    }
}

/// What came of one answer: whether it was right, and the report to send now,
/// if the buffer of answers filled up.
pub struct Submission {
    pub is_correct: bool,
    pub report: Option<RankRequest>,
}

/// What ends a session: the report of the answers still held back, and the
/// form that records the final result.
pub struct FinalSubmission {
    pub report: RankRequest,
    pub score_form: FormRequest,
}

/// Builds the report of a total score and a batch of answers.
fn make_rank_request(total_score: i32, answers: Vec<(String, i32, bool)>) -> (r: RankRequest)
    ensures
        r@ == rank_request(total_score, buffer_view(answers@)),
{
    let mut quest: Vec<RankQuest> = Vec::new();
    let n = answers.len();
    for i in 0..n
        invariant
            n == answers@.len(),
            quest@.len() == i,
            forall|j: int| 0 <= j < i ==> #[trigger] quest@[j]@ == rank_quest(buffer_view(answers@)[j]),
    {
        let entry = &answers[i];
        let correct_yn: i32 = if entry.2 { 1 } else { 0 };
        quest.push(RankQuest { card_idx: entry.0.clone(), score: entry.1, correct_yn });
    }
    let r = RankRequest { cmd: String::from_str("b_get_rank"), total_score, quest };
    assert(r@.quest =~= rank_request(total_score, buffer_view(answers@)).quest);
    r
}

impl Socket {
    /// Returns the port of the battle server that hosts `battle_id`.
    pub fn get_port(battle_id: i32) -> (port: i32)
        ensures
            port == battle_port(battle_id as int),
    {
        let mut port: i32 = 800;
        if battle_id > 18999 && battle_id < 28000 {
            port = 801;
        } else if battle_id > 27999 && battle_id < 37000 {
            port = 802;
        } else if battle_id > 36999 && battle_id < 46000 {
            port = 803;
        } else if battle_id > 45999 && battle_id < 55000 {
            port = 804;
        } else if battle_id > 54999 && battle_id < 64000 {
            port = 805;
        } else if battle_id > 63999 && battle_id < 73000 {
            port = 806;
        } else if battle_id > 72999 && battle_id < 82000 {
            port = 807;
        } else if battle_id > 81999 && battle_id < 91000 {
            port = 808;
        } else if battle_id > 90999 && battle_id < 100000 {
            port = 809;
        }
        port
    }

    /// Opens a session with the battle server `host` for battle `battle_id`:
    /// the websocket address to connect to, and the session's initial state.
    /// An address that does not parse is `Error::InvalidUri`, with the URI
    /// parser's message.
    pub fn connect(host: &str, battle_id: i32) -> (res: Result<(Socket, http::Uri), Error>)
        ensures
            match res {
                Ok((s, uri)) => s@ == initial_socket()
                    && uri_from_text(endpoint_text(host@, battle_id as int)) == Some(uri),
                Err(e) => uri_from_text(endpoint_text(host@, battle_id as int)) is None
                    && (e is InvalidUri)
                    && error_text(e) == uri_error_text(endpoint_text(host@, battle_id as int)),
            },
    {
        let uri = endpoint_uri(host, battle_id)?;
        let s = Socket {
            browser: String::from_str("Chrome"),
            platform: String::from_str("Mac OS X"),
            user_agent: String::from_str("Mozilla/5.0 (Macintosh; Intel Mac OS X 10_15_7) AppleWebKit/537.36 (KHTML, like Gecko) Chrome/126.0.0.0 Safari/537.36"),
            test_id: -1i32,
            is_start: false,
            total_score: 1000,
            send_buffer: Vec::new(),
            rank_id: String::new(),
            username: String::new(),
            quest_cnt: 0,
            correct_cnt: 0,
            buffer_size: 5,
            correct_score: 100,
            fail_score: 0,
        };
        assert(s@.send_buffer =~= Seq::empty());
        Ok((s, uri))
    }

    /// The headers of the websocket handshake: the default user agent, and
    /// the Classcard site as origin.
    pub fn handshake_headers() -> (h: Vec<(String, String)>)
        ensures
            h@.map_values(|p: (String, String)| (p.0@, p.1@)) == seq![
                ("User-Agent"@, default_user_agent()),
                ("Origin"@, "https://b.classcard.net"@),
            ],
    {
        let mut h: Vec<(String, String)> = Vec::new();
        h.push((
            String::from_str("User-Agent"),
            String::from_str("Mozilla/5.0 (Macintosh; Intel Mac OS X 10_15_7) AppleWebKit/537.36 (KHTML, like Gecko) Chrome/126.0.0.0 Safari/537.36"),
        ));
        h.push((String::from_str("Origin"), String::from_str("https://b.classcard.net")));
        assert(h@.map_values(|p: (String, String)| (p.0@, p.1@)) =~= seq![
            ("User-Agent"@, default_user_agent()),
            ("Origin"@, "https://b.classcard.net"@),
        ]);
        h
    }

    /// The message that keeps the websocket open while the player thinks.
    pub fn keep_alive_message() -> (m: String)
        ensures
            m@ == "{\"cmd\":\"pong\"}"@,
    {
        String::from_str("{\"cmd\":\"pong\"}")
    }

    /// How many seconds pass between two keep-alive messages.
    pub fn keep_alive_period_secs() -> (secs: u64)
        ensures
            secs == 10,
    {
        10
    }

    /// Sets the browser that the session reports.
    pub fn set_browser(self, browser: String) -> (s: Self)
        ensures
            s@ == (SocketView { browser: browser@, ..self@ }),
            self@.wf(),
            s@.wf(),
    {
        proof { use_type_invariant(&self); }
        Socket { browser, ..self }
    }

    /// Sets the platform that the session reports.
    pub fn set_platform(self, platform: String) -> (s: Self)
        ensures
            s@ == (SocketView { platform: platform@, ..self@ }),
            self@.wf(),
            s@.wf(),
    {
        proof { use_type_invariant(&self); }
        Socket { platform, ..self }
    }

    /// Sets the user agent sent with HTTP requests.
    pub fn set_user_agent(self, agent: String) -> (s: Self)
        ensures
            s@ == (SocketView { user_agent: agent@, ..self@ }),
            self@.wf(),
            s@.wf(),
    {
        proof { use_type_invariant(&self); }
        Socket { user_agent: agent, ..self }
    }

    /// Sets how many answers are held back before they are reported together.
    pub fn set_buffer_size(self, buffer_size: usize) -> (s: Self)
        ensures
            s@ == (SocketView { buffer_size: buffer_size, ..self@ }),
            self@.wf(),
            s@.wf(),
    {
        proof { use_type_invariant(&self); }
        Socket { buffer_size, ..self }
    }

    /// Sets the points that a correct answer earns.
    pub fn set_correct_score(self, correct_score: i32) -> (s: Self)
        ensures
            s@ == (SocketView { correct_score: correct_score, ..self@ }),
            self@.wf(),
            s@.wf(),
    {
        proof { use_type_invariant(&self); }
        Socket { correct_score, ..self }
    }

    /// Sets the points that a wrong answer earns.
    pub fn set_fail_score(self, fail_score: i32) -> (s: Self)
        ensures
            s@ == (SocketView { fail_score: fail_score, ..self@ }),
            self@.wf(),
            s@.wf(),
    {
        proof { use_type_invariant(&self); }
        Socket { fail_score, ..self }
    }

    /// The message that asks whether battle `battle_id` exists.
    pub fn check_battle(&self, battle_id: i32) -> (r: CheckRequest)
        ensures
            r@ == check_request(battle_id as int),
            self@.wf(),
    {
        proof { use_type_invariant(self); }
        CheckRequest {
            cmd: String::from_str("b_check"),
            battle_id: decimal_string(battle_id),
            is_auto: false,
            major_ver: 8,
            minor_ver: 0,
        }
    }

    fn join_message(&self, battle_id: i32, is_add: i32) -> (r: JoinRequest)
        ensures
            r@ == join_request(self@, battle_id as int, is_add),
    {
        JoinRequest {
            cmd: String::from_str("b_join"),
            battle_id: decimal_string(battle_id),
            user_name: self.username.clone(),
            is_add,
            is_auto: false,
            platform: self.platform.clone(),
            browser: self.browser.clone(),
            major_ver: 8,
            minor_ver: 0,
        }
    }

    /// Takes `username` as the player's name and returns the request to enter
    /// battle `battle_id`.
    pub fn join(&mut self, battle_id: i32, username: String) -> (r: JoinRequest)
        ensures
            final(self)@ == (SocketView { username: username@, ..old(self)@ }),
            old(self)@.wf(),
            final(self)@.wf(),
            r@ == join_request(final(self)@, battle_id as int, 0),
    {
        proof { use_type_invariant(&*self); }
        self.username = username;
        self.join_message(battle_id, 0)
    }

    /// Takes in the server's answer to the request to enter battle
    /// `battle_id`, and returns the message that confirms the entry.
    pub fn confirm_join(&mut self, battle_id: i32, res: &JoinResult) -> (r: JoinRequest)
        ensures
            final(self)@ == (SocketView { test_id: res.test_id, is_start: res.is_start, ..old(self)@ }),
            old(self)@.wf(),
            final(self)@.wf(),
            r@ == join_request(final(self)@, battle_id as int, 1),
    {
        proof { use_type_invariant(&*self); }
        self.test_id = res.test_id;
        self.is_start = res.is_start;
        self.join_message(battle_id, 1)
    }

    /// The form that asks for the questions of the joined battle.
    pub fn get_battle_quest(&self) -> (f: FormRequest)
        ensures
            f@ == quest_form(self@),
            self@.wf(),
    {
        proof { use_type_invariant(self); }
        let mut params: Vec<(String, String)> = Vec::new();
        params.push((String::from_str("test_id"), decimal_string(self.test_id)));
        let f = FormRequest {
            url: String::from_str("https://b.classcard.net/ClassBattle/battle_quest"),
            user_agent: self.user_agent.clone(),
            accept: String::from_str("*/*"),
            params,
        };
        assert(f@.params =~= quest_form(self@).params);
        f
    }

    /// Whether the session must wait for the server to start the battle:
    /// it need not where the battle had started when the player joined.
    pub fn wait_for_start(&self) -> (wait: bool)
        ensures
            wait == !self@.is_start,
            self@.wf(),
    {
        proof { use_type_invariant(self); }
        !self.is_start
    }

    /// Takes in the message by which the server starts the battle. Any command
    /// but "b_test_start" is `Error::ServerError` ("Server sent error") and
    /// leaves the session as it was.
    pub fn start(&mut self, data: &TestStart) -> (res: Result<(), Error>)
        ensures
            data.cmd@ == "b_test_start"@ ==> (res is Ok)
                && final(self)@ == (SocketView { rank_id: data.rank_id@, ..old(self)@ }),
            data.cmd@ != "b_test_start"@ ==> res == Err::<(), Error>(Error::ServerError)
                && final(self)@ == old(self)@,
            old(self)@.wf(),
            final(self)@.wf(),
    {
        proof { use_type_invariant(&*self); }
        let expected = String::from_str("b_test_start");
        if data.cmd != expected {
            return Err(Error::ServerError);
        }
        self.rank_id = data.rank_id.clone();
        Ok(())
    }

    /// Whether `submit` can take choice `answer` of `quest`: the choice must
    /// exist, and the answer must leave the score and the counters within
    /// `i32`.
    pub fn accepts_answer(&self, quest: &Quest, answer: i32) -> (ok: bool)
        ensures
            ok == (0 <= answer < quest.back_quest@.len()
                && can_submit(self@, quest.back_quest@[answer as int]@ == quest.back@)),
            self@.wf(),
    {
        proof { use_type_invariant(self); }
        if answer < 0 || answer as usize >= quest.back_quest.len() {
            return false;
        }
        let is_correct = quest.back_quest[answer as usize] == quest.back;
        let score = if is_correct { self.correct_score } else { self.fail_score };
        let total = self.total_score as i64 + score as i64;
        self.quest_cnt < i32::MAX && i32::MIN as i64 <= total && total <= i32::MAX as i64
    }

    /// Answers `quest` with its choice `answer` (counted from 0). The answer
    /// is right when the choice is the back of the card. It is scored and
    /// counted, and held back until `buffer_size` answers are waiting; then
    /// all of them are reported at once, with the new total score.
    pub fn submit(&mut self, quest: &Quest, answer: i32) -> (sub: Submission)
        requires
            0 <= answer < quest.back_quest@.len(),
            can_submit(old(self)@, quest.back_quest@[answer as int]@ == quest.back@),
        ensures
            sub.is_correct == (quest.back_quest@[answer as int]@ == quest.back@),
            (final(self)@, report_view(sub.report))
                == after_submit(old(self)@, quest.test_card_idx@, sub.is_correct),
            old(self)@.wf(),
            final(self)@.wf(),
    {
        proof { use_type_invariant(&*self); }
        let is_correct = quest.back_quest[answer as usize] == quest.back;
        let score = if is_correct { self.correct_score } else { self.fail_score };
        self.total_score = self.total_score + score;
        let card_idx = quest.test_card_idx.clone();
        let mut buffer: Vec<(String, i32, bool)> = Vec::new();
        std::mem::swap(&mut self.send_buffer, &mut buffer);
        buffer.push((card_idx, score, is_correct));
        self.quest_cnt = self.quest_cnt + 1;
        if is_correct {
            self.correct_cnt = self.correct_cnt + 1;
        }
        assert(buffer_view(buffer@) =~= old(self)@.send_buffer.push(
            (quest.test_card_idx@, score, is_correct),
        ));
        if buffer.len() < self.buffer_size {
            self.send_buffer = buffer;
            proof { use_type_invariant(&*self); }
            return Submission { is_correct, report: None };
        }
        let report = make_rank_request(self.total_score, buffer);
        assert(self@.send_buffer =~= Seq::empty());
        proof { use_type_invariant(&*self); }
        Submission { is_correct, report: Some(report) }
    }

    /// Ends the session: reports the answers still held back with the total
    /// score, and fills in the form that records the final result.
    pub fn final_submit(&mut self) -> (f: FinalSubmission)
        ensures
            f.report@ == rank_request(old(self)@.total_score, old(self)@.send_buffer),
            f.score_form@ == score_form(old(self)@),
            final(self)@ == (SocketView { send_buffer: Seq::empty(), ..old(self)@ }),
            old(self)@.wf(),
            final(self)@.wf(),
    {
        proof { use_type_invariant(&*self); }
        let mut buffer: Vec<(String, i32, bool)> = Vec::new();
        std::mem::swap(&mut self.send_buffer, &mut buffer);
        let report = make_rank_request(self.total_score, buffer);
        let mut params: Vec<(String, String)> = Vec::new();
        params.push((String::from_str("rank_id"), self.rank_id.clone()));
        params.push((String::from_str("rank_type"), decimal_string(0)));
        params.push((String::from_str("rank_num"), decimal_string(99999)));
        params.push((String::from_str("user_name"), self.username.clone()));
        params.push((String::from_str("total_score"), decimal_string(self.total_score)));
        params.push((String::from_str("quest_cnt"), decimal_string(self.quest_cnt)));
        params.push((String::from_str("correct_cnt"), decimal_string(self.correct_cnt)));
        params.push((String::from_str("wrong_cnt"), decimal_string(self.quest_cnt - self.correct_cnt)));
        params.push((String::from_str("unknow_cnt"), decimal_string(0)));
        let form = FormRequest {
            url: String::from_str("https://b.classcard.net/ClassMainAsync/battle_send_std_score"),
            user_agent: self.user_agent.clone(),
            accept: String::from_str("*/*"),
            params,
        };
        assert(form@.params =~= score_form(old(self)@).params);
        assert(self@.send_buffer =~= Seq::empty());
        assert(self@ == SocketView { send_buffer: Seq::empty(), ..old(self)@ });
        FinalSubmission { report, score_form: form }
    }
}

/// Takes in the server's acknowledgement of a rank report: any command but
/// "b_send_rank" is `Error::ServerError` ("Server sent error").
pub fn check_rank_ack(data: &SendRankResult) -> (res: Result<(), Error>)
    ensures
        data.cmd@ == "b_send_rank"@ ==> (res is Ok),
        data.cmd@ != "b_send_rank"@ ==> res == Err::<(), Error>(Error::ServerError),
{
    let expected = String::from_str("b_send_rank");
    if data.cmd != expected {
        return Err(Error::ServerError);
    }
    Ok(())
}

} // verus!
