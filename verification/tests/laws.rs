use classcard::{RankRequest, Socket};

fn quest(card: &str) -> classcard::Quest {
    classcard::Quest {
        test_card_idx: card.to_string(),
        front: String::new(),
        back: "yes".to_string(),
        example_sentence: String::new(),
        back_quest: vec!["yes".to_string(), "no".to_string()],
    }
}

fn entries(r: &RankRequest) -> Vec<(String, i32, i32)> {
    r.quest.iter().map(|q| (q.card_idx.clone(), q.score, q.correct_yn)).collect()
}

fn session(buffer_size: usize) -> Socket {
    Socket::connect("mobile3.classcard.net", 1).unwrap().0.set_buffer_size(buffer_size)
}

#[test]
fn every_answer_reported_once_in_order() {
    let mut socket = session(3);
    let mut sent: Vec<(String, i32, i32)> = Vec::new();
    let mut expected: Vec<(String, i32, i32)> = Vec::new();
    for i in 0..8 {
        let card = format!("card{}", i);
        let answer = (i % 3 == 0) as i32;
        let sub = socket.submit(&quest(&card), answer);
        expected.push((card, if answer == 0 { 100 } else { 0 }, if answer == 0 { 1 } else { 0 }));
        if let Some(r) = sub.report {
            assert_eq!(r.quest.len(), 3);
            sent.extend(entries(&r));
        }
    }
    sent.extend(entries(&socket.final_submit().report));
    assert_eq!(sent, expected);
}

#[test]
fn score_accounting() {
    let mut socket = session(100).set_correct_score(7).set_fail_score(-2);
    for i in 0..10 {
        socket.submit(&quest("q"), (i % 2) as i32);
    }
    let fin = socket.final_submit();
    assert_eq!(fin.report.total_score, 1000 + 5 * 7 - 5 * 2);
    let p: Vec<(String, String)> = fin.score_form.params.clone();
    assert_eq!(p[5], ("quest_cnt".to_string(), "10".to_string()));
    assert_eq!(p[6], ("correct_cnt".to_string(), "5".to_string()));
    assert_eq!(p[7], ("wrong_cnt".to_string(), "5".to_string()));
}

#[test]
fn unit_buffer_reports_each_answer() {
    let mut socket = session(1);
    for i in 0..4 {
        let card = format!("k{}", i);
        let sub = socket.submit(&quest(&card), 0);
        let r = sub.report.unwrap();
        assert_eq!(entries(&r), vec![(card, 100, 1)]);
        assert_eq!(r.total_score, 1000 + 100 * (i + 1));
    }
    assert!(socket.final_submit().report.quest.is_empty());
}

#[test]
fn large_buffer_holds_answers_until_final_submit() {
    let mut socket = session(usize::MAX);
    for i in 0..20 {
        assert!(socket.submit(&quest(&format!("x{}", i)), 1).report.is_none());
    }
    let fin = socket.final_submit();
    assert_eq!(fin.report.quest.len(), 20);
    assert_eq!(fin.report.total_score, 1000);
    assert!(fin.report.quest.iter().all(|q| q.score == 0 && q.correct_yn == 0));
}

#[test]
fn buffer_holds_answers_since_last_report() {
    let mut socket = session(4);
    let mut pending = 0usize;
    for i in 0..11 {
        let sub = socket.submit(&quest(&format!("b{}", i)), 0);
        match sub.report {
            Some(r) => {
                assert_eq!(r.quest.len(), pending + 1);
                pending = 0;
            }
            None => pending += 1,
        }
        assert_eq!(pending, (i + 1) % 4);
    }
    assert_eq!(socket.final_submit().report.quest.len(), 11 % 4);
}

#[test]
fn initial_session_counts() {
    let mut socket = Socket::connect("mobile3.classcard.net", 1).unwrap().0;
    let mut reports = 0;
    for i in 0..13 {
        if socket.submit(&quest(&format!("d{}", i)), (i % 4 == 0) as i32).report.is_some() {
            reports += 1;
        }
    }
    assert_eq!(reports, 2);
    let fin = socket.final_submit();
    assert_eq!(fin.report.quest.len(), 13 % 5);
    let correct = (0..13).filter(|i| i % 4 != 0).count() as i32;
    assert_eq!(fin.report.total_score, 1000 + 100 * correct);
}
