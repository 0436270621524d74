use classcard::{
    check_rank_ack, Error, JoinResult, Quest, RankRequest, SendRankResult, Socket,
    TestStart,
};

fn connected() -> Socket {
    let (socket, _uri) = Socket::connect("mobile3.classcard.net", 20000).unwrap();
    socket
}

fn quest(card: &str, back: &str, choices: &[&str]) -> Quest {
    Quest {
        test_card_idx: card.to_string(),
        front: format!("front of {}", card),
        back: back.to_string(),
        example_sentence: String::new(),
        back_quest: choices.iter().map(|c| c.to_string()).collect(),
    }
}

fn apple() -> Quest {
    quest("c1", "사과", &["배", "사과", "포도", "감"])
}

fn entries(r: &RankRequest) -> Vec<(String, i32, i32)> {
    r.quest.iter().map(|q| (q.card_idx.clone(), q.score, q.correct_yn)).collect()
}

fn params(f: &classcard::FormRequest) -> Vec<(&str, &str)> {
    f.params.iter().map(|(k, v)| (k.as_str(), v.as_str())).collect()
}

#[test]
fn port_of_each_block() {
    assert_eq!(Socket::get_port(1), 800);
    assert_eq!(Socket::get_port(-5), 800);
    assert_eq!(Socket::get_port(18999), 800);
    assert_eq!(Socket::get_port(19000), 801);
    assert_eq!(Socket::get_port(27999), 801);
    assert_eq!(Socket::get_port(28000), 802);
    assert_eq!(Socket::get_port(37000), 803);
    assert_eq!(Socket::get_port(46000), 804);
    assert_eq!(Socket::get_port(55000), 805);
    assert_eq!(Socket::get_port(64000), 806);
    assert_eq!(Socket::get_port(73000), 807);
    assert_eq!(Socket::get_port(82000), 808);
    assert_eq!(Socket::get_port(91000), 809);
    assert_eq!(Socket::get_port(99999), 809);
    assert_eq!(Socket::get_port(100000), 800);
    assert_eq!(Socket::get_port(45999), 803);
}

#[test]
fn connect_parses_the_websocket_address() {
    let (_socket, uri) = Socket::connect("mobile3.classcard.net", 20000).unwrap();
    assert_eq!(uri.to_string(), "wss://mobile3.classcard.net/wss_801");
    assert_eq!(uri.host(), Some("mobile3.classcard.net"));
    let (_socket, uri) = Socket::connect("example.org", 5).unwrap();
    assert_eq!(uri.path(), "/wss_800");
}

#[test]
fn connect_refuses_a_bad_address() {
    match Socket::connect("bad host", 20000) {
        Err(e) => {
            assert_eq!(e, Error::InvalidUri("invalid uri character".to_string()));
            assert_eq!(e.to_string(), "invalid uri character");
        }
        Ok(_) => panic!("an address with a space parsed"),
    }
}

#[test]
fn check_battle_message() {
    let socket = connected();
    let m = socket.check_battle(12345);
    assert_eq!(m.cmd, "b_check");
    assert_eq!(m.battle_id, "12345");
    assert!(!m.is_auto);
    assert_eq!(m.major_ver, 8);
    assert_eq!(m.minor_ver, 0);
}

#[test]
fn join_sends_name_platform_and_browser() {
    let mut socket = connected()
        .set_browser("Firefox".to_string())
        .set_platform("Linux".to_string());
    let m = socket.join(30000, "철수".to_string());
    assert_eq!(m.cmd, "b_join");
    assert_eq!(m.battle_id, "30000");
    assert_eq!(m.user_name, "철수");
    assert_eq!(m.is_add, 0);
    assert!(!m.is_auto);
    assert_eq!(m.platform, "Linux");
    assert_eq!(m.browser, "Firefox");
    assert_eq!((m.major_ver, m.minor_ver), (8, 0));
}

fn join_result(test_id: i32, is_start: bool) -> JoinResult {
    JoinResult {
        cmd: "b_join".to_string(),
        result: "ok".to_string(),
        msg: String::new(),
        test_id,
        test_time: 0,
        test_random: false,
        b_name: "battle".to_string(),
        b_image: None,
        b_user_idx: "7".to_string(),
        is_end: false,
        is_start,
        b_mode: 0,
        set_idx: 1,
        set_name: "words".to_string(),
        set_type: 1,
        b_text: Some(true),
        is_event: 0,
        ptn_idx: 0,
    }
}

#[test]
fn confirm_join_takes_test_id_and_start() {
    let mut socket = connected();
    socket.join(30000, "kim".to_string());
    assert!(socket.wait_for_start());
    let m = socket.confirm_join(30000, &join_result(4242, true));
    assert_eq!(m.is_add, 1);
    assert_eq!(m.user_name, "kim");
    assert_eq!(m.browser, "Chrome");
    assert_eq!(m.platform, "Mac OS X");
    assert!(!socket.wait_for_start());
    let f = socket.get_battle_quest();
    assert_eq!(f.url, "https://b.classcard.net/ClassBattle/battle_quest");
    assert_eq!(f.accept, "*/*");
    assert!(f.user_agent.starts_with("Mozilla/5.0"));
    assert_eq!(params(&f), vec![("test_id", "4242")]);
}

#[test]
fn quest_form_before_joining() {
    let socket = connected().set_user_agent("agent/1".to_string());
    let f = socket.get_battle_quest();
    assert_eq!(f.user_agent, "agent/1");
    assert_eq!(params(&f), vec![("test_id", "-1")]);
}

#[test]
fn start_takes_rank_id() {
    let mut socket = connected();
    let start = TestStart { cmd: "b_test_start".to_string(), rank_id: "r77".to_string(), is_field: 0 };
    assert_eq!(socket.start(&start), Ok(()));
    let f = socket.final_submit().score_form;
    assert_eq!(params(&f)[0], ("rank_id", "r77"));
}

#[test]
fn start_refuses_another_command() {
    let mut socket = connected();
    let start = TestStart { cmd: "b_error".to_string(), rank_id: "r77".to_string(), is_field: 0 };
    let res = socket.start(&start);
    assert_eq!(res, Err(Error::ServerError));
    assert_eq!(res.unwrap_err().to_string(), "Server sent error");
    let f = socket.final_submit().score_form;
    assert_eq!(params(&f)[0], ("rank_id", ""));
}

#[test]
fn rank_ack() {
    assert_eq!(check_rank_ack(&SendRankResult { cmd: "b_send_rank".to_string() }), Ok(()));
    assert_eq!(
        check_rank_ack(&SendRankResult { cmd: "nope".to_string() }),
        Err(Error::ServerError)
    );
}

#[test]
fn submit_scores_right_and_wrong() {
    let mut socket = connected();
    let right = socket.submit(&apple(), 1);
    assert!(right.is_correct);
    assert!(right.report.is_none());
    let wrong = socket.submit(&apple(), 0);
    assert!(!wrong.is_correct);
    assert!(wrong.report.is_none());
    let fin = socket.final_submit();
    assert_eq!(fin.report.cmd, "b_get_rank");
    assert_eq!(fin.report.total_score, 1100);
    assert_eq!(
        entries(&fin.report),
        vec![("c1".to_string(), 100, 1), ("c1".to_string(), 0, 0)]
    );
}

#[test]
fn fifth_answer_flushes_default_buffer() {
    let mut socket = connected();
    for i in 0..4 {
        let q = quest(&format!("c{}", i), "a", &["a", "b"]);
        assert!(socket.submit(&q, 0).report.is_none());
    }
    let q = quest("c4", "a", &["a", "b"]);
    let sub = socket.submit(&q, 1);
    assert!(!sub.is_correct);
    let report = sub.report.unwrap();
    assert_eq!(report.total_score, 1400);
    assert_eq!(
        entries(&report),
        vec![
            ("c0".to_string(), 100, 1),
            ("c1".to_string(), 100, 1),
            ("c2".to_string(), 100, 1),
            ("c3".to_string(), 100, 1),
            ("c4".to_string(), 0, 0),
        ]
    );
    let fin = socket.final_submit();
    assert!(fin.report.quest.is_empty());
    assert_eq!(fin.report.total_score, 1400);
}

#[test]
fn custom_scores() {
    let mut socket = connected().set_correct_score(30).set_fail_score(-10).set_buffer_size(10);
    socket.submit(&apple(), 1);
    socket.submit(&apple(), 2);
    socket.submit(&apple(), 3);
    let fin = socket.final_submit();
    assert_eq!(fin.report.total_score, 1010);
    assert_eq!(
        params(&fin.score_form)[4..8].to_vec(),
        vec![("total_score", "1010"), ("quest_cnt", "3"), ("correct_cnt", "1"), ("wrong_cnt", "2")]
    );
}

#[test]
fn final_submit_form() {
    let mut socket = connected();
    socket.join(50000, "lee".to_string());
    socket.submit(&apple(), 1);
    let fin = socket.final_submit();
    assert_eq!(fin.score_form.url, "https://b.classcard.net/ClassMainAsync/battle_send_std_score");
    assert_eq!(fin.score_form.accept, "*/*");
    assert_eq!(
        params(&fin.score_form),
        vec![
            ("rank_id", ""),
            ("rank_type", "0"),
            ("rank_num", "99999"),
            ("user_name", "lee"),
            ("total_score", "1100"),
            ("quest_cnt", "1"),
            ("correct_cnt", "1"),
            ("wrong_cnt", "0"),
            ("unknow_cnt", "0"),
        ]
    );
    let again = socket.final_submit();
    assert!(again.report.quest.is_empty());
    assert_eq!(again.report.total_score, 1100);
}

#[test]
fn accepts_only_existing_choices() {
    let socket = connected();
    assert!(socket.accepts_answer(&apple(), 0));
    assert!(socket.accepts_answer(&apple(), 3));
    assert!(!socket.accepts_answer(&apple(), 4));
    assert!(!socket.accepts_answer(&apple(), -1));
    let rich = connected().set_correct_score(i32::MAX);
    assert!(!rich.accepts_answer(&apple(), 1));
    assert!(rich.accepts_answer(&apple(), 0));
}

#[test]
fn websocket_handshake_headers() {
    let h = Socket::handshake_headers();
    assert_eq!(h.len(), 2);
    assert_eq!(h[0].0, "User-Agent");
    assert_eq!(
        h[0].1,
        "Mozilla/5.0 (Macintosh; Intel Mac OS X 10_15_7) AppleWebKit/537.36 (KHTML, like Gecko) Chrome/126.0.0.0 Safari/537.36"
    );
    assert_eq!(h[1], ("Origin".to_string(), "https://b.classcard.net".to_string()));
}

#[test]
fn keep_alive() {
    assert_eq!(Socket::keep_alive_message(), "{\"cmd\":\"pong\"}");
    assert_eq!(Socket::keep_alive_period_secs(), 10);
}
