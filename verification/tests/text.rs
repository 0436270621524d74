use classcard::{answer_action, decimal_string, endpoint, input, input_num, input_step, AnswerAction, Error};

#[test]
fn decimal_text() {
    assert_eq!(decimal_string(0), "0");
    assert_eq!(decimal_string(7), "7");
    assert_eq!(decimal_string(10), "10");
    assert_eq!(decimal_string(99999), "99999");
    assert_eq!(decimal_string(-1), "-1");
    assert_eq!(decimal_string(i32::MIN), i32::MIN.to_string());
    assert_eq!(decimal_string(i32::MAX), i32::MAX.to_string());
}

#[test]
fn endpoint_text() {
    assert_eq!(endpoint("mobile3.classcard.net", 20000), "wss://mobile3.classcard.net/wss_801");
    assert_eq!(endpoint("h", 91000), "wss://h/wss_809");
}

#[test]
fn error_messages() {
    assert_eq!(Error::ReadError.to_string(), "Failed to read from socket");
    assert_eq!(Error::GetDataError.to_string(), "Failed to get data from socket");
    assert_eq!(Error::InvalidCmd("b_x".to_string()).to_string(), "Invalid cmd: b_x");
    assert_eq!(Error::ServerError.to_string(), "Server sent error");
    assert_eq!(Error::InvalidUri("invalid port".to_string()).to_string(), "invalid port");
}

#[test]
fn input_bytes_make_a_line() {
    let mut line = Vec::new();
    let mut done = false;
    for &b in "안녕\r\n".as_bytes() {
        done = input_step(&mut line, b);
        if done {
            break;
        }
    }
    assert!(done);
    assert_eq!(input(line), Some("안녕".to_string()));
    assert_eq!(input(vec![0xff, 0xfe]), None);
    assert_eq!(input(Vec::new()), Some(String::new()));
}

#[test]
fn numbers_typed() {
    assert_eq!(input_num("3"), Some(3));
    assert_eq!(input_num("-12"), Some(-12));
    assert_eq!(input_num("+4"), Some(4));
    assert_eq!(input_num(""), None);
    assert_eq!(input_num("-"), None);
    assert_eq!(input_num(" 3"), None);
    assert_eq!(input_num("3a"), None);
    assert_eq!(input_num("2147483647"), Some(i32::MAX));
    assert_eq!(input_num("2147483648"), None);
    assert_eq!(input_num("-2147483648"), Some(i32::MIN));
}

#[test]
fn answers_typed() {
    assert_eq!(answer_action(1), AnswerAction::Choose(0));
    assert_eq!(answer_action(4), AnswerAction::Choose(3));
    assert_eq!(answer_action(0), AnswerAction::Finish);
    assert_eq!(answer_action(-3), AnswerAction::Finish);
    assert_eq!(answer_action(5), AnswerAction::Retry);
    assert_eq!(answer_action(1000), AnswerAction::Retry);
}
