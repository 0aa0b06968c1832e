use publirs::telegram::{Reply, Telegram, DELIVERY_TIMEOUT_SECONDS};

#[test]
fn text_message_is_addressed_to_the_bot() {
    let telegram = Telegram::new("123:abc");
    let message = telegram.message("@arena", 17, "hello");
    assert_eq!(message.url, "https://api.telegram.org/bot123:abc/sendMessage");
    assert_eq!(message.chat_id, "@arena");
    assert_eq!(message.message_thread_id, 17);
    assert_eq!(message.text, "hello");
    assert_eq!(message.parse_mode, "HTML");
}

#[test]
fn poll_message_is_an_anonymous_single_choice_quiz() {
    let telegram = Telegram::new("123:abc");
    let options = vec![String::from("A"), String::from("B"), String::from("C")];
    let message = telegram.poll("@arena", -4, "Which?", options, 2);
    assert_eq!(message.url, "https://api.telegram.org/bot123:abc/sendPoll");
    assert_eq!(message.chat_id, "@arena");
    assert_eq!(message.message_thread_id, -4);
    assert_eq!(message.question, "Which?");
    assert_eq!(message.options, vec!["A", "B", "C"]);
    assert!(message.is_anonymous);
    assert_eq!(message.kind, "quiz");
    assert!(!message.allows_multiple_answers);
    assert_eq!(message.correct_option_id, 2);
    assert_eq!(message.parse_mode, "HTML");
}

#[test]
fn an_empty_token_still_gives_an_address() {
    let message = Telegram::new("").message("c", 0, "");
    assert_eq!(message.url, "https://api.telegram.org/bot/sendMessage");
    assert_eq!(message.text, "");
}

#[test]
fn statuses_from_200_to_299_confirm_the_delivery() {
    for code in [200u16, 201, 204, 299] {
        let reply = Reply::Status { code, line: format!("{} fine", code) };
        assert_eq!(reply.outcome(), Ok(format!("{} fine", code)));
    }
}

#[test]
fn other_statuses_are_transport_errors() {
    for code in [0u16, 100, 199, 300, 301, 400, 404, 429, 500, 503, u16::MAX] {
        let reply = Reply::Status { code, line: format!("{} refused", code) };
        assert_eq!(reply.outcome(), Err(format!("{} refused", code)));
    }
}

#[test]
fn a_failure_is_a_transport_error() {
    let reply = Reply::Failure { reason: String::from("connection reset") };
    assert_eq!(reply.outcome(), Err(String::from("connection reset")));
}

#[test]
fn deliveries_time_out_after_ten_seconds() {
    assert_eq!(DELIVERY_TIMEOUT_SECONDS, 10);
}
