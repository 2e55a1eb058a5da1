use speech_dispatcher::discovery::{parse_client_id, NO_CLIENT_ID};
use speech_dispatcher::{Connection, Registry};

#[test]
fn reply_with_client_name_and_number() {
    assert_eq!(parse_client_id(b"t1-42\r\n"), 42);
}

#[test]
fn reply_without_hyphen_falls_back_to_zero() {
    assert_eq!(parse_client_id(b"t142\r\n"), 0);
    assert_eq!(NO_CLIENT_ID, 0);
}

#[test]
fn reply_as_the_daemon_sends_it() {
    assert_eq!(parse_client_id(b"200-12\r\n200 OK CLIENT ID SENT\r\n"), 12);
}

#[test]
fn empty_reply() {
    assert_eq!(parse_client_id(b""), 0);
}

#[test]
fn only_the_first_line_counts() {
    assert_eq!(parse_client_id(b"none\r\na-5\r\n"), 0);
    assert_eq!(parse_client_id(b"a-5\r\nb-6\r\n"), 5);
}

#[test]
fn reply_without_line_break() {
    assert_eq!(parse_client_id(b"a-5"), 5);
}

#[test]
fn lone_carriage_return_or_line_feed_ends_no_line() {
    assert_eq!(parse_client_id(b"a-5\rb"), 0);
    assert_eq!(parse_client_id(b"a-5\nb"), 0);
    assert_eq!(parse_client_id(b"a\r-5\r\n"), 5);
    assert_eq!(parse_client_id(b"a-5\r"), 0);
}

#[test]
fn second_field_ends_at_the_next_hyphen() {
    assert_eq!(parse_client_id(b"a-1-2\r\n"), 1);
    assert_eq!(parse_client_id(b"a-007-9"), 7);
}

#[test]
fn empty_second_field() {
    assert_eq!(parse_client_id(b"a-\r\n"), 0);
    assert_eq!(parse_client_id(b"a--5\r\n"), 0);
    assert_eq!(parse_client_id(b"-"), 0);
}

#[test]
fn empty_first_field() {
    assert_eq!(parse_client_id(b"-5\r\n"), 5);
}

#[test]
fn plus_sign_before_the_digits() {
    assert_eq!(parse_client_id(b"a-+7\r\n"), 7);
    assert_eq!(parse_client_id(b"a-+\r\n"), 0);
    assert_eq!(parse_client_id(b"a-++7\r\n"), 0);
    assert_eq!(parse_client_id(b"a-7+\r\n"), 0);
}

#[test]
fn field_that_is_no_number() {
    assert_eq!(parse_client_id(b"a-b\r\n"), 0);
    assert_eq!(parse_client_id(b"a-4b\r\n"), 0);
    assert_eq!(parse_client_id(b"a- 4\r\n"), 0);
    assert_eq!(parse_client_id(b"a-4 \r\n"), 0);
    assert_eq!(parse_client_id(b"a-/\r\n"), 0);
    assert_eq!(parse_client_id(b"a-:\r\n"), 0);
    assert_eq!(parse_client_id("a-\u{664}\r\n".as_bytes()), 0);
}

#[test]
fn largest_identifier_and_overflow() {
    assert_eq!(parse_client_id(b"a-18446744073709551615\r\n"), u64::MAX);
    assert_eq!(parse_client_id(b"a-18446744073709551616\r\n"), 0);
    assert_eq!(parse_client_id(b"a-18446744073709551620\r\n"), 0);
    assert_eq!(parse_client_id(b"a-99999999999999999999999\r\n"), 0);
    assert_eq!(parse_client_id(b"a-18446744073709551616x\r\n"), 0);
    assert_eq!(parse_client_id(b"a-000000000000000000000000018\r\n"), 18);
}

#[test]
fn agrees_with_splitting_and_parsing_the_text() {
    let replies = [
        "t1-42\r\n",
        "t142",
        "",
        "-",
        "a-+3-4\r\nx-9",
        "\r\na-1",
        "a-1\r\n\r\n",
        "a\r\n-1",
        "a-\r\n1",
        "a-1\r-2\r\n",
        "a-0",
        "é-12-x",
    ];
    for reply in replies {
        let expected = reply
            .split("\r\n")
            .next()
            .and_then(|line| line.split('-').nth(1))
            .and_then(|field| field.parse::<u64>().ok())
            .unwrap_or(0);
        assert_eq!(parse_client_id(reply.as_bytes()), expected);
    }
}

#[test]
fn setup_resolves_the_identifier() {
    let mut registry: Registry<u8, u8> = Registry::new();
    let (connection, _) = Connection::setup(Some("t1-42\r\n"), &mut registry);
    assert_eq!(connection.client_id(), 42);
    assert!(registry.contains(42));
    assert!(!registry.contains(0));
}

#[test]
fn setup_falls_back_to_zero() {
    let mut registry: Registry<u8, u8> = Registry::new();
    let (connection, _) = Connection::setup(Some("t142\r\n"), &mut registry);
    assert_eq!(connection.client_id(), 0);
    assert!(registry.contains(0));
    let (unanswered, _) = Connection::setup(None, &mut registry);
    assert_eq!(unanswered.client_id(), 0);
}
