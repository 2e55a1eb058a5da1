use speech_dispatcher::reply::{NOT_QUEUED, SUCCESS};
use speech_dispatcher::text::has_nul;
use speech_dispatcher::{formatted_message_id, i32_to_bool, message_id, submitted};

#[test]
fn only_the_success_status_is_success() {
    assert_eq!(SUCCESS, 1);
    assert!(i32_to_bool(1));
    assert!(!i32_to_bool(0));
    assert!(!i32_to_bool(2));
    assert!(!i32_to_bool(-1));
    assert!(!i32_to_bool(-2));
    assert!(!i32_to_bool(i32::MIN));
    assert!(!i32_to_bool(i32::MAX));
}

#[test]
fn every_status_but_one_fails() {
    for status in -1000..=1000 {
        assert_eq!(i32_to_bool(status), status == 1);
    }
}

#[test]
fn submission_that_was_sent() {
    assert!(submitted(Some(1)));
    assert!(!submitted(Some(0)));
    assert!(!submitted(Some(-1)));
    assert!(!submitted(Some(7)));
}

#[test]
fn submission_that_was_not_sent_counts_as_done() {
    assert!(submitted(None));
}

#[test]
fn message_identifier() {
    assert_eq!(NOT_QUEUED, -1);
    assert_eq!(message_id(Some(0)), Some(0));
    assert_eq!(message_id(Some(1)), Some(1));
    assert_eq!(message_id(Some(731)), Some(731));
    assert_eq!(message_id(Some(i32::MAX)), Some(2147483647));
    assert_eq!(message_id(Some(-1)), None);
    assert_eq!(message_id(None), None);
}

#[test]
fn negative_status_is_no_identifier() {
    assert_eq!(message_id(Some(-2)), None);
    assert_eq!(message_id(Some(-100)), None);
    assert_eq!(message_id(Some(i32::MIN)), None);
}

#[test]
fn identifier_is_the_status_exactly_when_it_is_not_negative() {
    for status in -1000..=1000 {
        let expected = if status >= 0 { Some(status as u64) } else { None };
        assert_eq!(message_id(Some(status)), expected);
    }
}

#[test]
fn formatted_message_identifier() {
    assert_eq!(formatted_message_id(Some(0)), Some(0));
    assert_eq!(formatted_message_id(Some(12)), Some(12));
    assert_eq!(formatted_message_id(Some(-2)), Some(-2));
    assert_eq!(formatted_message_id(Some(-1)), None);
    assert_eq!(formatted_message_id(None), None);
}

#[test]
fn zero_byte_is_found() {
    assert!(!has_nul(""));
    assert!(!has_nul("hello"));
    assert!(!has_nul("h\u{e9}llo \u{1f600}"));
    assert!(has_nul("\0"));
    assert!(has_nul("a\0b"));
    assert!(has_nul("ab\0"));
    assert!(has_nul("\0ab"));
}
