use vireon_php::error::{completion_code, error_report, last_error_text, ErrorKind};
use vireon_php::message::{sdk_msg_to_c, Message};
use vireon_php::string_h::{c_string_text, cstr_to_option, cstr_to_string, has_nul};

#[test]
fn null_c_string_reads_empty() {
    assert_eq!(cstr_to_string(None), "");
    assert_eq!(cstr_to_option(None), None);
}

#[test]
fn c_string_reads_its_text() {
    assert_eq!(cstr_to_string(Some(b"sensor.temp")), "sensor.temp");
    assert_eq!(cstr_to_option(Some(b"ca.pem")), Some("ca.pem".to_string()));
    assert_eq!(cstr_to_string(Some(b"")), "");
}

#[test]
fn invalid_utf8_is_replaced() {
    assert_eq!(cstr_to_string(Some(&[b'a', 0xff, b'b'])), "a\u{FFFD}b");
    assert_eq!(cstr_to_option(Some(&[0xc3])), Some("\u{FFFD}".to_string()));
}

#[test]
fn nul_detection() {
    assert!(has_nul("a\0b"));
    assert!(!has_nul("ab"));
    assert!(!has_nul(""));
}

#[test]
fn c_string_text_empties_text_with_nul() {
    assert_eq!(c_string_text("topic".to_string()), "topic");
    assert_eq!(c_string_text("to\0pic".to_string()), "");
}

#[test]
fn error_reports() {
    assert_eq!(error_report(ErrorKind::Publish, "not connected"), "PublishError: not connected");
    assert_eq!(error_report(ErrorKind::Connect, "refused"), "ConnectError: refused");
    assert_eq!(error_report(ErrorKind::Subscribe, "x"), "SubscribeError: x");
    assert_eq!(error_report(ErrorKind::Stream, "x"), "StreamError: x");
    assert_eq!(error_report(ErrorKind::Group, "x"), "GroupError: x");
    assert_eq!(error_report(ErrorKind::Rpc, "timeout"), "RpcError: timeout");
}

#[test]
fn last_error_text_keeps_plain_messages() {
    assert_eq!(last_error_text("PublishError: closed"), "PublishError: closed");
    assert_eq!(last_error_text(""), "");
}

#[test]
fn last_error_text_replaces_messages_with_nul() {
    assert_eq!(last_error_text("bad\0msg"), "error message contained null byte");
}

#[test]
fn completion_codes() {
    assert_eq!(completion_code(true), 0);
    assert_eq!(completion_code(false), -1);
}

#[test]
fn message_conversion() {
    let parts = sdk_msg_to_c(Message {
        topic: b"sensor.temp".to_vec(),
        payload: b"42C".to_vec(),
        seq: 7,
        stream_id: 3,
    });
    assert_eq!(parts.topic, "sensor.temp");
    assert_eq!(parts.payload, Some(b"42C".to_vec()));
    assert_eq!(parts.payload_len, 3);
    assert_eq!(parts.seq, 7);
    assert_eq!(parts.stream_id, 3);
}

#[test]
fn empty_payload_gives_no_buffer() {
    let parts = sdk_msg_to_c(Message { topic: b"t".to_vec(), payload: Vec::new(), seq: 0, stream_id: 0 });
    assert_eq!(parts.payload, None);
    assert_eq!(parts.payload_len, 0);
}

#[test]
fn topic_with_nul_or_invalid_bytes() {
    let parts = sdk_msg_to_c(Message { topic: b"a\0b".to_vec(), payload: vec![1], seq: 1, stream_id: 1 });
    assert_eq!(parts.topic, "");
    let parts = sdk_msg_to_c(Message { topic: vec![b'x', 0xfe], payload: vec![1], seq: 1, stream_id: 1 });
    assert_eq!(parts.topic, "x\u{FFFD}");
}

#[test]
fn ascii_topic_comes_back_unchanged() {
    let parts = sdk_msg_to_c(Message { topic: b"sensor.temp".to_vec(), payload: vec![], seq: 0, stream_id: 0 });
    assert_eq!(parts.topic, "sensor.temp");
}
