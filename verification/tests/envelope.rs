use merrymake_service_library::{Envelope, ParseError};

#[test]
fn parses_camel_case_keys() {
    let envelope = Envelope::from_str("{\"messageId\":\"a\",\"traceId\":\"b\"}").unwrap();
    assert_eq!(envelope.message_id, "a");
    assert_eq!(envelope.trace_id, "b");
    assert_eq!(envelope.session_id, None);
}

#[test]
fn alias_and_canonical_forms_agree() {
    let camel = Envelope::from_str("{\"messageId\":\"a\",\"traceId\":\"b\"}").unwrap();
    let snake = Envelope::from_str("{\"message_id\":\"a\",\"trace_id\":\"b\"}").unwrap();
    assert_eq!(camel, snake);
    assert_eq!(camel.session_id, None);
}

#[test]
fn parses_session_id_under_either_key() {
    let camel =
        Envelope::from_str("{\"messageId\":\"a\",\"traceId\":\"b\",\"sessionId\":\"s\"}").unwrap();
    assert_eq!(camel.session_id, Some("s".to_string()));
    let snake =
        Envelope::from_str("{\"message_id\":\"a\",\"trace_id\":\"b\",\"session_id\":\"s\"}")
            .unwrap();
    assert_eq!(camel, snake);
}

#[test]
fn from_bytes_parses_raw_buffers() {
    let envelope =
        Envelope::from_bytes(b"{\"messageId\":\"m1\",\"traceId\":\"t1\"}").unwrap();
    assert_eq!(envelope.message_id, "m1");
    assert_eq!(envelope.trace_id, "t1");
}

#[test]
fn from_bytes_and_from_str_agree() {
    let text = "{\"traceId\":\"t\",\"messageId\":\"m\"}";
    assert_eq!(Envelope::from_bytes(text.as_bytes()), Envelope::from_str(text));
}

#[test]
fn rejects_invalid_json() {
    assert_eq!(Envelope::from_str("{"), Err(ParseError::NotAnObject));
    assert_eq!(Envelope::from_str(""), Err(ParseError::NotAnObject));
}

#[test]
fn rejects_non_object_json() {
    assert_eq!(Envelope::from_str("42"), Err(ParseError::NotAnObject));
    assert_eq!(Envelope::from_str("[\"messageId\"]"), Err(ParseError::NotAnObject));
}

#[test]
fn rejects_missing_message_id() {
    assert_eq!(
        Envelope::from_str("{\"traceId\":\"b\"}"),
        Err(ParseError::MissingMessageId)
    );
}

#[test]
fn rejects_missing_trace_id() {
    assert_eq!(
        Envelope::from_str("{\"messageId\":\"a\"}"),
        Err(ParseError::MissingTraceId)
    );
}

#[test]
fn rejects_field_under_both_keys() {
    assert_eq!(
        Envelope::from_str("{\"messageId\":\"a\",\"message_id\":\"a\",\"traceId\":\"b\"}"),
        Err(ParseError::DuplicateField)
    );
}

#[test]
fn non_string_required_field_counts_as_missing() {
    assert_eq!(
        Envelope::from_str("{\"messageId\":5,\"traceId\":\"b\"}"),
        Err(ParseError::MissingMessageId)
    );
}

#[test]
fn ignores_unknown_fields() {
    let envelope =
        Envelope::from_str("{\"messageId\":\"a\",\"traceId\":\"b\",\"other\":[1,2]}").unwrap();
    assert_eq!(envelope.message_id, "a");
}

#[test]
fn field_values_come_from_the_input() {
    let envelope =
        Envelope::from_str("{\"messageId\":\"alpha\",\"traceId\":\"beta\"}").unwrap();
    assert_eq!(envelope.message_id, "alpha");
    assert_eq!(envelope.trace_id, "beta");
    assert_ne!(envelope.message_id, envelope.trace_id);
}
