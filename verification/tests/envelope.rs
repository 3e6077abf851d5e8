use serde_json::Value;
use tonlabs_cli::envelope::{
    assemble_envelope, envelope_document, envelope_from_document, msg_from_json, msg_to_json,
    msg_to_json_checked, read_envelope_fields, take_required_fields, EncodedMessage,
    EnvelopeFields, ExpireField,
};
use tonlabs_cli::error::ErrorKind;

fn sample() -> EncodedMessage {
    EncodedMessage {
        message_id: String::from("abc123"),
        message_body: vec![0x01, 0x02, 0x03],
        expire: Some(1234),
    }
}

fn parse(text: &str) -> Value {
    serde_json::from_str(text).unwrap()
}

#[test]
fn envelope_round_trip() {
    let text = msg_to_json(&sample(), "transfer");
    let (msg, method) = msg_from_json(&text).unwrap();
    assert_eq!(msg.message_id, "abc123");
    assert_eq!(msg.message_body, vec![0x01, 0x02, 0x03]);
    assert_eq!(msg.expire, Some(1234));
    assert_eq!(msg, sample());
    assert_eq!(method, "transfer");
}

#[test]
fn envelope_text_is_exact() {
    let text = msg_to_json(&sample(), "transfer");
    assert_eq!(
        text,
        "{\"method\":\"transfer\",\"msg\":{\"expire\":1234,\"message_body\":\"AQID\",\"message_id\":\"abc123\"}}"
    );
}

#[test]
fn envelope_body_is_base64() {
    let mut msg = sample();
    msg.message_body = b"hello world".to_vec();
    let doc = parse(&msg_to_json(&msg, "m"));
    assert_eq!(doc["msg"]["message_body"], Value::String("aGVsbG8gd29ybGQ=".to_string()));
}

#[test]
fn envelope_round_trips_many_bodies() {
    for len in 0..70usize {
        let body: Vec<u8> = (0..len).map(|i| (i * 37 + len * 11) as u8).collect();
        let msg = EncodedMessage {
            message_id: format!("id-{}", len),
            message_body: body,
            expire: if len % 2 == 0 { Some(len as u32 * 1000) } else { None },
        };
        let text = msg_to_json(&msg, "method \"quoted\" \\ ünï");
        let (back, method) = msg_from_json(&text).unwrap();
        assert_eq!(back, msg);
        assert_eq!(method, "method \"quoted\" \\ ünï");
    }
}

#[test]
fn envelope_round_trips_largest_expire() {
    let mut msg = sample();
    msg.expire = Some(u32::MAX);
    let (back, _) = msg_from_json(&msg_to_json(&msg, "m")).unwrap();
    assert_eq!(back.expire, Some(u32::MAX));
}

#[test]
fn envelope_without_expiration() {
    let mut msg = sample();
    msg.expire = None;
    let text = msg_to_json(&msg, "transfer");
    assert_eq!(
        text,
        "{\"method\":\"transfer\",\"msg\":{\"expire\":null,\"message_body\":\"AQID\",\"message_id\":\"abc123\"}}"
    );
    assert!(parse(&text)["msg"]["expire"].is_null());
    let (back, method) = msg_from_json(&text).unwrap();
    assert_eq!(back.expire, None);
    assert_eq!(back, msg);
    assert_eq!(method, "transfer");
}

#[test]
fn envelope_with_absent_expire_member() {
    let text = "{\"method\":\"m\",\"msg\":{\"message_body\":\"AQID\",\"message_id\":\"i\"}}";
    let (msg, method) = msg_from_json(text).unwrap();
    assert_eq!(msg.expire, None);
    assert_eq!(msg.message_id, "i");
    assert_eq!(msg.message_body, vec![1, 2, 3]);
    assert_eq!(method, "m");
}

#[test]
fn envelope_schema_violation() {
    let err = msg_from_json("{\"msg\": {\"message_id\": \"x\"}}").unwrap_err();
    assert_eq!(err.kind, ErrorKind::Schema);
    assert_eq!(err.message, "couldn't find \"method\" key in message");
}

#[test]
fn envelope_missing_message_id() {
    let err = msg_from_json("{\"method\":\"m\",\"msg\":{\"message_body\":\"AQID\"}}").unwrap_err();
    assert_eq!(err.kind, ErrorKind::Schema);
    assert_eq!(err.message, "couldn't find \"message_id\" key in message");
}

#[test]
fn envelope_missing_message_body() {
    let err = msg_from_json("{\"method\":\"m\",\"msg\":{\"message_id\":\"x\"}}").unwrap_err();
    assert_eq!(err.kind, ErrorKind::Schema);
    assert_eq!(err.message, "couldn't find \"message_body\" key in message");
}

#[test]
fn envelope_missing_msg_object() {
    let err = msg_from_json("{\"method\":\"m\"}").unwrap_err();
    assert_eq!(err.kind, ErrorKind::Schema);
    assert_eq!(err.message, "couldn't find \"message_id\" key in message");
}

#[test]
fn envelope_field_of_wrong_type() {
    let err = msg_from_json("{\"method\":7,\"msg\":{\"message_id\":\"x\",\"message_body\":\"AQID\"}}")
        .unwrap_err();
    assert_eq!(err.kind, ErrorKind::Schema);
    assert_eq!(err.message, "couldn't find \"method\" key in message");
    let err = msg_from_json("{\"method\":\"m\",\"msg\":{\"message_id\":null,\"message_body\":\"AQID\"}}")
        .unwrap_err();
    assert_eq!(err.message, "couldn't find \"message_id\" key in message");
    let err = msg_from_json("{\"method\":\"m\",\"msg\":{\"message_id\":\"x\",\"message_body\":[1]}}")
        .unwrap_err();
    assert_eq!(err.message, "couldn't find \"message_body\" key in message");
}

#[test]
fn envelope_document_that_is_no_object() {
    for text in ["[]", "null", "3", "\"text\"", "true"] {
        let err = msg_from_json(text).unwrap_err();
        assert_eq!(err.kind, ErrorKind::Schema);
        assert_eq!(err.message, "couldn't find \"method\" key in message");
    }
}

#[test]
fn envelope_invalid_base64() {
    let text = "{\"method\":\"m\",\"msg\":{\"message_id\":\"x\",\"message_body\":\"not-valid-base64!!\"}}";
    let first = msg_from_json(text).unwrap_err();
    assert_eq!(first.kind, ErrorKind::Decode);
    assert_eq!(
        first.message,
        "couldn't decode \"message_body\" key in message: Invalid byte 45, offset 3."
    );
    let second = msg_from_json(text).unwrap_err();
    assert_eq!(first, second);
}

#[test]
fn envelope_base64_errors_are_described() {
    let err = assemble_envelope(
        "m".to_string(),
        "i".to_string(),
        Err(base64::DecodeError::InvalidLength),
        ExpireField::Absent,
    )
    .unwrap_err();
    assert_eq!(
        err.message,
        "couldn't decode \"message_body\" key in message: Encoded text cannot have a 6-bit remainder."
    );
    let err = assemble_envelope(
        "m".to_string(),
        "i".to_string(),
        Err(base64::DecodeError::InvalidLastSymbol(5, 66)),
        ExpireField::Absent,
    )
    .unwrap_err();
    assert_eq!(
        err.message,
        "couldn't decode \"message_body\" key in message: Invalid last symbol 66, offset 5."
    );
}

#[test]
fn envelope_not_json() {
    let err = msg_from_json("this is not json").unwrap_err();
    assert_eq!(err.kind, ErrorKind::Parse);
    assert_eq!(err.message, "couldn't decode message: expected ident at line 1 column 2");
    let err = msg_from_json("").unwrap_err();
    assert_eq!(err.kind, ErrorKind::Parse);
    assert!(err.message.starts_with("couldn't decode message: "));
    let err = msg_from_json("{\"method\":").unwrap_err();
    assert_eq!(err.kind, ErrorKind::Parse);
}

#[test]
fn envelope_expire_too_large() {
    let text = "{\"method\":\"m\",\"msg\":{\"expire\":4294967296,\"message_id\":\"x\",\"message_body\":\"AQID\"}}";
    let err = msg_from_json(text).unwrap_err();
    assert_eq!(err.kind, ErrorKind::Schema);
    assert_eq!(err.message, "couldn't read \"expire\" key in message");
}

#[test]
fn envelope_expire_of_wrong_type() {
    for expire in ["-1", "1.5", "\"soon\"", "true", "[]", "{}"] {
        let text = format!(
            "{{\"method\":\"m\",\"msg\":{{\"expire\":{},\"message_id\":\"x\",\"message_body\":\"AQID\"}}}}",
            expire
        );
        let err = msg_from_json(&text).unwrap_err();
        assert_eq!(err.kind, ErrorKind::Schema);
        assert_eq!(err.message, "couldn't read \"expire\" key in message");
    }
}

#[test]
fn envelope_body_is_checked_before_expire() {
    let text = "{\"method\":\"m\",\"msg\":{\"expire\":-1,\"message_id\":\"x\",\"message_body\":\"!\"}}";
    assert_eq!(msg_from_json(text).unwrap_err().kind, ErrorKind::Decode);
}

#[test]
fn envelope_ignores_other_members() {
    let text = "{\"extra\":1,\"method\":\"m\",\"msg\":{\"expire\":5,\"more\":[],\"message_id\":\"x\",\"message_body\":\"\"}}";
    let (msg, method) = msg_from_json(text).unwrap();
    assert_eq!(msg, EncodedMessage { message_id: "x".to_string(), message_body: vec![], expire: Some(5) });
    assert_eq!(method, "m");
}

#[test]
fn envelope_fields_are_read_as_they_are() {
    let doc = parse("{\"method\":\"m\",\"msg\":{\"expire\":70000000000,\"message_id\":3,\"message_body\":\"QQ==\"}}");
    assert_eq!(
        read_envelope_fields(&doc),
        EnvelopeFields {
            method: Some("m".to_string()),
            message_id: None,
            message_body: Some("QQ==".to_string()),
            expire: ExpireField::Unsigned(70_000_000_000),
        }
    );
    let doc = parse("{\"msg\":{\"expire\":-3}}");
    assert_eq!(
        read_envelope_fields(&doc),
        EnvelopeFields { method: None, message_id: None, message_body: None, expire: ExpireField::Other }
    );
    assert_eq!(
        read_envelope_fields(&Value::Null),
        EnvelopeFields { method: None, message_id: None, message_body: None, expire: ExpireField::Absent }
    );
}

#[test]
fn required_fields_are_taken_in_order() {
    let fields = EnvelopeFields {
        method: Some("m".to_string()),
        message_id: Some("i".to_string()),
        message_body: Some("b".to_string()),
        expire: ExpireField::Other,
    };
    assert_eq!(
        take_required_fields(fields),
        Ok(("m".to_string(), "i".to_string(), "b".to_string()))
    );
    let fields = EnvelopeFields { method: None, message_id: None, message_body: None, expire: ExpireField::Absent };
    assert_eq!(
        take_required_fields(fields).unwrap_err().message,
        "couldn't find \"method\" key in message"
    );
}

#[test]
fn assembled_envelope_holds_the_parts() {
    assert_eq!(
        assemble_envelope("m".to_string(), "i".to_string(), Ok(vec![9, 8]), ExpireField::Unsigned(77)),
        Ok((
            EncodedMessage { message_id: "i".to_string(), message_body: vec![9, 8], expire: Some(77) },
            "m".to_string()
        ))
    );
    assert_eq!(
        assemble_envelope("m".to_string(), "i".to_string(), Ok(vec![]), ExpireField::Unsigned(u32::MAX as u64))
            .unwrap()
            .0
            .expire,
        Some(u32::MAX)
    );
}

#[test]
fn document_is_built_from_the_given_body_text() {
    let doc = envelope_document(&sample(), "Qk9EWQ==", "transfer");
    assert_eq!(
        doc,
        parse("{\"method\":\"transfer\",\"msg\":{\"expire\":1234,\"message_body\":\"Qk9EWQ==\",\"message_id\":\"abc123\"}}")
    );
    let (msg, method) = envelope_from_document(&doc).unwrap();
    assert_eq!(msg.message_body, b"BODY".to_vec());
    assert_eq!(msg.message_id, "abc123");
    assert_eq!(method, "transfer");
}

#[test]
fn envelope_with_empty_method_is_read() {
    let text = "{\"msg\":{\"message_id\":\"x\",\"message_body\":\"AQID\"},\"method\":\"\"}";
    let (msg, method) = msg_from_json(text).unwrap();
    assert_eq!(method, "");
    assert_eq!(msg.message_id, "x");
    assert_eq!(msg.message_body, vec![1, 2, 3]);
}

#[test]
fn checked_text_is_the_written_text() {
    assert_eq!(msg_to_json_checked(&sample(), "transfer"), Some(msg_to_json(&sample(), "transfer")));
    let mut msg = sample();
    msg.expire = None;
    msg.message_body = vec![];
    assert_eq!(msg_to_json_checked(&msg, ""), Some(msg_to_json(&msg, "")));
}

#[test]
fn checked_text_reads_back() {
    for len in 0..40usize {
        let msg = EncodedMessage {
            message_id: format!("id {}", len),
            message_body: (0..len).map(|i| (255 - i) as u8).collect(),
            expire: if len % 3 == 0 { None } else { Some(len as u32) },
        };
        let text = msg_to_json_checked(&msg, "submit").unwrap();
        assert_eq!(msg_from_json(&text), Ok((msg, "submit".to_string())));
    }
}

#[test]
fn messages_are_compared_field_by_field() {
    let a = sample();
    assert!(a.same_as(&sample()));
    let mut b = sample();
    b.message_id = "abc124".to_string();
    assert!(!a.same_as(&b));
    let mut b = sample();
    b.message_body = vec![1, 2, 4];
    assert!(!a.same_as(&b));
    let mut b = sample();
    b.message_body = vec![1, 2];
    assert!(!a.same_as(&b));
    let mut b = sample();
    b.expire = None;
    assert!(!a.same_as(&b));
    assert!(!b.same_as(&a));
    assert!(b.same_as(&b));
    let mut b = sample();
    b.expire = Some(1235);
    assert!(!a.same_as(&b));
}
