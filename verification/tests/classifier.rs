//! Classification of frames received from clients: one variant per
//! discriminator, one error per way a payload can be malformed.

use event_bus::common::{ParseError, ProcessError};
use event_bus::producer::{execute, parse_message, ClientMessage, Frame};

fn text_frame(s: &str) -> Frame {
    Frame::Text(s.to_string())
}

#[test]
fn new_batch_is_classified() {
    let frame = text_frame(r#"{"type":"new","events":[{"event_type":"x","data":{}}]}"#);
    match parse_message(&frame) {
        Ok(ClientMessage::New(m)) => {
            assert_eq!(m.events.len(), 1);
            assert_eq!(m.events[0].event_type, "x");
            assert_eq!(m.events[0].data, serde_json::Value::Object(serde_json::Map::new()));
        },
        _ => panic!("a new-event batch must classify as New"),
    }
}

#[test]
fn new_batch_produces_one_record_per_event() {
    let frame = text_frame(r#"{"type":"new","events":[{"event_type":"x","data":{}}]}"#);
    let msg = parse_message(&frame).unwrap();
    let records = execute(&msg, &"client-a".to_string(), &"ts-0".to_string()).unwrap();
    assert_eq!(records.len(), 1);
    assert_eq!(records[0].key, "x");
    let v: serde_json::Value = serde_json::from_str(&records[0].payload).unwrap();
    assert_eq!(v["event_type"].as_str(), Some("x"));
    assert_eq!(v["addr"].as_str(), Some("client-a"));
    assert_eq!(v["timestamp"].as_str(), Some("ts-0"));
    assert_eq!(v["data"], serde_json::Value::Object(serde_json::Map::new()));
}

#[test]
fn empty_batch_produces_no_records() {
    let frame = text_frame(r#"{"type":"new","events":[]}"#);
    let msg = parse_message(&frame).unwrap();
    let records = execute(&msg, &"client-a".to_string(), &"ts-0".to_string()).unwrap();
    assert_eq!(records.len(), 0);
}

#[test]
fn unknown_discriminator_is_rejected() {
    let frame = text_frame(r#"{"type":"bogus","events":[]}"#);
    assert_eq!(parse_message(&frame).err(), Some(ParseError::UnknownMessageType));
}

#[test]
fn missing_discriminator_is_rejected() {
    assert_eq!(parse_message(&text_frame(r#"{"events":[]}"#)).err(), Some(ParseError::InvalidPayload));
    assert_eq!(parse_message(&text_frame("[1,2]")).err(), Some(ParseError::InvalidPayload));
    assert_eq!(parse_message(&text_frame("{ not json")).err(), Some(ParseError::InvalidPayload));
    assert_eq!(
        parse_message(&text_frame(r#"{"type":7}"#)).err(),
        Some(ParseError::InvalidPayload)
    );
}

#[test]
fn malformed_new_batch_is_rejected() {
    assert_eq!(
        parse_message(&text_frame(r#"{"type":"new"}"#)).err(),
        Some(ParseError::MalformedMessage)
    );
    assert_eq!(
        parse_message(&text_frame(r#"{"type":"new","events":[{"data":{}}]}"#)).err(),
        Some(ParseError::MalformedMessage)
    );
    assert_eq!(
        parse_message(&text_frame(r#"{"type":"new","events":[{"event_type":"x"}]}"#)).err(),
        Some(ParseError::MalformedMessage)
    );
}

#[test]
fn query_classifies_and_is_unsupported() {
    let frame = text_frame(r#"{"type":"query","event_types":["a"],"date":"d","addr":"c"}"#);
    let msg = parse_message(&frame).unwrap();
    match &msg {
        ClientMessage::Query(q) => {
            assert_eq!(q.event_types, vec!["a".to_string()]);
            assert_eq!(q.date, "d");
            assert_eq!(q.addr, "c");
        },
        _ => panic!("a query must classify as Query"),
    }
    let r = execute(&msg, &"client-a".to_string(), &"ts-0".to_string());
    assert_eq!(r.err(), Some(ProcessError::NotImplemented));
}

#[test]
fn register_classifies_and_is_unsupported() {
    let frame = text_frame(r#"{"type":"register","event_types":["a","b"]}"#);
    let msg = parse_message(&frame).unwrap();
    match &msg {
        ClientMessage::Register(m) => {
            assert_eq!(m.event_types, vec!["a".to_string(), "b".to_string()]);
        },
        _ => panic!("a register must classify as Register"),
    }
    let r = execute(&msg, &"client-a".to_string(), &"ts-0".to_string());
    assert_eq!(r.err(), Some(ProcessError::NotImplemented));
}

#[test]
fn malformed_query_and_register_are_rejected() {
    assert_eq!(
        parse_message(&text_frame(r#"{"type":"query","event_types":["a"]}"#)).err(),
        Some(ParseError::MalformedMessage)
    );
    assert_eq!(
        parse_message(&text_frame(r#"{"type":"register"}"#)).err(),
        Some(ParseError::MalformedMessage)
    );
}

#[test]
fn close_frame_is_not_classified() {
    assert_eq!(parse_message(&Frame::Close).err(), Some(ParseError::UnsupportedFrame));
}

#[test]
fn binary_frame_is_read_as_utf8() {
    let text = r#"{"type":"new","events":[]}"#;
    let frame = Frame::Binary(text.as_bytes().to_vec());
    match parse_message(&frame) {
        Ok(ClientMessage::New(m)) => assert_eq!(m.events.len(), 0),
        _ => panic!("a binary frame with UTF-8 JSON must classify like text"),
    }
}

#[test]
fn invalid_utf8_is_rejected() {
    let frame = Frame::Binary(vec![0xff, 0xfe, b'{']);
    assert_eq!(parse_message(&frame).err(), Some(ParseError::InvalidUtf8));
}
