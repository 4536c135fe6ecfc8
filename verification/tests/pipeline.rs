//! The two pipelines end to end: an event submitted by one client travels
//! to the broker and is fanned out to every other client, never back to its
//! submitter.

use event_bus::common::ParseError;
use event_bus::consumer::{parse_message, plan_fanout, process_outgoing};
use event_bus::producer::Frame;
use event_bus::registry::ConnectionRegistry;
use event_bus::scheduler::begin_send;
use event_bus::server::{handle_frame, handle_frame_at, process_record, FrameAction};
use event_bus::Context;

fn make_event(addr: &str, event_type: &str, data_json: &str) -> event_bus::common::Event {
    event_bus::common::Event {
        timestamp: "ts-0".to_string(),
        addr: addr.to_string(),
        event_type: event_type.to_string(),
        data: serde_json::from_str(data_json).unwrap(),
    }
}

#[test]
fn events_round_trip_through_the_wire() {
    let event = make_event("client-a", "t1", r#"{"v":1}"#);
    let encoded = process_outgoing(&event, &"client-b".to_string()).unwrap();
    let decoded = parse_message(&encoded).unwrap();
    assert_eq!(decoded.timestamp, "ts-0");
    assert_eq!(decoded.addr, "client-a");
    assert_eq!(decoded.event_type, "t1");
    assert_eq!(decoded.data, serde_json::from_str::<serde_json::Value>(r#"{"v":1}"#).unwrap());
}

#[test]
fn malformed_records_are_reported_not_fatal() {
    assert_eq!(parse_message("{ not json").err(), Some(ParseError::MalformedMessage));
    assert_eq!(parse_message(r#"{"addr":"a"}"#).err(), Some(ParseError::MalformedMessage));
    assert_eq!(
        parse_message(r#"{"timestamp":1,"addr":"a","event_type":"t","data":{}}"#).err(),
        Some(ParseError::MalformedMessage)
    );
}

#[test]
fn an_event_is_not_echoed_to_its_origin() {
    let event = make_event("client-a", "t1", "{}");
    assert_eq!(process_outgoing(&event, &"client-a".to_string()), None);
    assert!(process_outgoing(&event, &"client-b".to_string()).is_some());
}

#[test]
fn fanout_covers_everyone_but_the_origin() {
    let event = make_event("client-a", "t1", "{}");
    let ids = vec!["client-a".to_string(), "client-b".to_string(), "client-c".to_string()];
    let sends = plan_fanout(&ids, &event);
    assert_eq!(sends.len(), 2);
    assert_eq!(sends[0].0, "client-b");
    assert_eq!(sends[1].0, "client-c");
    assert_eq!(sends[0].1, sends[1].1);
}

#[test]
fn fanout_of_an_unregistered_origin_covers_everyone() {
    let event = make_event("client-x", "t1", "{}");
    let ids = vec!["client-a".to_string(), "client-b".to_string()];
    let sends = plan_fanout(&ids, &event);
    assert_eq!(sends.len(), 2);
}

#[test]
fn fanout_over_an_empty_snapshot_is_empty() {
    let event = make_event("client-a", "t1", "{}");
    let sends = plan_fanout(&Vec::new(), &event);
    assert_eq!(sends.len(), 0);
}

#[test]
fn end_to_end_submission_and_fanout() {
    // Three clients are connected.
    let mut reg: ConnectionRegistry<u32> = ConnectionRegistry::new();
    reg.insert("client-a".to_string(), 1);
    reg.insert("client-b".to_string(), 2);
    reg.insert("client-c".to_string(), 3);

    // Client A submits one event.
    let frame = Frame::Text(
        r#"{"type":"new","events":[{"event_type":"t1","data":{"v":1}}]}"#.to_string(),
    );
    let action = handle_frame_at(&frame, &"client-a".to_string(), &"ts-0".to_string());
    let records = match action {
        FrameAction::Publish(records) => records,
        _ => panic!("a new-event batch must be published"),
    };

    // The broker receives one record keyed by the event type, stamped with
    // A's identity.
    assert_eq!(records.len(), 1);
    assert_eq!(records[0].key, "t1");
    let v: serde_json::Value = serde_json::from_str(&records[0].payload).unwrap();
    assert_eq!(v["addr"].as_str(), Some("client-a"));

    // Read back from the broker, the record is fanned out to B and C but
    // not to A.
    let sends = process_record(&records[0].payload, &reg.snapshot_ids()).unwrap();
    let targets: Vec<&str> = sends.iter().map(|p| p.0.as_str()).collect();
    assert_eq!(targets, vec!["client-b", "client-c"]);
    for (_, text) in &sends {
        assert_eq!(text, &records[0].payload);
    }
}

#[test]
fn a_bad_record_does_not_reach_any_client() {
    let ids = vec!["client-a".to_string()];
    assert_eq!(process_record("definitely not json", &ids).err(), Some(ParseError::MalformedMessage));
}

#[test]
fn close_race_drops_only_the_closed_connection() {
    let mut reg: ConnectionRegistry<u32> = ConnectionRegistry::new();
    reg.insert("client-a".to_string(), 1);
    reg.insert("client-b".to_string(), 2);
    reg.insert("client-c".to_string(), 3);

    // A fan-out for an event from A is planned while B is still registered.
    let event = make_event("client-a", "t1", "{}");
    let sends = plan_fanout(&reg.snapshot_ids(), &event);
    assert_eq!(sends.len(), 2);

    // B's close frame is processed before B's send begins.
    let action = handle_frame_at(&Frame::Close, &"client-b".to_string(), &"ts-0".to_string());
    assert!(matches!(action, FrameAction::Disconnect));
    assert_eq!(reg.remove(&"client-b".to_string()), Some(2));

    // The send to B reports a dropped delivery; the send to C still goes
    // through.
    assert!(begin_send(&mut reg, &sends[0].0).is_err());
    assert_eq!(begin_send(&mut reg, &sends[1].0), Ok(3));
}

#[test]
fn a_malformed_frame_fails_only_that_message() {
    let action = handle_frame_at(
        &Frame::Text("{ not json".to_string()),
        &"client-a".to_string(),
        &"ts-0".to_string(),
    );
    assert!(matches!(action, FrameAction::Reject(ParseError::InvalidPayload)));

    let action = handle_frame_at(
        &Frame::Text(r#"{"type":"query","event_types":[],"date":"d","addr":"a"}"#.to_string()),
        &"client-a".to_string(),
        &"ts-0".to_string(),
    );
    assert!(matches!(action, FrameAction::Unsupported(_)));
}

#[test]
fn handle_frame_stamps_with_the_clock() {
    let frame = Frame::Text(r#"{"type":"new","events":[{"event_type":"t1","data":{}}]}"#.to_string());
    match handle_frame(&frame, &"client-a".to_string()) {
        FrameAction::Publish(records) => {
            assert_eq!(records.len(), 1);
            let v: serde_json::Value = serde_json::from_str(&records[0].payload).unwrap();
            assert!(v["timestamp"].as_str().is_some());
            assert!(!v["timestamp"].as_str().unwrap().is_empty());
        },
        _ => panic!("a new-event batch must be published"),
    }
}

#[test]
fn context_carries_its_configuration() {
    let ctx = Context::new(
        "localhost:9092".to_string(),
        "event-bus".to_string(),
        "events".to_string(),
        "events".to_string(),
    );
    assert_eq!(ctx.brokers, "localhost:9092");
    assert_eq!(ctx.group, "event-bus");
    assert_eq!(ctx.input, "events");
    assert_eq!(ctx.output, "events");
}
