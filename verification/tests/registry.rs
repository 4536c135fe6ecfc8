//! The connection registry and the send scheduler's check-out discipline.

use event_bus::common::SendError;
use event_bus::registry::ConnectionRegistry;
use event_bus::scheduler::{begin_send, finish_send};

#[test]
fn churn_yields_the_sink_back_exactly_once() {
    let mut reg: ConnectionRegistry<u32> = ConnectionRegistry::new();
    assert_eq!(reg.len(), 0);
    reg.insert("conn-1".to_string(), 41);
    assert_eq!(reg.len(), 1);
    assert_eq!(reg.remove(&"conn-1".to_string()), Some(41));
    assert_eq!(reg.remove(&"conn-1".to_string()), None);
    assert_eq!(reg.len(), 0);
}

#[test]
fn insert_overwrites_the_previous_entry() {
    let mut reg: ConnectionRegistry<u32> = ConnectionRegistry::new();
    reg.insert("conn-1".to_string(), 1);
    reg.insert("conn-1".to_string(), 2);
    assert_eq!(reg.len(), 1);
    assert_eq!(reg.remove(&"conn-1".to_string()), Some(2));
    assert_eq!(reg.remove(&"conn-1".to_string()), None);
}

#[test]
fn removing_one_identity_leaves_the_others() {
    let mut reg: ConnectionRegistry<u32> = ConnectionRegistry::new();
    reg.insert("a".to_string(), 1);
    reg.insert("b".to_string(), 2);
    reg.insert("c".to_string(), 3);
    assert_eq!(reg.remove(&"b".to_string()), Some(2));
    assert_eq!(reg.remove(&"b".to_string()), None);
    assert_eq!(reg.remove(&"a".to_string()), Some(1));
    assert_eq!(reg.remove(&"c".to_string()), Some(3));
}

#[test]
fn snapshot_lists_each_identity_once() {
    let mut reg: ConnectionRegistry<u32> = ConnectionRegistry::new();
    reg.insert("a".to_string(), 1);
    reg.insert("b".to_string(), 2);
    reg.insert("a".to_string(), 9);
    let mut ids = reg.snapshot_ids();
    ids.sort();
    assert_eq!(ids, vec!["a".to_string(), "b".to_string()]);
}

#[test]
fn a_sink_cannot_be_checked_out_twice() {
    let mut reg: ConnectionRegistry<u32> = ConnectionRegistry::new();
    reg.insert("conn-1".to_string(), 7);
    let first = begin_send(&mut reg, &"conn-1".to_string());
    assert_eq!(first, Ok(7));
    let second = begin_send(&mut reg, &"conn-1".to_string());
    assert_eq!(second, Err(SendError::SinkAbsent));
    finish_send(&mut reg, "conn-1".to_string(), 7);
    let third = begin_send(&mut reg, &"conn-1".to_string());
    assert_eq!(third, Ok(7));
}

#[test]
fn a_checked_out_sink_does_not_affect_other_sends() {
    let mut reg: ConnectionRegistry<u32> = ConnectionRegistry::new();
    reg.insert("b".to_string(), 2);
    reg.insert("c".to_string(), 3);
    let b_sink = begin_send(&mut reg, &"b".to_string());
    assert_eq!(b_sink, Ok(2));
    assert_eq!(begin_send(&mut reg, &"c".to_string()), Ok(3));
    finish_send(&mut reg, "c".to_string(), 3);
    finish_send(&mut reg, "b".to_string(), 2);
    assert_eq!(reg.len(), 2);
}
