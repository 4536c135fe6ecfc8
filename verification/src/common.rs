//! The event envelope and its wire codec, together with the error taxonomy
//! shared by the two pipelines.
//!
//! An [`Event`] is the envelope exchanged with the broker: a JSON object with
//! string fields `timestamp`, `addr` (the originating connection's identity)
//! and `event_type`, and an arbitrary JSON value under `data`.  The JSON text
//! itself is produced and consumed by `serde_json` behind two trusted
//! wrappers; everything that decides *what* is encoded or *what happens* to a
//! decoded envelope is verified against the names those wrappers introduce.

use vstd::prelude::*;

verus! {

/// The payload carried under an event's `data` key: an arbitrary JSON value,
/// opaque to this crate and passed through unchanged.
pub type EventContents = serde_json::Value;

#[verifier::external_type_specification]
#[verifier::external_body]
pub struct ExValue(serde_json::Value);

/// Relies on serde_json::Value::clone: the derived clone copies the whole
/// value tree, so the clone is the same value.
pub assume_specification[ <serde_json::Value as Clone>::clone ](v: &serde_json::Value) -> (r:
    serde_json::Value)
    ensures
        r == *v,
;

/// The envelope for one event as it travels through the broker: who sent it,
/// when, under which routing key, and its payload.
pub struct Event {
    pub timestamp: String,
    pub addr: String,
    pub event_type: String,
    pub data: EventContents,
}

/// The mathematical value of an [`Event`]: its three string fields as
/// character sequences, and the payload itself.
pub ghost struct EventV {
    pub timestamp: Seq<char>,
    pub addr: Seq<char>,
    pub event_type: Seq<char>,
    pub data: EventContents,
}

impl View for Event {
    type V = EventV;

    open spec fn view(&self) -> EventV {
        EventV {
            timestamp: self.timestamp@,
            addr: self.addr@,
            event_type: self.event_type@,
            data: self.data,
        }
    }
}

/// The JSON text that the wire codec produces for an event value.
pub uninterp spec fn event_wire_of(e: EventV) -> Seq<char>;

/// The event value that the wire codec reads out of a piece of JSON text,
/// or `None` where the text is not a well-formed event envelope.
pub uninterp spec fn event_of_wire(raw: Seq<char>) -> Option<EventV>;

/// Relies on serde_json::to_string over a JSON object value: builds the
/// event's wire object from its four fields and prints it.  Printing a JSON
/// value cannot fail.
#[verifier::external_body]
pub(crate) fn encode_event_raw(e: &Event) -> (r: String)
    ensures
        r@ == event_wire_of(e@),
{
    let mut m = serde_json::Map::new();
    m.insert("timestamp".to_string(), serde_json::Value::String(e.timestamp.clone()));
    m.insert("addr".to_string(), serde_json::Value::String(e.addr.clone()));
    m.insert("event_type".to_string(), serde_json::Value::String(e.event_type.clone()));
    m.insert("data".to_string(), e.data.clone());
    serde_json::to_string(&serde_json::Value::Object(m)).unwrap()
}

/// Relies on serde_json::from_str: parses the text and reads the four fields
/// of the event envelope, `None` where the text is not valid JSON or any of
/// the three string fields is missing or not a string.
#[verifier::external_body]
pub(crate) fn decode_event_raw(raw: &str) -> (r: Option<Event>)
    ensures
        r is Some <==> event_of_wire(raw@) is Some,
        r matches Some(e) ==> event_of_wire(raw@) == Some(e@),
{
    let v: serde_json::Value = serde_json::from_str(raw).ok()?;
    Some(Event {
        timestamp: v.get("timestamp")?.as_str()?.to_string(),
        addr: v.get("addr")?.as_str()?.to_string(),
        event_type: v.get("event_type")?.as_str()?.to_string(),
        data: v.get("data")?.clone(),
    })
}

/// Why a frame or a piece of text coming from a client was rejected at
/// decode time.
#[derive(Debug, Clone, Copy, PartialEq, Eq, Structural)]
pub enum ParseError {
    /// The frame was a close frame: there is nothing to classify.
    UnsupportedFrame,
    /// A binary frame whose bytes are not valid UTF-8.
    InvalidUtf8,
    /// The text is not a JSON object with a string field `type`.
    InvalidPayload,
    /// The discriminator is none of the known message types.
    UnknownMessageType,
    /// The discriminator was recognised but the variant's own fields are
    /// missing or of the wrong shape.
    MalformedMessage,
}

/// Why a classified message could not be executed.
#[derive(Debug, Clone, Copy, PartialEq, Eq, Structural)]
pub enum ProcessError {
    /// The message variant is reserved and deliberately unsupported.
    NotImplemented,
}

/// Why a send to a client connection was abandoned.
#[derive(Debug, Clone, Copy, PartialEq, Eq, Structural)]
pub enum SendError {
    /// The connection's sink was not in the registry: the peer closed (or a
    /// write is in flight) between the fan-out decision and this send.  The
    /// delivery is dropped; nothing else is affected.
    SinkAbsent,
}

/// One record to publish to the broker: the routing key and the serialized
/// event envelope.
pub struct Record {
    pub key: String,
    pub payload: String,
}

} // verus!
