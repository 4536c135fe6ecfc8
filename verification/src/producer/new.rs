//! The one message variant with real behaviour: a batch of new events.
//!
//! Each element of the batch becomes an [`Event`] stamped with the current
//! time and the submitting connection's identity, to be published to the
//! broker keyed by its event type.

use vstd::prelude::*;

use crate::common::{encode_event_raw, event_wire_of, Event, EventContents, EventV, Record};

verus! {

/// One event as a client submits it: its type, and an arbitrary payload.
pub struct NewEvent {
    pub event_type: String,
    pub data: EventContents,
}

/// The mathematical value of a [`NewEvent`].
pub ghost struct NewEventV {
    pub event_type: Seq<char>,
    pub data: EventContents,
}

impl View for NewEvent {
    type V = NewEventV;

    open spec fn view(&self) -> NewEventV {
        NewEventV { event_type: self.event_type@, data: self.data }
    }
}

impl DeepView for NewEvent {
    type V = NewEventV;

    open spec fn deep_view(&self) -> NewEventV {
        self.view()
    }
}

/// A batch of new events submitted in one client message.
pub struct NewEventMessage {
    pub events: Vec<NewEvent>,
}

/// The batch under the `events` key of the JSON text, or `None` where the
/// text is not valid JSON, has no array under `events`, or some element
/// lacks a string `event_type` or a `data` value.
pub uninterp spec fn new_batch_of(s: Seq<char>) -> Option<Seq<NewEventV>>;

/// Relies on serde_json::from_str: parses the text and reads `events` as an
/// array of objects, each with a string `event_type` and a `data` value.
#[verifier::external_body]
pub(crate) fn parse_new_batch(raw: &str) -> (r: Option<Vec<NewEvent>>)
    ensures
        r is Some <==> new_batch_of(raw@) is Some,
        r matches Some(v) ==> new_batch_of(raw@) == Some(v.deep_view()),
{
    let v: serde_json::Value = serde_json::from_str(raw).ok()?;
    v.get("events")?.as_array()?.iter().map(
        |e| Some(
            NewEvent {
                event_type: e.get("event_type")?.as_str()?.to_string(),
                data: e.get("data")?.clone(),
            },
        ),
    ).collect::<Option<Vec<NewEvent>>>()
}

/// What publishing the batch `events` on behalf of `addr` at time `ts` must
/// produce: one record per element, in order, keyed by the element's event
/// type and carrying the wire encoding of the stamped envelope.
pub open spec fn publish_plan(
    events: Seq<NewEventV>,
    addr: Seq<char>,
    ts: Seq<char>,
    rs: Seq<Record>,
) -> bool {
    &&& rs.len() == events.len()
    &&& forall|i: int|
        0 <= i < rs.len() ==> {
            &&& (#[trigger] rs[i]).key@ == events[i].event_type
            &&& rs[i].payload@ == event_wire_of(
                EventV {
                    timestamp: ts,
                    addr: addr,
                    event_type: events[i].event_type,
                    data: events[i].data,
                },
            )
        }
}

impl NewEventMessage {
    /// Stamps every event in the batch with the given timestamp and the
    /// submitting connection's identity, and returns the records to publish,
    /// one per event, keyed by the event's type.
    pub fn process(&self, addr: &String, timestamp: &String) -> (r: Vec<Record>)
        ensures
            publish_plan(self.events.deep_view(), addr@, timestamp@, r@),
    {
        let mut out: Vec<Record> = Vec::new();
        let mut idx: usize = 0;
        while idx < self.events.len()
            invariant
                idx <= self.events.len(),
                out@.len() == idx,
                forall|i: int|
                    0 <= i < out@.len() ==> {
                        &&& (#[trigger] out@[i]).key@ == self.events@[i]@.event_type
                        &&& out@[i].payload@ == event_wire_of(
                            EventV {
                                timestamp: timestamp@,
                                addr: addr@,
                                event_type: self.events@[i]@.event_type,
                                data: self.events@[i]@.data,
                            },
                        )
                    },
            decreases self.events@.len() - idx,
        {
            let raw_event = &self.events[idx];
            let event = Event {
                timestamp: timestamp.clone(),
                addr: addr.clone(),
                event_type: raw_event.event_type.clone(),
                data: raw_event.data.clone(),
            };
            let payload = encode_event_raw(&event);
            out.push(Record { key: raw_event.event_type.clone(), payload });
            idx = idx + 1;
        }
        out
    }
}

} // verus!
