//! The decision layer of the two pipelines.
//!
//! The event loop around this crate accepts connections, reads frames and
//! broker records, and performs the actual writes; every decision in
//! between — what a frame means, what gets published, who receives a record
//! — is taken here and handed back as plain values.

use vstd::prelude::*;
use vstd::utf8::valid_utf8;

use crate::common::{event_of_wire, event_wire_of, ParseError, ProcessError, Record};
use crate::consumer;
use crate::consumer::fanout_targets;
use crate::producer;
use crate::producer::new::{new_batch_of, publish_plan};
use crate::producer::query::query_of;
use crate::producer::register::register_of;
use crate::producer::{discriminator_of, frame_text, Frame};

verus! {

/// What the inbound pipeline does in reaction to one frame from a client.
pub enum FrameAction {
    /// A close frame: remove the connection's sink from the registry and
    /// stop reading from it; no further writes to it are attempted.
    Disconnect,
    /// A well-formed new-event batch: publish these records to the broker,
    /// in order, fire-and-forget.
    Publish(Vec<Record>),
    /// A malformed frame: fail this one message, keep the connection.
    Reject(ParseError),
    /// A well-formed message of a reserved variant: report it as
    /// unsupported, keep the connection.
    Unsupported(ProcessError),
}

/// What reacting to the text `s`, sent by `addr` and stamped `ts`, must
/// produce.
pub open spec fn action_for(s: Seq<char>, addr: Seq<char>, ts: Seq<char>, r: FrameAction) -> bool {
    match discriminator_of(s) {
        Option::None => r == FrameAction::Reject(ParseError::InvalidPayload),
        Option::Some(d) => if d == "new"@ {
            match new_batch_of(s) {
                Option::Some(es) => r matches FrameAction::Publish(rs) && publish_plan(
                    es,
                    addr,
                    ts,
                    rs@,
                ),
                Option::None => r == FrameAction::Reject(ParseError::MalformedMessage),
            }
        } else if d == "query"@ {
            match query_of(s) {
                Option::Some(_) => r == FrameAction::Unsupported(ProcessError::NotImplemented),
                Option::None => r == FrameAction::Reject(ParseError::MalformedMessage),
            }
        } else if d == "register"@ {
            match register_of(s) {
                Option::Some(_) => r == FrameAction::Unsupported(ProcessError::NotImplemented),
                Option::None => r == FrameAction::Reject(ParseError::MalformedMessage),
            }
        } else {
            r == FrameAction::Reject(ParseError::UnknownMessageType)
        },
    }
}

/// Reacts to one frame received from the connection `addr`, stamping any
/// published events with the timestamp `timestamp`.
///
/// Frames from one connection are handed in here one at a time, in receipt
/// order; a close frame yields [`FrameAction::Disconnect`] and nothing ever
/// follows it.
pub fn handle_frame_at(frame: &Frame, addr: &String, timestamp: &String) -> (r: FrameAction)
    ensures
        frame is Close <==> r is Disconnect,
        frame matches Frame::Binary(b) && !valid_utf8(b@) ==> r == FrameAction::Reject(
            ParseError::InvalidUtf8,
        ),
        frame_text(*frame) matches Some(s) ==> action_for(s, addr@, timestamp@, r),
{
    match producer::parse_message(frame) {
        Result::Ok(msg) => match producer::execute(&msg, addr, timestamp) {
            Result::Ok(records) => FrameAction::Publish(records),
            Result::Err(e) => FrameAction::Unsupported(e),
        },
        Result::Err(ParseError::UnsupportedFrame) => FrameAction::Disconnect,
        Result::Err(e) => FrameAction::Reject(e),
    }
}

/// Relies on chrono::Local::now, printed in RFC 2822 form.  The result
/// depends on the wall clock, so nothing is assumed of it.
#[verifier::external_body]
pub(crate) fn now_rfc2822() -> String {
    chrono::Local::now().to_rfc2822()
}

/// Reacts to one frame received from the connection `addr`, stamping any
/// published events with the current wall-clock time.
///
/// Whatever the clock reads, the action is the one [`handle_frame_at`]
/// takes for some timestamp.
pub fn handle_frame(frame: &Frame, addr: &String) -> (r: FrameAction)
    ensures
        frame is Close <==> r is Disconnect,
        frame matches Frame::Binary(b) && !valid_utf8(b@) ==> r == FrameAction::Reject(
            ParseError::InvalidUtf8,
        ),
        frame_text(*frame) matches Some(s) ==> exists|ts: Seq<char>| action_for(s, addr@, ts, r),
{
    let timestamp = now_rfc2822();
    let r = handle_frame_at(frame, addr, &timestamp);
    proof {
        if frame_text(*frame) is Some {
            let s = frame_text(*frame)->Some_0;
            assert(action_for(s, addr@, timestamp@, r));
        }
    }
    r
}

/// Reacts to one record read back from the broker: decodes it and plans its
/// fan-out over the snapshot `ids` of registered identities.
///
/// A record that does not decode is reported as malformed, to be logged and
/// skipped — the broker stream never terminates because of one bad record.
/// A decoded record is addressed to every snapshotted identity except its
/// own origin, each exactly once, in snapshot order.
pub fn process_record(raw: &str, ids: &Vec<String>) -> (r: Result<
    Vec<(String, String)>,
    ParseError,
>)
    ensures
        r is Err <==> event_of_wire(raw@) is None,
        r matches Err(e) ==> e == ParseError::MalformedMessage,
        event_of_wire(raw@) matches Some(ev) ==> (r matches Ok(sends) && ({
            let tgt = fanout_targets(ids.deep_view(), ev.addr);
            &&& sends@.len() == tgt.len()
            &&& forall|i: int|
                0 <= i < sends@.len() ==> {
                    &&& (#[trigger] sends@[i]).0@ == tgt[i]
                    &&& sends@[i].1@ == event_wire_of(ev)
                }
        })),
{
    match consumer::parse_message(raw) {
        Result::Ok(event) => Ok(consumer::plan_fanout(ids, &event)),
        Result::Err(e) => Err(e),
    }
}

} // verus!
