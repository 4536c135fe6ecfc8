//! The client-to-broker pipeline: classifying a frame received from a client
//! connection and turning it into the records to publish.
//!
//! A data frame carries JSON text with a required string field `type` that
//! selects the message variant.  Exactly one variant is chosen from that
//! discriminator; an unrecognised discriminator is a decode error, never
//! silently ignored.  The JSON reading itself is done by `serde_json` behind
//! trusted wrappers, one per extraction; the selection and everything after
//! it is verified.

pub mod new;
pub mod query;
pub mod register;

use vstd::prelude::*;
use vstd::utf8::{decode_utf8, valid_utf8};

use crate::common::{ParseError, ProcessError, Record};
use crate::producer::new::{publish_plan, NewEventMessage};
use crate::producer::query::QueryMessage;
use crate::producer::register::RegisterMessage;

verus! {

/// One frame as the transport delivers it: text, raw bytes, or the peer's
/// close notice.
pub enum Frame {
    Text(String),
    Binary(Vec<u8>),
    Close,
}

/// The text a frame carries: binary frames are read as UTF-8, and a close
/// frame carries none.
pub open spec fn frame_text(f: Frame) -> Option<Seq<char>> {
    match f {
        Frame::Text(t) => Some(t@),
        Frame::Binary(b) => if valid_utf8(b@) {
            Some(decode_utf8(b@))
        } else {
            None
        },
        Frame::Close => None,
    }
}

/// A client message, classified: exactly one variant per payload, selected
/// by the payload's `type` field.
pub enum ClientMessage {
    New(NewEventMessage),
    Query(QueryMessage),
    Register(RegisterMessage),
}

/// The value of the `type` field of the JSON text, or `None` where the text
/// is not a JSON object with a string field `type`.
pub uninterp spec fn discriminator_of(s: Seq<char>) -> Option<Seq<char>>;

/// Relies on serde_json::from_str: parses the text and reads its `type`
/// field, `None` where the text is not valid JSON, not an object, or has no
/// string under `type`.
#[verifier::external_body]
pub(crate) fn json_discriminator(raw: &str) -> (r: Option<String>)
    ensures
        r is Some <==> discriminator_of(raw@) is Some,
        r matches Some(d) ==> discriminator_of(raw@) == Some(d@),
{
    let v: serde_json::Value = serde_json::from_str(raw).ok()?;
    Some(v.get("type")?.as_str()?.to_string())
}

/// Relies on str::from_utf8: succeeds exactly on valid UTF-8 and yields the
/// decoded characters.
#[verifier::external_body]
pub(crate) fn utf8_to_str<'a>(bytes: &'a [u8]) -> (r: Option<&'a str>)
    ensures
        r is Some <==> valid_utf8(bytes@),
        r matches Some(s) ==> s@ == decode_utf8(bytes@),
{
    core::str::from_utf8(bytes).ok()
}

/// What classifying the text `s` must produce: the variant its discriminator
/// selects when the variant's fields deserialize, the exact error otherwise.
pub open spec fn classified(s: Seq<char>, r: Result<ClientMessage, ParseError>) -> bool {
    match discriminator_of(s) {
        Option::None => r == Result::<ClientMessage, ParseError>::Err(ParseError::InvalidPayload),
        Option::Some(d) => if d == "new"@ {
            match new::new_batch_of(s) {
                Option::Some(es) => r matches Ok(ClientMessage::New(m)) && m.events.deep_view()
                    == es,
                Option::None => r == Result::<ClientMessage, ParseError>::Err(
                    ParseError::MalformedMessage,
                ),
            }
        } else if d == "query"@ {
            match query::query_of(s) {
                Option::Some(q) => r matches Ok(ClientMessage::Query(m)) && m.deep_view() == q,
                Option::None => r == Result::<ClientMessage, ParseError>::Err(
                    ParseError::MalformedMessage,
                ),
            }
        } else if d == "register"@ {
            match register::register_of(s) {
                Option::Some(ts) => r matches Ok(ClientMessage::Register(m)) && m.event_types.deep_view() == ts,
                Option::None => r == Result::<ClientMessage, ParseError>::Err(
                    ParseError::MalformedMessage,
                ),
            }
        } else {
            r == Result::<ClientMessage, ParseError>::Err(ParseError::UnknownMessageType)
        },
    }
}

/// Classifies a frame received from a client connection.
///
/// The frame's bytes are read as UTF-8 text, the text's `type` field selects
/// the message variant, and the variant's own fields are deserialized.  Each
/// way the input can be malformed is reported as its own error.
pub fn parse_message(frame: &Frame) -> (r: Result<ClientMessage, ParseError>)
    ensures
        frame is Close <==> r == Result::<ClientMessage, ParseError>::Err(
            ParseError::UnsupportedFrame,
        ),
        frame matches Frame::Binary(b) && !valid_utf8(b@) ==> r == Result::<
            ClientMessage,
            ParseError,
        >::Err(ParseError::InvalidUtf8),
        frame_text(*frame) matches Some(s) ==> classified(s, r),
{
    let text: String = match frame {
        Frame::Close => {
            return Err(ParseError::UnsupportedFrame);
        },
        Frame::Text(t) => t.clone(),
        Frame::Binary(b) => {
            match utf8_to_str(b.as_slice()) {
                Option::Some(s) => s.to_owned(),
                Option::None => {
                    return Err(ParseError::InvalidUtf8);
                },
            }
        },
    };
    let discriminator = match json_discriminator(text.as_str()) {
        Option::Some(d) => d,
        Option::None => {
            return Err(ParseError::InvalidPayload);
        },
    };
    if discriminator == "new".to_owned() {
        match new::parse_new_batch(text.as_str()) {
            Option::Some(events) => Ok(ClientMessage::New(NewEventMessage { events })),
            Option::None => Err(ParseError::MalformedMessage),
        }
    } else if discriminator == "query".to_owned() {
        match query::parse_query(text.as_str()) {
            Option::Some(q) => Ok(ClientMessage::Query(q)),
            Option::None => Err(ParseError::MalformedMessage),
        }
    } else if discriminator == "register".to_owned() {
        match register::parse_register(text.as_str()) {
            Option::Some(m) => Ok(ClientMessage::Register(m)),
            Option::None => Err(ParseError::MalformedMessage),
        }
    } else {
        Err(ParseError::UnknownMessageType)
    }
}

/// Executes a classified message on behalf of the connection `addr`: a new
/// event batch becomes the records to publish, each element stamped with the
/// given timestamp and the connection's identity; the reserved variants are
/// explicitly unsupported.
pub fn execute(msg: &ClientMessage, addr: &String, timestamp: &String) -> (r: Result<
    Vec<Record>,
    ProcessError,
>)
    ensures
        msg matches ClientMessage::New(m) ==> r matches Ok(rs) && publish_plan(
            m.events.deep_view(),
            addr@,
            timestamp@,
            rs@,
        ),
        !(msg is New) ==> r == Result::<Vec<Record>, ProcessError>::Err(
            ProcessError::NotImplemented,
        ),
{
    match msg {
        ClientMessage::New(m) => Ok(m.process(addr, timestamp)),
        ClientMessage::Query(q) => q.process(),
        ClientMessage::Register(m) => m.process(),
    }
}

} // verus!
