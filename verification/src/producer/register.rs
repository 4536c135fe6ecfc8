//! The `register` message variant: reserved for per-connection subscription
//! filtering.  Classification is supported; execution is deliberately
//! unsupported.

use vstd::prelude::*;

use crate::common::{ProcessError, Record};

verus! {

/// A request to narrow a connection's deliveries to the given event types.
pub struct RegisterMessage {
    pub event_types: Vec<String>,
}

/// The event types under the `event_types` key of the JSON text, or `None`
/// where the text is not valid JSON or lacks a string array `event_types`.
pub uninterp spec fn register_of(s: Seq<char>) -> Option<Seq<Seq<char>>>;

/// Relies on serde_json::from_str: parses the text and reads `event_types`
/// as an array of strings.
#[verifier::external_body]
pub(crate) fn parse_register(raw: &str) -> (r: Option<RegisterMessage>)
    ensures
        r is Some <==> register_of(raw@) is Some,
        r matches Some(m) ==> register_of(raw@) == Some(m.event_types.deep_view()),
{
    let v: serde_json::Value = serde_json::from_str(raw).ok()?;
    let event_types = v.get("event_types")?.as_array()?.iter().map(
        |x| x.as_str().map(str::to_string),
    ).collect::<Option<Vec<String>>>()?;
    Some(RegisterMessage { event_types })
}

impl RegisterMessage {
    /// Subscription filtering is a reserved feature: executing a register
    /// message always reports it as unsupported.
    pub fn process(&self) -> (r: Result<Vec<Record>, ProcessError>)
        ensures
            r == Result::<Vec<Record>, ProcessError>::Err(ProcessError::NotImplemented),
    {
        Err(ProcessError::NotImplemented)
    }
}

} // verus!
