//! The `query` message variant: reserved for historical replay of events by
//! type and date.  Classification is supported; execution is deliberately
//! unsupported.

use vstd::prelude::*;

use crate::common::{ProcessError, Record};

verus! {

/// A request to replay events of the given types from a given date, on
/// behalf of a given connection.
pub struct QueryMessage {
    pub event_types: Vec<String>,
    pub date: String,
    pub addr: String,
}

/// The mathematical value of a [`QueryMessage`].
pub ghost struct QueryV {
    pub event_types: Seq<Seq<char>>,
    pub date: Seq<char>,
    pub addr: Seq<char>,
}

impl DeepView for QueryMessage {
    type V = QueryV;

    open spec fn deep_view(&self) -> QueryV {
        QueryV {
            event_types: self.event_types.deep_view(),
            date: self.date@,
            addr: self.addr@,
        }
    }
}

/// The query under the JSON text, or `None` where the text is not valid
/// JSON or lacks a string array `event_types`, a string `date` or a string
/// `addr`.
pub uninterp spec fn query_of(s: Seq<char>) -> Option<QueryV>;

/// Relies on serde_json::from_str: parses the text and reads `event_types`
/// as an array of strings and `date` and `addr` as strings.
#[verifier::external_body]
pub(crate) fn parse_query(raw: &str) -> (r: Option<QueryMessage>)
    ensures
        r is Some <==> query_of(raw@) is Some,
        r matches Some(q) ==> query_of(raw@) == Some(q.deep_view()),
{
    let v: serde_json::Value = serde_json::from_str(raw).ok()?;
    let event_types = v.get("event_types")?.as_array()?.iter().map(
        |x| x.as_str().map(str::to_string),
    ).collect::<Option<Vec<String>>>()?;
    Some(
        QueryMessage {
            event_types,
            date: v.get("date")?.as_str()?.to_string(),
            addr: v.get("addr")?.as_str()?.to_string(),
        },
    )
}

impl QueryMessage {
    /// Replay is a reserved feature: executing a query always reports it as
    /// unsupported, and never tears anything down.
    pub fn process(&self) -> (r: Result<Vec<Record>, ProcessError>)
        ensures
            r == Result::<Vec<Record>, ProcessError>::Err(ProcessError::NotImplemented),
    {
        Err(ProcessError::NotImplemented)
    }
}

} // verus!
