//! The broker-to-clients pipeline: decoding a record read back from the
//! topic and fanning it out to every registered connection except the one
//! that originated it.
//!
//! Fan-out works over a point-in-time snapshot of the registered identities:
//! for every identity other than the event's `addr`, one `(identity,
//! serialized event)` pair is produced, to be queued for the send scheduler.
//! Delivery is best-effort per connection; planning the fan-out never skips
//! or repeats a target.

use vstd::prelude::*;

use crate::common::{decode_event_raw, encode_event_raw, event_of_wire, event_wire_of, Event,
    ParseError};

verus! {

/// Decodes a record read from the broker into an event envelope.
///
/// A record that does not carry a well-formed envelope is reported as
/// malformed, to be skipped without disturbing the stream.
pub fn parse_message(raw: &str) -> (r: Result<Event, ParseError>)
    ensures
        r is Err <==> event_of_wire(raw@) is None,
        r matches Ok(e) ==> event_of_wire(raw@) == Some(e@),
        r matches Err(e) ==> e == ParseError::MalformedMessage,
{
    match decode_event_raw(raw) {
        Option::Some(e) => Ok(e),
        Option::None => Err(ParseError::MalformedMessage),
    }
}

/// Decides whether an event is sent to the connection `to`, and with what
/// text: an event is never echoed back to its originator, and every other
/// connection receives the event's wire encoding.
pub fn process_outgoing(message: &Event, to: &String) -> (r: Option<String>)
    ensures
        r is None <==> to@ == message.addr@,
        r matches Some(s) ==> s@ == event_wire_of(message@),
{
    if message.addr == *to {
        None
    } else {
        Some(encode_event_raw(message))
    }
}

/// The identities a fan-out of an event from `origin` targets, given the
/// snapshot `ids` of registered identities: `ids` in order, with every
/// occurrence of `origin` left out.
pub open spec fn fanout_targets(ids: Seq<Seq<char>>, origin: Seq<char>) -> Seq<Seq<char>>
    decreases ids.len(),
{
    if ids.len() == 0 {
        Seq::empty()
    } else {
        let rest = fanout_targets(ids.drop_last(), origin);
        if ids.last() == origin {
            rest
        } else {
            rest.push(ids.last())
        }
    }
}

/// No self-echo: whatever identities are registered, fan-out never targets
/// the event's own origin.
pub proof fn lemma_no_self_echo(ids: Seq<Seq<char>>, origin: Seq<char>)
    ensures
        forall|i: int|
            0 <= i < fanout_targets(ids, origin).len() ==> fanout_targets(ids, origin)[i]
                != origin,
        !fanout_targets(ids, origin).contains(origin),
    decreases ids.len(),
{
    if ids.len() > 0 {
        lemma_no_self_echo(ids.drop_last(), origin);
    }
}

/// Fan-out completeness: for a snapshot of distinct identities, the fan-out
/// targets are exactly the identities other than the origin, each exactly
/// once; with the origin registered among `k` others, that is exactly `k`
/// targets.
pub proof fn lemma_fanout_complete(ids: Seq<Seq<char>>, origin: Seq<char>)
    requires
        ids.no_duplicates(),
    ensures
        fanout_targets(ids, origin).no_duplicates(),
        forall|id: Seq<char>| #[trigger]
            fanout_targets(ids, origin).contains(id) <==> ids.contains(id) && id != origin,
        fanout_targets(ids, origin).len() == if ids.contains(origin) {
            ids.len() - 1
        } else {
            ids.len() as int
        },
    decreases ids.len(),
{
    if ids.len() == 0 {
        assert(!ids.contains(origin));
        assert forall|id: Seq<char>| #[trigger]
            fanout_targets(ids, origin).contains(id) <==> ids.contains(id) && id != origin by {
            assert(!fanout_targets(ids, origin).contains(id));
            assert(!ids.contains(id));
        }
    } else {
        let rest = ids.drop_last();
        let x = ids.last();
        let t = fanout_targets(rest, origin);
        assert(rest.no_duplicates());
        lemma_fanout_complete(rest, origin);
        assert(!rest.contains(x)) by {
            if rest.contains(x) {
                let j = choose|j: int| 0 <= j < rest.len() && rest[j] == x;
                assert(ids[j] == ids[ids.len() - 1]);
            }
        }
        assert forall|id: Seq<char>| #[trigger] ids.contains(id) implies rest.contains(id) || id
            == x by {
            let j = choose|j: int| 0 <= j < ids.len() && ids[j] == id;
            if j < ids.len() - 1 {
                assert(rest[j] == id);
            }
        }
        assert forall|id: Seq<char>| rest.contains(id) implies ids.contains(id) by {
            let j = choose|j: int| 0 <= j < rest.len() && rest[j] == id;
            assert(ids[j] == id);
        }
        assert(ids.contains(x)) by {
            assert(ids[ids.len() - 1] == x);
        }
        if x == origin {
            assert(fanout_targets(ids, origin) == t);
            assert forall|id: Seq<char>| #[trigger]
                fanout_targets(ids, origin).contains(id) <==> ids.contains(id) && id
                != origin by {
                assert(t.contains(id) <==> rest.contains(id) && id != origin);
                if ids.contains(id) && id != origin {
                    assert(rest.contains(id) || id == x);
                }
            }
        } else {
            assert(fanout_targets(ids, origin) == t.push(x));
            assert forall|id: Seq<char>| #[trigger] t.push(x).contains(id) implies t.contains(id)
                || id == x by {
                let j = choose|j: int| 0 <= j < t.push(x).len() && t.push(x)[j] == id;
                if j < t.len() {
                    assert(t[j] == id);
                }
            }
            assert forall|id: Seq<char>| t.contains(id) implies t.push(x).contains(id) by {
                let j = choose|j: int| 0 <= j < t.len() && t[j] == id;
                assert(t.push(x)[j] == id);
            }
            assert(t.push(x).contains(x)) by {
                assert(t.push(x)[t.len() as int] == x);
            }
            assert(!t.contains(x));
            assert forall|id: Seq<char>| #[trigger]
                fanout_targets(ids, origin).contains(id) <==> ids.contains(id) && id
                != origin by {
                assert(t.contains(id) <==> rest.contains(id) && id != origin);
                assert(t.push(x).contains(id) <==> t.contains(id) || id == x);
                if ids.contains(id) && id != origin {
                    assert(rest.contains(id) || id == x);
                }
                if t.push(x).contains(id) {
                    assert(rest.contains(id) || id == x);
                    assert(ids.contains(id));
                }
            }
            assert(t.push(x).no_duplicates()) by {
                assert forall|i: int, j: int|
                    0 <= i < j < t.push(x).len() implies t.push(x)[i] != t.push(x)[j] by {
                    if j < t.len() {
                        assert(t[i] != t[j]);
                    } else {
                        assert(t.push(x)[j] == x);
                        assert(t.contains(t[i])) by {
                            assert(t[i] == t[i]);
                        }
                    }
                }
            }
        }
    }
}

/// Plans the fan-out of one decoded event: for every identity in the
/// snapshot except the event's origin, in snapshot order, one pair of the
/// identity and the event's wire encoding.
pub fn plan_fanout(ids: &Vec<String>, event: &Event) -> (r: Vec<(String, String)>)
    ensures
        ({
            let tgt = fanout_targets(ids.deep_view(), event.addr@);
            &&& r@.len() == tgt.len()
            &&& forall|i: int|
                0 <= i < r@.len() ==> {
                    &&& (#[trigger] r@[i]).0@ == tgt[i]
                    &&& r@[i].1@ == event_wire_of(event@)
                }
        }),
{
    let ghost all: Seq<Seq<char>> = ids.deep_view();
    let mut out: Vec<(String, String)> = Vec::new();
    let mut idx: usize = 0;
    while idx < ids.len()
        invariant
            idx <= ids.len(),
            all == ids.deep_view(),
            ({
                let tgt = fanout_targets(all.take(idx as int), event.addr@);
                &&& out@.len() == tgt.len()
                &&& forall|i: int|
                    0 <= i < out@.len() ==> {
                        &&& (#[trigger] out@[i]).0@ == tgt[i]
                        &&& out@[i].1@ == event_wire_of(event@)
                    }
            }),
        decreases ids@.len() - idx,
    {
        proof {
            assert(all.take(idx + 1).drop_last() =~= all.take(idx as int));
            assert(all.take(idx + 1).last() == all[idx as int]);
        }
        let id = &ids[idx];
        match process_outgoing(event, id) {
            Option::Some(text) => {
                out.push((id.clone(), text));
            },
            Option::None => {
            },
        }
        idx = idx + 1;
    }
    proof {
        assert(all.take(ids@.len() as int) =~= all);
    }
    out
}

} // verus!
