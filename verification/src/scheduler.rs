//! The send scheduler's ownership discipline: remove, write, re-insert.
//!
//! Every write to a connection checks its sink out of the registry, performs
//! the write while holding the sink exclusively, and checks the sink back in
//! when the write completes — success or failure.  Exclusive ownership
//! transfer replaces a held lock, so the registry is never blocked for the
//! duration of a slow network write, and two writers can never hold the same
//! sink: while one send for an identity is in flight, that identity simply
//! has no entry for the next send to claim.
//!
//! The write itself is transport work and happens outside this crate,
//! between [`begin_send`] and [`finish_send`].

use vstd::prelude::*;

use crate::common::SendError;
use crate::registry::ConnectionRegistry;

verus! {

/// Checks the sink for `id` out of the registry for one send.
///
/// Where `id` is registered, the very sink it maps to is handed out and its
/// entry disappears, so no concurrent send can claim it; where it is not —
/// the peer closed, or another send holds the sink — the send is reported
/// as a dropped delivery and the registry is untouched.
pub fn begin_send<S>(registry: &mut ConnectionRegistry<S>, id: &String) -> (r: Result<
    S,
    SendError,
>)
    requires
        old(registry).wf(),
    ensures
        final(registry).wf(),
        old(registry)@.dom().contains(id@) ==> (r matches Ok(s) && s == old(registry)@[id@]
            && final(registry)@ == old(registry)@.remove(id@)),
        !old(registry)@.dom().contains(id@) ==> r == Result::<S, SendError>::Err(
            SendError::SinkAbsent,
        ) && final(registry)@ == old(registry)@,
{
    match registry.remove(id) {
        Option::Some(sink) => Ok(sink),
        Option::None => Err(SendError::SinkAbsent),
    }
}

/// Checks the sink for `id` back into the registry once its write has
/// completed, making `id` available to the next queued send.
pub fn finish_send<S>(registry: &mut ConnectionRegistry<S>, id: String, sink: S)
    requires
        old(registry).wf(),
    ensures
        final(registry).wf(),
        final(registry)@ == old(registry)@.insert(id@, sink),
{
    registry.insert(id, sink);
}

/// Exclusive sink ownership: checking the sink for `id` out of registry
/// state `m` leaves a state in which a send for `id` cannot begin — the
/// identity is absent until the sink is checked back in, and checking it
/// back in hands the next send exactly the sink that was returned.  Sends
/// for every other identity see the sinks they saw before, so a checked-out
/// or closed connection never affects delivery to the rest.
pub proof fn lemma_exclusive_sink_ownership<S>(m: Map<Seq<char>, S>, id: Seq<char>, sink: S)
    requires
        m.dom().contains(id),
    ensures
        !m.remove(id).dom().contains(id),
        m.remove(id).insert(id, sink).dom().contains(id),
        m.remove(id).insert(id, sink)[id] == sink,
        forall|other: Seq<char>|
            other != id && m.dom().contains(other) ==> #[trigger] m.remove(id).dom().contains(
                other,
            ) && m.remove(id)[other] == m[other],
{
}

} // verus!
