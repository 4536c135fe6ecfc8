//! The connection registry: a mapping from connection identity to the
//! connection's exclusively-owned outbound write handle (its sink).
//!
//! An entry is present exactly while the connection is open and idle: it is
//! inserted when a connection is accepted or a write completes, and removed
//! when the peer closes or a writer checks the sink out.  The registry is
//! the system's substitute for a per-connection lock — ownership of a sink
//! is transferred through it, never shared — so its contract pins down, as
//! a map, exactly which sink every operation sees.
//!
//! All mutating operations are mutually exclusive with each other; the
//! process around this crate guards the registry with a reader/writer lock,
//! which is brief because every operation here is a short map edit and the
//! writes to the underlying transport happen outside it.

use vstd::prelude::*;

verus! {

/// Key distinctness of the underlying entry list: no identity occurs twice.
pub open spec fn distinct_keys<S>(es: Seq<(String, S)>) -> bool {
    forall|i: int, j: int|
        #![trigger es[i], es[j]]
        0 <= i < j < es.len() ==> es[i].0@ != es[j].0@
}

/// The map an entry list stands for; later entries win, though with
/// distinct keys there is nothing to win over.
pub closed spec fn map_of<S>(es: Seq<(String, S)>) -> Map<Seq<char>, S>
    decreases es.len(),
{
    if es.len() == 0 {
        Map::empty()
    } else {
        map_of(es.drop_last()).insert(es.last().0@, es.last().1)
    }
}

proof fn lemma_map_of_dom<S>(es: Seq<(String, S)>)
    ensures
        forall|k: Seq<char>| #[trigger]
            map_of(es).dom().contains(k) <==> exists|i: int|
                0 <= i < es.len() && (#[trigger] es[i]).0@ == k,
        map_of(es).dom().finite(),
        distinct_keys(es) ==> map_of(es).dom().len() == es.len(),
    decreases es.len(),
{
    if es.len() == 0 {
        assert(map_of(es).dom() =~= Set::<Seq<char>>::empty());
    } else {
        let rest = es.drop_last();
        lemma_map_of_dom(rest);
        assert forall|k: Seq<char>| #[trigger] map_of(es).dom().contains(k) implies exists|i: int|
            0 <= i < es.len() && (#[trigger] es[i]).0@ == k by {
            if k == es.last().0@ {
                assert(es[es.len() - 1].0@ == k);
            } else {
                let i = choose|i: int| 0 <= i < rest.len() && (#[trigger] rest[i]).0@ == k;
                assert(es[i].0@ == k);
            }
        }
        assert forall|k: Seq<char>|
            (exists|i: int| 0 <= i < es.len() && (#[trigger] es[i]).0@ == k) implies #[trigger]
            map_of(es).dom().contains(k) by {
            let i = choose|i: int| 0 <= i < es.len() && (#[trigger] es[i]).0@ == k;
            if i < es.len() - 1 {
                assert(rest[i].0@ == k);
                assert(map_of(rest).dom().contains(k));
            }
        }
        if distinct_keys(es) {
            assert(distinct_keys(rest));
            assert(!map_of(rest).dom().contains(es.last().0@)) by {
                if map_of(rest).dom().contains(es.last().0@) {
                    let i = choose|i: int|
                        0 <= i < rest.len() && (#[trigger] rest[i]).0@ == es.last().0@;
                    assert(es[i].0@ == es[es.len() - 1].0@);
                }
            }
            assert(map_of(es).dom() =~= map_of(rest).dom().insert(es.last().0@));
        }
    }
}

proof fn lemma_map_of_get<S>(es: Seq<(String, S)>, i: int)
    requires
        distinct_keys(es),
        0 <= i < es.len(),
    ensures
        map_of(es).dom().contains(es[i].0@),
        map_of(es)[es[i].0@] == es[i].1,
    decreases es.len(),
{
    if i < es.len() - 1 {
        let rest = es.drop_last();
        assert(distinct_keys(rest));
        assert(rest[i] == es[i]);
        lemma_map_of_get(rest, i);
        assert(es[i].0@ != es.last().0@);
    }
}

proof fn lemma_map_of_remove_at<S>(es: Seq<(String, S)>, i: int)
    requires
        distinct_keys(es),
        0 <= i < es.len(),
    ensures
        map_of(es.remove(i)) == map_of(es).remove(es[i].0@),
        distinct_keys(es.remove(i)),
    decreases es.len(),
{
    let k = es[i].0@;
    assert forall|a: int, b: int|
        #![trigger es.remove(i)[a], es.remove(i)[b]]
        0 <= a < b < es.remove(i).len() implies es.remove(i)[a].0@ != es.remove(i)[b].0@ by {
        let a0: int = if a < i {
            a
        } else {
            a + 1
        };
        let b0: int = if b < i {
            b
        } else {
            b + 1
        };
        assert(es.remove(i)[a] == es[a0]);
        assert(es.remove(i)[b] == es[b0]);
    }
    if i == es.len() - 1 {
        let rest = es.drop_last();
        assert(es.remove(i) =~= rest);
        assert(distinct_keys(rest));
        lemma_map_of_dom(rest);
        assert(!map_of(rest).dom().contains(k)) by {
            if map_of(rest).dom().contains(k) {
                let j = choose|j: int| 0 <= j < rest.len() && (#[trigger] rest[j]).0@ == k;
                assert(es[j].0@ == es[i].0@);
            }
        }
        assert(map_of(es).remove(k) =~= map_of(rest));
    } else {
        let rest = es.drop_last();
        let last = es.last();
        assert(distinct_keys(rest));
        assert(rest[i] == es[i]);
        lemma_map_of_remove_at(rest, i);
        assert(es.remove(i).last() == last);
        assert(es.remove(i).drop_last() =~= rest.remove(i));
        assert(map_of(es.remove(i)) == map_of(rest.remove(i)).insert(last.0@, last.1));
        assert(k != last.0@);
        assert(map_of(rest).remove(k).insert(last.0@, last.1) =~= map_of(rest).insert(
            last.0@,
            last.1,
        ).remove(k));
    }
}

/// The concurrent mapping from connection identity to its currently-idle
/// sink.  `S` is the sink type: the write-capable half of a connection,
/// owned by exactly one holder at a time.
pub struct ConnectionRegistry<S> {
    entries: Vec<(String, S)>,
}

impl<S> View for ConnectionRegistry<S> {
    type V = Map<Seq<char>, S>;

    closed spec fn view(&self) -> Map<Seq<char>, S> {
        map_of(self.entries@)
    }
}

impl<S> ConnectionRegistry<S> {
    /// Well-formedness: no identity has two entries.
    pub closed spec fn wf(&self) -> bool {
        distinct_keys(self.entries@)
    }

    /// An empty registry.
    pub fn new() -> (r: ConnectionRegistry<S>)
        ensures
            r.wf(),
            r@ == Map::<Seq<char>, S>::empty(),
    {
        ConnectionRegistry { entries: Vec::new() }
    }

    /// How many connections are registered.
    pub fn len(&self) -> (r: usize)
        requires
            self.wf(),
        ensures
            r == self@.dom().len(),
    {
        proof {
            lemma_map_of_dom(self.entries@);
        }
        self.entries.len()
    }

    fn index_of(&self, id: &String) -> (r: Option<usize>)
        ensures
            r matches Some(i) ==> i < self.entries@.len() && self.entries@[i as int].0@ == id@,
            r is None ==> forall|i: int|
                0 <= i < self.entries@.len() ==> (#[trigger] self.entries@[i]).0@ != id@,
    {
        let mut idx: usize = 0;
        while idx < self.entries.len()
            invariant
                idx <= self.entries@.len(),
                forall|i: int| 0 <= i < idx ==> (#[trigger] self.entries@[i]).0@ != id@,
            decreases self.entries@.len() - idx,
        {
            if self.entries[idx].0 == *id {
                return Some(idx);
            }
            idx = idx + 1;
        }
        None
    }

    /// Associates `id` with `sink`, overwriting any prior entry for `id`.
    pub fn insert(&mut self, id: String, sink: S)
        requires
            old(self).wf(),
        ensures
            final(self).wf(),
            final(self)@ == old(self)@.insert(id@, sink),
    {
        let ghost before = self.entries@;
        match self.index_of(&id) {
            Option::Some(i) => {
                proof {
                    lemma_map_of_remove_at(before, i as int);
                }
                let _ = self.entries.remove(i);
            },
            Option::None => {
            },
        }
        let ghost mid = self.entries@;
        proof {
            lemma_map_of_dom(mid);
            assert(mid.push((id, sink)).drop_last() =~= mid);
        }
        self.entries.push((id, sink));
        proof {
            assert forall|a: int, b: int|
                #![trigger self.entries@[a], self.entries@[b]]
                0 <= a < b < self.entries@.len() implies self.entries@[a].0@
                != self.entries@[b].0@ by {
                if b == self.entries@.len() - 1 {
                    assert(self.entries@[a] == mid[a]);
                }
            }
            assert(final(self)@ =~= old(self)@.insert(id@, sink));
        }
    }

    /// Atomically detaches and returns the sink registered for `id`:
    /// `Some(sink)` and no entry left exactly where `id` was present,
    /// `None` and no change where it was not.
    pub fn remove(&mut self, id: &String) -> (r: Option<S>)
        requires
            old(self).wf(),
        ensures
            final(self).wf(),
            old(self)@.dom().contains(id@) ==> (r matches Some(s) && s == old(self)@[id@]
                && final(self)@ == old(self)@.remove(id@)),
            !old(self)@.dom().contains(id@) ==> r is None && final(self)@ == old(self)@,
    {
        proof {
            lemma_map_of_dom(self.entries@);
        }
        match self.index_of(id) {
            Option::Some(i) => {
                proof {
                    lemma_map_of_get(self.entries@, i as int);
                    lemma_map_of_remove_at(self.entries@, i as int);
                }
                let (_, sink) = self.entries.remove(i);
                Some(sink)
            },
            Option::None => None,
        }
    }

    /// The set of identities present at a single instant, each exactly
    /// once.  Later mutations are not reflected in a snapshot already
    /// taken.
    pub fn snapshot_ids(&self) -> (r: Vec<String>)
        requires
            self.wf(),
        ensures
            r.deep_view().no_duplicates(),
            forall|k: Seq<char>| #[trigger]
                r.deep_view().contains(k) <==> self@.dom().contains(k),
            r@.len() == self@.dom().len(),
    {
        let mut out: Vec<String> = Vec::new();
        let mut idx: usize = 0;
        while idx < self.entries.len()
            invariant
                idx <= self.entries@.len(),
                out@.len() == idx,
                forall|i: int| 0 <= i < idx ==> (#[trigger] out@[i])@ == self.entries@[i].0@,
            decreases self.entries@.len() - idx,
        {
            out.push(self.entries[idx].0.clone());
            idx = idx + 1;
        }
        proof {
            lemma_map_of_dom(self.entries@);
            assert(forall|i: int|
                0 <= i < out@.len() ==> #[trigger] out.deep_view()[i] == out@[i]@);
            assert forall|a: int, b: int|
                0 <= a < out.deep_view().len() && 0 <= b < out.deep_view().len() && a != b implies
                #[trigger] out.deep_view()[a] != #[trigger] out.deep_view()[b] by {
                if a < b {
                    assert(self.entries@[a].0@ != self.entries@[b].0@);
                } else {
                    assert(self.entries@[b].0@ != self.entries@[a].0@);
                }
            }
            assert forall|k: Seq<char>| #[trigger] out.deep_view().contains(k) implies self@.dom()
                .contains(k) by {
                let i = choose|i: int| 0 <= i < out.deep_view().len() && out.deep_view()[i] == k;
                assert(self.entries@[i].0@ == k);
            }
            assert forall|k: Seq<char>| self@.dom().contains(k) implies #[trigger] out.deep_view()
                .contains(k) by {
                let i = choose|i: int|
                    0 <= i < self.entries@.len() && (#[trigger] self.entries@[i]).0@ == k;
                assert(out.deep_view()[i] == k);
            }
        }
        out
    }
}

/// Registry idempotence under churn: inserting `id` and then removing it
/// yields that very sink back, and only once — after the removal the
/// registry no longer knows `id`, so a second removal for `id` reports
/// absence; and where `id` was fresh, the registry is exactly what it was
/// before the insertion.
pub proof fn lemma_insert_remove_roundtrip<S>(m: Map<Seq<char>, S>, id: Seq<char>, sink: S)
    ensures
        m.insert(id, sink).dom().contains(id),
        m.insert(id, sink)[id] == sink,
        !m.insert(id, sink).remove(id).dom().contains(id),
        !m.dom().contains(id) ==> m.insert(id, sink).remove(id) == m,
{
    if !m.dom().contains(id) {
        assert(m.insert(id, sink).remove(id) =~= m);
    }
}

} // verus!
