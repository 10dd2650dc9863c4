//! The span identity map.
//!
//! The backend, not the replay engine, assigns span identity, and it
//! assigns a fresh identifier on every replay run.  This map tracks, per
//! originally-recorded span identifier, whether a backend-assigned
//! identifier exists yet.  An entry is created `Pending`, transitions
//! `Pending -> Mapped` at most once, and is never removed.

use vstd::prelude::*;

use vstd::hash_map::HashMapWithView;

use crate::recording::SpanId;

verus! {

broadcast use vstd::std_specs::hash::group_hash_axioms;

/// Replay-time state of one recorded span identifier.
#[derive(Clone, Copy, Debug, PartialEq, Eq, Structural)]
pub enum SpanState {
    /// The span's creation has been seen, but the backend has not yet
    /// assigned a live identifier (or never will, if its callsite was
    /// disabled).
    Pending,
    /// The backend assigned this live identifier.
    Mapped(u64),
}

/// Outcome of looking a recorded span identifier up.
#[derive(Clone, Copy, Debug, PartialEq, Eq, Structural)]
pub enum SpanLookup {
    /// No creation record for this identifier has been seen at all: a
    /// referential gap in the recording.
    Unknown,
    /// Created but not yet assigned a live identifier; a consumer should
    /// wait, the assignment may be owed by another worker.
    Pending,
    /// The stable live identifier.
    Mapped(u64),
}

/// A `Mapped` binding present in `pre` is present unchanged in `post`.
/// Every operation of the map preserves this relation, which makes a
/// resolved span identity stable for the rest of the replay.
pub open spec fn mapped_stable(pre: Map<u64, SpanState>, post: Map<u64, SpanState>) -> bool {
    forall|id: u64| #[trigger]
        pre.contains_key(id) && pre[id] is Mapped ==> post.contains_key(id) && post[id] == pre[id]
}

/// Map from recorded span identifier to replay-time span state.
pub struct SpanIdMap {
    map: HashMapWithView<u64, SpanState>,
}

impl View for SpanIdMap {
    type V = Map<u64, SpanState>;

    closed spec fn view(&self) -> Map<u64, SpanState> {
        self.map@
    }
}

impl SpanIdMap {
    /// Live identifiers come from the backend's span creation call, whose
    /// result is never zero; zero therefore never appears in a binding.
    pub open spec fn wf(self) -> bool {
        forall|id: u64| #[trigger]
            self@.contains_key(id) ==> (self@[id] matches SpanState::Mapped(l) ==> l != 0)
    }

    pub fn new() -> (r: SpanIdMap)
        ensures
            r@ == Map::<u64, SpanState>::empty(),
            r.wf(),
    {
        SpanIdMap { map: HashMapWithView::new() }
    }

    /// Inserts a `Pending` entry for a newly created span.  A present
    /// entry is left alone, so an identifier that was already resolved
    /// can never fall back to `Pending`.
    pub fn reserve(&mut self, id: SpanId)
        requires
            old(self).wf(),
        ensures
            final(self).wf(),
            final(self)@ == if old(self)@.contains_key(id.0) {
                old(self)@
            } else {
                old(self)@.insert(id.0, SpanState::Pending)
            },
            mapped_stable(old(self)@, final(self)@),
    {
        if !self.map.contains_key(&id.0) {
            self.map.insert(id.0, SpanState::Pending);
        }
    }

    /// Records the live identifier the backend assigned to a span.  Only
    /// a `Pending` entry transitions; a `Mapped` entry keeps its first
    /// binding and a missing entry stays missing.
    pub fn resolve(&mut self, id: SpanId, live: u64)
        requires
            old(self).wf(),
            live != 0,
        ensures
            final(self).wf(),
            final(self)@ == if old(self)@.contains_key(id.0) && old(self)@[id.0] is Pending {
                old(self)@.insert(id.0, SpanState::Mapped(live))
            } else {
                old(self)@
            },
            mapped_stable(old(self)@, final(self)@),
    {
        let pending = match self.map.get(&id.0) {
            Some(state) => match state {
                SpanState::Pending => true,
                SpanState::Mapped(_) => false,
            },
            None => false,
        };
        if pending {
            self.map.insert(id.0, SpanState::Mapped(live));
        }
    }

    /// Looks a recorded identifier up without changing anything.
    pub fn lookup(&self, id: SpanId) -> (r: SpanLookup)
        requires
            self.wf(),
        ensures
            r == spec_lookup(self@, id),
            r matches SpanLookup::Mapped(l) ==> l != 0,
    {
        match self.map.get(&id.0) {
            Some(state) => match state {
                SpanState::Pending => SpanLookup::Pending,
                SpanState::Mapped(l) => SpanLookup::Mapped(*l),
            },
            None => SpanLookup::Unknown,
        }
    }
}

/// What `lookup` returns, as a function of the map's contents.
pub open spec fn spec_lookup(m: Map<u64, SpanState>, id: SpanId) -> SpanLookup {
    if m.contains_key(id.0) {
        match m[id.0] {
            SpanState::Pending => SpanLookup::Pending,
            SpanState::Mapped(l) => SpanLookup::Mapped(l),
        }
    } else {
        SpanLookup::Unknown
    }
}

/// Span identity monotonicity: across any chain of map states in which
/// each step preserves `Mapped` bindings — as every operation of
/// `SpanIdMap` does — an identifier that is once resolved to a live
/// identifier keeps exactly that live identifier in every later state.
pub proof fn lemma_span_identity_monotonic(
    states: Seq<Map<u64, SpanState>>,
    id: u64,
    live: u64,
    k: int,
)
    requires
        0 < states.len(),
        forall|i: int| 0 <= i < states.len() - 1 ==> #[trigger] mapped_stable(states[i], states[i + 1]),
        states[0].contains_key(id),
        states[0][id] == SpanState::Mapped(live),
        0 <= k < states.len(),
    ensures
        states[k].contains_key(id),
        states[k][id] == SpanState::Mapped(live),
    decreases k,
{
    if k > 0 {
        lemma_span_identity_monotonic(states, id, live, k - 1);
        let i = k - 1;
        assert(mapped_stable(states[i], states[i + 1]));
        assert(states[i + 1] == states[k]);
    }
}

} // verus!
