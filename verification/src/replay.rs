//! The replay coordinator, thread dispatch router, and per-record
//! dispatch planning.
//!
//! The coordinator consumes records in log order.  For each record it
//! updates the replay state (metadata registry, span identity map,
//! span-to-callsite mapping), computes the record's target replay time,
//! and routes the work to the worker that owns the record's originating
//! thread.  Workers later turn each routed item into a dispatch plan: the
//! exact backend operation to perform, or an instruction to wait or to
//! drop the item.

use vstd::prelude::*;

use vstd::hash_map::HashMapWithView;

use crate::fields::adapt_fields;
use crate::fields::adapted_fields;
use crate::recording::Event;
use crate::recording::Field;
use crate::recording::CallsiteMeta;
use crate::recording::NewSpan;
use crate::recording::Parent;
use crate::recording::SpanId;
use crate::recording::meta_content_eq;
use crate::recording::Trace;
use crate::recording::TraceRecord;
use crate::recording::trace_metadata;
use crate::registry::MetadataRegistry;
use crate::registry::has_id;
use crate::span_map::SpanIdMap;
use crate::span_map::SpanLookup;
use crate::span_map::SpanState;
use crate::span_map::mapped_stable;
use crate::span_map::spec_lookup;
use crate::timing::Timestamp;
use crate::timing::compute_delta;
use crate::timing::target_time;

verus! {

/// A recorded span identifier on its way to a worker.
#[derive(Clone, Copy, Debug, PartialEq, Eq, Structural)]
pub struct DispatchableSpanId(pub SpanId);

impl DispatchableSpanId {
    pub fn into_inner(self) -> (r: SpanId)
        ensures
            r == self.0,
    {
        self.0
    }
}

/// One unit of work routed to a worker.  Callsite metadata has already
/// been interned: items carry the registry handle, not the descriptor.
#[derive(Debug, PartialEq, Eq)]
pub enum Dispatchable {
    /// Register the callsite behind `handle` with the backend.  Emitted
    /// exactly once per capture identifier, on first sight.
    RegisterCallsite { handle: usize },
    Event { handle: usize, fields: Vec<Field>, parent: Parent },
    NewSpan { id: SpanId, handle: usize, fields: Vec<Field>, parent: Parent },
    Enter(DispatchableSpanId),
    Exit(DispatchableSpanId),
    Close(DispatchableSpanId),
    Record { id: SpanId, handle: usize, fields: Vec<Field> },
    FollowsFrom { cause_id: SpanId, effect_id: SpanId },
}

/// Every registry handle an item carries points into the registry.
pub open spec fn item_wf(d: Dispatchable, reg: Seq<CallsiteMeta>) -> bool {
    match d {
        Dispatchable::RegisterCallsite { handle } => handle < reg.len(),
        Dispatchable::Event { handle, .. } => handle < reg.len(),
        Dispatchable::NewSpan { handle, .. } => handle < reg.len(),
        Dispatchable::Record { handle, .. } => handle < reg.len(),
        _ => true,
    }
}

/// A routed item: one unit of work, addressed to the worker that owns
/// the originating thread, due at `target`.
#[derive(Debug, PartialEq, Eq)]
pub struct Routed {
    /// Index into the router's thread list; all records of one recorded
    /// thread map to the same index, in log order.
    pub thread_index: usize,
    /// True when this record was the first sighting of its thread: the
    /// caller owes the router a newly spawned worker.
    pub spawn_worker: bool,
    /// Recorded name of the originating thread, for naming the worker.
    pub thread_name: Option<String>,
    /// The wall-clock moment this item should reach the backend.
    pub target: Timestamp,
    pub trace: Dispatchable,
}

/// Whether some entry of `threads` has content `key`.
pub open spec fn has_thread(threads: Seq<String>, key: Seq<char>) -> bool {
    exists|i: int| 0 <= i < threads.len() && #[trigger] threads[i]@ == key
}

/// Replay coordinator state: everything the original process kept in
/// live memory and never serialized, rebuilt record by record.
pub struct Replay {
    /// Interned callsite descriptors, keyed by capture identifier.
    pub registry: MetadataRegistry,
    /// Which callsite each recorded span was created from, so that
    /// late-bound field values can recover their legal field set.
    pub callsites: HashMapWithView<u64, usize>,
    /// Recorded span identifier to backend-assigned identity.
    pub span_ids: SpanIdMap,
    /// Recorded thread identities, in order of first sighting; the index
    /// in this list is the worker index.
    pub threads: Vec<String>,
    /// Difference between the replay's start and the recording's start.
    pub replay_time_delta: Timestamp,
}

impl Replay {
    pub open spec fn wf(self) -> bool {
        &&& self.registry.wf()
        &&& self.span_ids.wf()
        &&& forall|id: u64| #[trigger]
            self.callsites@.contains_key(id) ==> self.callsites@[id] < self.registry@.len()
        &&& forall|i: int, j: int|
            0 <= i < j < self.threads@.len() ==> #[trigger] self.threads@[i]@ != #[trigger] self.threads@[j]@
        &&& self.replay_time_delta.wf()
    }

    pub fn new() -> (r: Replay)
        ensures
            r.wf(),
            r.registry@ == Seq::<CallsiteMeta>::empty(),
            r.callsites@ == Map::<u64, usize>::empty(),
            r.span_ids@ == Map::<u64, SpanState>::empty(),
            r.threads@ == Seq::<String>::empty(),
            r.replay_time_delta.as_micros() == 0,
    {
        Replay {
            registry: MetadataRegistry::new(),
            callsites: HashMapWithView::new(),
            span_ids: SpanIdMap::new(),
            threads: Vec::new(),
            replay_time_delta: Timestamp::zero(),
        }
    }

    /// The worker index already assigned to a recorded thread identity.
    fn find_thread(&self, key: &String) -> (r: Option<usize>)
        ensures
            match r {
                Some(i) => i < self.threads@.len() && self.threads@[i as int]@ == key@,
                None => !has_thread(self.threads@, key@),
            },
    {
        let mut i: usize = 0;
        while i < self.threads.len()
            invariant
                i <= self.threads@.len(),
                forall|j: int| 0 <= j < i ==> #[trigger] self.threads@[j]@ != key@,
            decreases self.threads@.len() - i,
        {
            if self.threads[i].eq(key) {
                return Some(i);
            }
            i = i + 1;
        }
        None
    }

    /// Finds the worker index for a recorded thread identity, appending
    /// the identity on first sight.
    fn route_thread(&mut self, key: String) -> (r: (usize, bool))
        requires
            old(self).wf(),
        ensures
            final(self).wf(),
            final(self).registry@ == old(self).registry@,
            final(self).callsites@ == old(self).callsites@,
            final(self).span_ids@ == old(self).span_ids@,
            final(self).replay_time_delta == old(self).replay_time_delta,
            r.1 == !has_thread(old(self).threads@, key@),
            r.1 ==> final(self).threads@ == old(self).threads@.push(key) && r.0 == old(
                self,
            ).threads@.len(),
            !r.1 ==> final(self).threads@ == old(self).threads@,
            r.0 < final(self).threads@.len(),
            final(self).threads@[r.0 as int]@ == key@,
    {
        if let Some(i) = self.find_thread(&key) {
            return (i, false);
        }
        let idx = self.threads.len();
        self.threads.push(key);
        proof {
            assert forall|a: int, b: int| 0 <= a < b < self.threads@.len() implies #[trigger] self.threads@[a]@
                != #[trigger] self.threads@[b]@ by {
                if b == self.threads@.len() - 1 {
                    assert(self.threads@[b] == key);
                    assert(old(self).threads@[a]@ != key@);
                } else {
                    assert(old(self).threads@[a]@ != old(self).threads@[b]@);
                }
            }
        }
        (idx, true)
    }
}

impl Replay {
    /// Processes one record of the log: interns its callsite metadata
    /// (owing the backend one registration on first sight of a capture
    /// identifier), reserves span identity for a new span, resolves the
    /// callsite of late-bound field values, computes the record's target
    /// replay time — on the first line, fixing the replay delta — and
    /// routes the work to the worker owning the record's originating
    /// thread.
    ///
    /// A record that needs no backend work routes nothing: a repeated
    /// `RegisterCallsite` (registration is owed only once), and a
    /// `Record` whose span was never created (a referential gap, dropped
    /// silently).  A dropped record still counts as replayed input; the
    /// caller tallies every line handed in.
    pub fn process_record(&mut self, record: TraceRecord, now: Timestamp, line_index: usize) -> (routed:
        Vec<Routed>)
        requires
            old(self).wf(),
            now.wf(),
        ensures
            final(self).wf(),
            // Pacing: the first line fixes the replay delta for the run.
            line_index == 0 ==> final(self).replay_time_delta.as_micros() == crate::timing::spec_delta(
                crate::timing::capture_micros(record.meta.timestamp_s, record.meta.timestamp_subsec_us),
                now,
            ),
            line_index != 0 ==> final(self).replay_time_delta == old(self).replay_time_delta,
            // CallsiteMeta registry: grows by exactly the first sighting of a
            // capture identifier, and by nothing else.
            (match trace_metadata(record.trace) {
                Some(m) => final(self).registry@ == if has_id(old(self).registry@, m.id) {
                    old(self).registry@
                } else {
                    old(self).registry@.push(m)
                },
                None => final(self).registry@ == old(self).registry@,
            }),
            // Span identity: a new span reserves a pending entry; nothing
            // else touches the map, and no resolved binding ever changes.
            (match record.trace {
                Trace::NewSpan(ns) => final(self).span_ids@ == if old(self).span_ids@.contains_key(
                    ns.id.0,
                ) {
                    old(self).span_ids@
                } else {
                    old(self).span_ids@.insert(ns.id.0, SpanState::Pending)
                },
                _ => final(self).span_ids@ == old(self).span_ids@,
            }),
            mapped_stable(old(self).span_ids@, final(self).span_ids@),
            // Span-to-callsite mapping: populated by new spans only.
            (match record.trace {
                Trace::NewSpan(ns) => exists|h: usize|
                    h < final(self).registry@.len() && final(self).registry@[h as int].id
                        == ns.metadata.id && final(self).callsites@ == old(self).callsites@.insert(
                        ns.id.0,
                        h,
                    ),
                _ => final(self).callsites@ == old(self).callsites@,
            }),
            // Routing: every routed item of this record goes to the one
            // worker owning the record's thread, due at the record's
            // target time.
            routed@.len() <= 2,
            routed@.len() == 0 ==> final(self).threads@ == old(self).threads@,
            routed@.len() > 0 ==> final(self).threads@ == if has_thread(
                old(self).threads@,
                record.meta.thread_id@,
            ) {
                old(self).threads@
            } else {
                old(self).threads@.push(record.meta.thread_id)
            },
            forall|k: int|
                0 <= k < routed@.len() ==> {
                    let it = #[trigger] routed@[k];
                    &&& it.thread_index < final(self).threads@.len()
                    &&& final(self).threads@[it.thread_index as int]@ == record.meta.thread_id@
                    &&& it.spawn_worker == !has_thread(old(self).threads@, record.meta.thread_id@)
                    &&& it.thread_name == record.meta.thread_name
                    &&& it.target.wf()
                    &&& it.target.as_micros() == crate::timing::spec_target(
                        crate::timing::capture_micros(
                            record.meta.timestamp_s,
                            record.meta.timestamp_subsec_us,
                        ),
                        final(self).replay_time_delta.as_micros(),
                        now,
                    )
                    &&& item_wf(it.trace, final(self).registry@)
                },
            // The routed items themselves, kind by kind.
            (match record.trace {
                Trace::RegisterCallsite(m) => if has_id(old(self).registry@, m.id) {
                    routed@.len() == 0
                } else {
                    routed@.len() == 1 && (routed@[0].trace matches Dispatchable::RegisterCallsite {
                        handle,
                    } && handle == old(self).registry@.len())
                },
                Trace::Event(e) => {
                    let base: int = if has_id(old(self).registry@, e.metadata.id) {
                        0
                    } else {
                        1
                    };
                    &&& routed@.len() == base + 1
                    &&& base == 1 ==> (routed@[0].trace matches Dispatchable::RegisterCallsite {
                        handle,
                    } && handle == old(self).registry@.len())
                    &&& routed@[base].trace is Event
                    &&& (routed@[base].trace matches Dispatchable::Event { handle, fields, parent }
                        ==> (handle < final(self).registry@.len() && final(self).registry@[
                        handle as int].id == e.metadata.id && fields == e.fields && parent
                        == e.parent && (base == 1 ==> handle == old(self).registry@.len())))
                },
                Trace::NewSpan(ns) => {
                    let base: int = if has_id(old(self).registry@, ns.metadata.id) {
                        0
                    } else {
                        1
                    };
                    &&& routed@.len() == base + 1
                    &&& base == 1 ==> (routed@[0].trace matches Dispatchable::RegisterCallsite {
                        handle,
                    } && handle == old(self).registry@.len())
                    &&& routed@[base].trace is NewSpan
                    &&& (routed@[base].trace matches Dispatchable::NewSpan {
                        id,
                        handle,
                        fields,
                        parent,
                    } ==> (id == ns.id && handle < final(self).registry@.len()
                        && final(self).registry@[handle as int].id == ns.metadata.id
                        && fields == ns.fields && parent
                        == ns.parent && (base == 1 ==> handle == old(self).registry@.len())))
                },
                Trace::Enter(s) => routed@.len() == 1 && routed@[0].trace == Dispatchable::Enter(
                    DispatchableSpanId(s),
                ),
                Trace::Exit(s) => routed@.len() == 1 && routed@[0].trace == Dispatchable::Exit(
                    DispatchableSpanId(s),
                ),
                Trace::Close(s) => routed@.len() == 1 && routed@[0].trace == Dispatchable::Close(
                    DispatchableSpanId(s),
                ),
                Trace::Record(rv) => if old(self).callsites@.contains_key(rv.id.0) {
                    &&& routed@.len() == 1
                    &&& routed@[0].trace is Record
                    &&& (routed@[0].trace matches Dispatchable::Record { id, handle, fields } ==> (
                    id == rv.id && handle == old(self).callsites@[rv.id.0] && fields == rv.fields))
                } else {
                    routed@.len() == 0
                },
                Trace::FollowsFrom(ff) => routed@.len() == 1 && routed@[0].trace
                    == (Dispatchable::FollowsFrom { cause_id: ff.cause_id, effect_id: ff.effect_id }),
            }),
    {
        let TraceRecord { meta, trace } = record;
        let capture = Timestamp::from_parts(meta.timestamp_s, meta.timestamp_subsec_us);
        if line_index == 0 {
            self.replay_time_delta = compute_delta(now, capture);
        }
        let target = target_time(capture, self.replay_time_delta, now);

        let mut register_item: Option<Dispatchable> = None;
        let main_item: Option<Dispatchable> = match trace {
            Trace::RegisterCallsite(m) => {
                let (h, fresh) = self.registry.get_or_register(m);
                if fresh {
                    Some(Dispatchable::RegisterCallsite { handle: h })
                } else {
                    None
                }
            },
            Trace::Event(e) => {
                let Event { fields, metadata, parent } = e;
                let (h, fresh) = self.registry.get_or_register(metadata);
                if fresh {
                    register_item = Some(Dispatchable::RegisterCallsite { handle: h });
                }
                Some(Dispatchable::Event { handle: h, fields, parent })
            },
            Trace::NewSpan(ns) => {
                let NewSpan { id, fields, metadata, parent } = ns;
                let (h, fresh) = self.registry.get_or_register(metadata);
                if fresh {
                    register_item = Some(Dispatchable::RegisterCallsite { handle: h });
                }
                self.callsites.insert(id.0, h);
                self.span_ids.reserve(id);
                Some(Dispatchable::NewSpan { id, handle: h, fields, parent })
            },
            Trace::Enter(s) => Some(Dispatchable::Enter(DispatchableSpanId(s))),
            Trace::Exit(s) => Some(Dispatchable::Exit(DispatchableSpanId(s))),
            Trace::Close(s) => Some(Dispatchable::Close(DispatchableSpanId(s))),
            Trace::Record(rv) => match self.callsites.get(&rv.id.0) {
                Some(h) => Some(Dispatchable::Record { id: rv.id, handle: *h, fields: rv.fields }),
                None => None,
            },
            Trace::FollowsFrom(ff) => Some(
                Dispatchable::FollowsFrom { cause_id: ff.cause_id, effect_id: ff.effect_id },
            ),
        };

        let mut routed: Vec<Routed> = Vec::new();
        if register_item.is_some() || main_item.is_some() {
            let (idx, fresh_thread) = self.route_thread(meta.thread_id);
            if let Some(item) = register_item {
                routed.push(
                    Routed {
                        thread_index: idx,
                        spawn_worker: fresh_thread,
                        thread_name: clone_opt_string(&meta.thread_name),
                        target,
                        trace: item,
                    },
                );
            }
            if let Some(item) = main_item {
                routed.push(
                    Routed {
                        thread_index: idx,
                        spawn_worker: fresh_thread,
                        thread_name: meta.thread_name,
                        target,
                        trace: item,
                    },
                );
            }
        }
        routed
    }
}

/// A span or event parent with its span reference already resolved to
/// the backend's live identity.
#[derive(Clone, Copy, Debug, PartialEq, Eq, Structural)]
pub enum ResolvedParent {
    Root,
    Current,
    Explicit(u64),
}

/// Outcome of resolving a recorded parent against the span identity map.
#[derive(Clone, Copy, Debug, PartialEq, Eq, Structural)]
pub enum ParentPlan {
    /// The parent is ready to hand to the backend.
    Ready(ResolvedParent),
    /// The parent span exists but its live identity is still owed by
    /// another worker: wait and retry.
    Wait(SpanId),
    /// The parent span was never created: a referential gap.
    Missing,
}

/// The backend operation a routed item calls for, with every span
/// reference resolved and every field list filtered to the callsite's
/// declared set.
#[derive(Debug, PartialEq, Eq)]
pub enum DispatchPlan {
    /// Register the callsite behind `handle` with the backend.
    Register { handle: usize },
    /// Emit a point event.
    EmitEvent { handle: usize, fields: Vec<Field>, parent: ResolvedParent },
    /// Create the span; the backend's assigned identity must then be
    /// handed back through `note_span_created`.
    CreateSpan { id: SpanId, handle: usize, fields: Vec<Field>, parent: ResolvedParent },
    /// Enter the span with this live identity.
    Enter { live: u64 },
    /// Exit the span with this live identity.
    Exit { live: u64 },
    /// Ask the backend to finalize its reference to this live identity.
    TryClose { live: u64 },
    /// Attach late-bound field values to the span.
    AttachFields { live: u64, handle: usize, fields: Vec<Field> },
    /// Register the causal edge between two live spans.
    FollowsFrom { cause_live: u64, effect_live: u64 },
    /// A live identity this item references is still owed: wait until
    /// the span identity map changes and plan again.
    Wait { id: SpanId },
    /// Drop the item silently.
    Skip,
}

/// Ghost mirror of `DispatchPlan`, with mathematical field lists.
pub enum PlanSpec {
    Register { handle: int },
    EmitEvent { handle: int, fields: Seq<Field>, parent: ResolvedParent },
    CreateSpan { id: SpanId, handle: int, fields: Seq<Field>, parent: ResolvedParent },
    Enter { live: u64 },
    Exit { live: u64 },
    TryClose { live: u64 },
    AttachFields { live: u64, handle: int, fields: Seq<Field> },
    FollowsFrom { cause_live: u64, effect_live: u64 },
    Wait { id: SpanId },
    Skip,
}

impl View for DispatchPlan {
    type V = PlanSpec;

    open spec fn view(&self) -> PlanSpec {
        match *self {
            DispatchPlan::Register { handle } => PlanSpec::Register { handle: handle as int },
            DispatchPlan::EmitEvent { handle, fields, parent } => PlanSpec::EmitEvent {
                handle: handle as int,
                fields: fields@,
                parent,
            },
            DispatchPlan::CreateSpan { id, handle, fields, parent } => PlanSpec::CreateSpan {
                id,
                handle: handle as int,
                fields: fields@,
                parent,
            },
            DispatchPlan::Enter { live } => PlanSpec::Enter { live },
            DispatchPlan::Exit { live } => PlanSpec::Exit { live },
            DispatchPlan::TryClose { live } => PlanSpec::TryClose { live },
            DispatchPlan::AttachFields { live, handle, fields } => PlanSpec::AttachFields {
                live,
                handle: handle as int,
                fields: fields@,
            },
            DispatchPlan::FollowsFrom { cause_live, effect_live } => PlanSpec::FollowsFrom {
                cause_live,
                effect_live,
            },
            DispatchPlan::Wait { id } => PlanSpec::Wait { id },
            DispatchPlan::Skip => PlanSpec::Skip,
        }
    }
}

/// Every live identity a plan hands to the backend is nonzero, because
/// each came out of the span identity map, which only holds identities
/// the backend itself assigned.
pub open spec fn plan_wf(p: PlanSpec) -> bool {
    match p {
        PlanSpec::Enter { live } => live != 0,
        PlanSpec::Exit { live } => live != 0,
        PlanSpec::TryClose { live } => live != 0,
        PlanSpec::AttachFields { live, .. } => live != 0,
        PlanSpec::FollowsFrom { cause_live, effect_live } => cause_live != 0 && effect_live != 0,
        PlanSpec::EmitEvent { parent, .. } => parent matches ResolvedParent::Explicit(l) ==> l != 0,
        PlanSpec::CreateSpan { parent, .. } => parent matches ResolvedParent::Explicit(l) ==> l
            != 0,
        _ => true,
    }
}

/// How a recorded parent resolves against a span identity map.
pub open spec fn spec_parent(span: Map<u64, SpanState>, p: Parent) -> ParentPlan {
    match p {
        Parent::Root => ParentPlan::Ready(ResolvedParent::Root),
        Parent::Current => ParentPlan::Ready(ResolvedParent::Current),
        Parent::Explicit(orig) => match spec_lookup(span, SpanId(orig)) {
            SpanLookup::Mapped(l) => ParentPlan::Ready(ResolvedParent::Explicit(l)),
            SpanLookup::Pending => ParentPlan::Wait(SpanId(orig)),
            SpanLookup::Unknown => ParentPlan::Missing,
        },
    }
}

/// The plan a worker must follow for one routed item, as a function of
/// the interned metadata, the span identity map, and the backend's
/// interest in the item's callsite.
pub open spec fn spec_plan(
    reg: Seq<CallsiteMeta>,
    span: Map<u64, SpanState>,
    item: Dispatchable,
    enabled: bool,
) -> PlanSpec {
    match item {
        Dispatchable::RegisterCallsite { handle } => PlanSpec::Register { handle: handle as int },
        Dispatchable::Event { handle, fields, parent } => if !enabled {
            PlanSpec::Skip
        } else {
            match spec_parent(span, parent) {
                ParentPlan::Ready(rp) => PlanSpec::EmitEvent {
                    handle: handle as int,
                    fields: adapted_fields(reg[handle as int].fields@, fields@),
                    parent: rp,
                },
                ParentPlan::Wait(id) => PlanSpec::Wait { id },
                ParentPlan::Missing => PlanSpec::Skip,
            }
        },
        Dispatchable::NewSpan { id, handle, fields, parent } => if !enabled {
            PlanSpec::Skip
        } else {
            match spec_parent(span, parent) {
                ParentPlan::Ready(rp) => PlanSpec::CreateSpan {
                    id,
                    handle: handle as int,
                    fields: adapted_fields(reg[handle as int].fields@, fields@),
                    parent: rp,
                },
                ParentPlan::Wait(wid) => PlanSpec::Wait { id: wid },
                ParentPlan::Missing => PlanSpec::Skip,
            }
        },
        Dispatchable::Enter(d) => match spec_lookup(span, d.0) {
            SpanLookup::Mapped(l) => PlanSpec::Enter { live: l },
            SpanLookup::Pending => PlanSpec::Wait { id: d.0 },
            SpanLookup::Unknown => PlanSpec::Skip,
        },
        Dispatchable::Exit(d) => match spec_lookup(span, d.0) {
            SpanLookup::Mapped(l) => PlanSpec::Exit { live: l },
            SpanLookup::Pending => PlanSpec::Wait { id: d.0 },
            SpanLookup::Unknown => PlanSpec::Skip,
        },
        Dispatchable::Close(d) => match spec_lookup(span, d.0) {
            SpanLookup::Mapped(l) => PlanSpec::TryClose { live: l },
            SpanLookup::Pending => PlanSpec::Wait { id: d.0 },
            SpanLookup::Unknown => PlanSpec::Skip,
        },
        Dispatchable::Record { id, handle, fields } => match spec_lookup(span, id) {
            SpanLookup::Mapped(l) => PlanSpec::AttachFields {
                live: l,
                handle: handle as int,
                fields: adapted_fields(reg[handle as int].fields@, fields@),
            },
            SpanLookup::Pending => PlanSpec::Wait { id },
            SpanLookup::Unknown => PlanSpec::Skip,
        },
        Dispatchable::FollowsFrom { cause_id, effect_id } => {
            let cl = spec_lookup(span, cause_id);
            let el = spec_lookup(span, effect_id);
            if cl is Unknown || el is Unknown {
                PlanSpec::Skip
            } else if cl is Pending {
                PlanSpec::Wait { id: cause_id }
            } else if el is Pending {
                PlanSpec::Wait { id: effect_id }
            } else {
                PlanSpec::FollowsFrom { cause_live: cl->Mapped_0, effect_live: el->Mapped_0 }
            }
        },
    }
}

impl Replay {
    /// Resolves a recorded parent relation: contextual and root parents
    /// pass through, an explicit parent goes through the span identity
    /// map.
    pub fn resolve_parent(&self, parent: &Parent) -> (r: ParentPlan)
        requires
            self.wf(),
        ensures
            r == spec_parent(self.span_ids@, *parent),
            r matches ParentPlan::Ready(ResolvedParent::Explicit(l)) ==> l != 0,
    {
        match parent {
            Parent::Root => ParentPlan::Ready(ResolvedParent::Root),
            Parent::Current => ParentPlan::Ready(ResolvedParent::Current),
            Parent::Explicit(orig) => match self.span_ids.lookup(SpanId(*orig)) {
                SpanLookup::Mapped(l) => ParentPlan::Ready(ResolvedParent::Explicit(l)),
                SpanLookup::Pending => ParentPlan::Wait(SpanId(*orig)),
                SpanLookup::Unknown => ParentPlan::Missing,
            },
        }
    }

    /// Turns one routed item into the backend operation it calls for.
    /// This is a pure decision: the caller performs the operation, waits,
    /// or drops, as the plan says.
    ///
    /// Dropped-reference safety holds by construction: an item whose
    /// span reference was never created — late field values or a causal
    /// edge with no prior span creation — plans to `Skip`, never to
    /// `Wait`, so a referential gap cannot block a worker.
    pub fn plan_dispatch(&self, item: &Dispatchable, enabled: bool) -> (p: DispatchPlan)
        requires
            self.wf(),
            item_wf(*item, self.registry@),
        ensures
            p@ == spec_plan(self.registry@, self.span_ids@, *item, enabled),
            plan_wf(p@),
            *item matches Dispatchable::Record { id, .. } ==> (spec_lookup(self.span_ids@, id)
                is Unknown ==> p is Skip),
            *item matches Dispatchable::FollowsFrom { cause_id, effect_id } ==> ((spec_lookup(
                self.span_ids@,
                cause_id,
            ) is Unknown || spec_lookup(self.span_ids@, effect_id) is Unknown) ==> p is Skip),
    {
        match item {
            Dispatchable::RegisterCallsite { handle } => DispatchPlan::Register { handle: *handle },
            Dispatchable::Event { handle, fields, parent } => {
                if !enabled {
                    DispatchPlan::Skip
                } else {
                    match self.resolve_parent(parent) {
                        ParentPlan::Ready(rp) => {
                            let declared = &self.registry.get(*handle).fields;
                            DispatchPlan::EmitEvent {
                                handle: *handle,
                                fields: adapt_fields(declared, fields),
                                parent: rp,
                            }
                        },
                        ParentPlan::Wait(id) => DispatchPlan::Wait { id },
                        ParentPlan::Missing => DispatchPlan::Skip,
                    }
                }
            },
            Dispatchable::NewSpan { id, handle, fields, parent } => {
                if !enabled {
                    DispatchPlan::Skip
                } else {
                    match self.resolve_parent(parent) {
                        ParentPlan::Ready(rp) => {
                            let declared = &self.registry.get(*handle).fields;
                            DispatchPlan::CreateSpan {
                                id: *id,
                                handle: *handle,
                                fields: adapt_fields(declared, fields),
                                parent: rp,
                            }
                        },
                        ParentPlan::Wait(wid) => DispatchPlan::Wait { id: wid },
                        ParentPlan::Missing => DispatchPlan::Skip,
                    }
                }
            },
            Dispatchable::Enter(d) => match self.span_ids.lookup(d.0) {
                SpanLookup::Mapped(l) => DispatchPlan::Enter { live: l },
                SpanLookup::Pending => DispatchPlan::Wait { id: d.0 },
                SpanLookup::Unknown => DispatchPlan::Skip,
            },
            Dispatchable::Exit(d) => match self.span_ids.lookup(d.0) {
                SpanLookup::Mapped(l) => DispatchPlan::Exit { live: l },
                SpanLookup::Pending => DispatchPlan::Wait { id: d.0 },
                SpanLookup::Unknown => DispatchPlan::Skip,
            },
            Dispatchable::Close(d) => match self.span_ids.lookup(d.0) {
                SpanLookup::Mapped(l) => DispatchPlan::TryClose { live: l },
                SpanLookup::Pending => DispatchPlan::Wait { id: d.0 },
                SpanLookup::Unknown => DispatchPlan::Skip,
            },
            Dispatchable::Record { id, handle, fields } => match self.span_ids.lookup(*id) {
                SpanLookup::Mapped(l) => {
                    let declared = &self.registry.get(*handle).fields;
                    DispatchPlan::AttachFields {
                        live: l,
                        handle: *handle,
                        fields: adapt_fields(declared, fields),
                    }
                },
                SpanLookup::Pending => DispatchPlan::Wait { id: *id },
                SpanLookup::Unknown => DispatchPlan::Skip,
            },
            Dispatchable::FollowsFrom { cause_id, effect_id } => {
                let cl = self.span_ids.lookup(*cause_id);
                let el = self.span_ids.lookup(*effect_id);
                match (cl, el) {
                    (SpanLookup::Unknown, _) => DispatchPlan::Skip,
                    (_, SpanLookup::Unknown) => DispatchPlan::Skip,
                    (SpanLookup::Pending, _) => DispatchPlan::Wait { id: *cause_id },
                    (_, SpanLookup::Pending) => DispatchPlan::Wait { id: *effect_id },
                    (SpanLookup::Mapped(c), SpanLookup::Mapped(e)) => DispatchPlan::FollowsFrom {
                        cause_live: c,
                        effect_live: e,
                    },
                }
            },
        }
    }

    /// Records the live identity the backend assigned to a newly created
    /// span, making it visible to every worker that waits on it.
    pub fn note_span_created(&mut self, id: SpanId, live: u64)
        requires
            old(self).wf(),
            live != 0,
        ensures
            final(self).wf(),
            final(self).span_ids@ == if old(self).span_ids@.contains_key(id.0) && old(
                self,
            ).span_ids@[id.0] is Pending {
                old(self).span_ids@.insert(id.0, SpanState::Mapped(live))
            } else {
                old(self).span_ids@
            },
            mapped_stable(old(self).span_ids@, final(self).span_ids@),
            final(self).registry@ == old(self).registry@,
            final(self).callsites@ == old(self).callsites@,
            final(self).threads@ == old(self).threads@,
            final(self).replay_time_delta == old(self).replay_time_delta,
    {
        self.span_ids.resolve(id, live);
    }
}

/// Result summary of one replayed log.
#[derive(Clone, Copy, Debug, PartialEq, Eq, Structural)]
pub struct ReplaySummary {
    /// Number of records handed to the router, dropped ones included.
    pub record_count: usize,
}

impl Replay {
    /// Replays a whole parsed log sequentially: processes every record
    /// in order and returns the record count together with all routed
    /// work, in routing order.
    ///
    /// Two of the engine's laws are stated here, over the whole log.
    ///
    /// Idempotent metadata registration: however often a capture
    /// identifier occurs in the log — as repeated `RegisterCallsite`
    /// records or as the metadata of events and spans — exactly one
    /// routed item asks the backend to register it, and none at all if
    /// it was already interned before this call.
    ///
    /// Per-thread round trip: for every recorded thread identity, the
    /// span creations, enters, exits, and events routed to that thread's
    /// worker are exactly the ones the log recorded on that thread, in
    /// order, with the same span identifiers, field values and parents,
    /// and with callsite descriptors equal in content — only the
    /// backend-assigned identity may differ.  The premises say the log
    /// is one recording's output: records carrying the same capture
    /// identifier carry the same descriptor, and agree with whatever was
    /// interned before this call.
    pub fn replay_records(&mut self, records: Vec<TraceRecord>, now: Timestamp) -> (r: (
        ReplaySummary,
        Vec<Routed>,
    ))
        requires
            old(self).wf(),
            now.wf(),
            crate::laws::log_metas_consistent(records@),
            crate::laws::log_agrees_with_registry(records@, old(self).registry@),
        ensures
            final(self).wf(),
            r.0.record_count == records@.len(),
            crate::laws::seq_extends(final(self).registry@, old(self).registry@),
            crate::laws::seq_extends(final(self).threads@, old(self).threads@),
            mapped_stable(old(self).span_ids@, final(self).span_ids@),
            forall|k: int|
                0 <= k < r.1@.len() ==> item_wf((#[trigger] r.1@[k]).trace, final(self).registry@)
                    && r.1@[k].thread_index < final(self).threads@.len(),
            forall|c: u64|
                crate::laws::register_count(r.1@, final(self).registry@, c) == if crate::laws::log_mentions(
                    records@,
                    c,
                ) && !has_id(old(self).registry@, c) {
                    1 as int
                } else {
                    0
                },
            forall|key: Seq<char>| #[trigger]
                crate::laws::core_seq_matches(
                    final(self).registry@,
                    crate::laws::routed_core(r.1@, final(self).threads@, key),
                    crate::laws::log_core(records@, key),
                ),
    {
        let record_count = records.len();
        let mut remaining = records;
        let ghost all = remaining@;
        let mut routed_all: Vec<Routed> = Vec::new();
        let mut line_index: usize = 0;
        while remaining.len() > 0
            invariant
                self.wf(),
                now.wf(),
                all.len() == record_count as int,
                line_index + remaining@.len() == all.len(),
                remaining@ == all.skip(line_index as int),
                crate::laws::log_metas_consistent(all),
                crate::laws::log_agrees_with_registry(all, self.registry@),
                crate::laws::seq_extends(self.registry@, old(self).registry@),
                crate::laws::seq_extends(self.threads@, old(self).threads@),
                mapped_stable(old(self).span_ids@, self.span_ids@),
                forall|k: int|
                    0 <= k < routed_all@.len() ==> item_wf(
                        (#[trigger] routed_all@[k]).trace,
                        self.registry@,
                    ) && routed_all@[k].thread_index < self.threads@.len(),
                forall|c: u64|
                    crate::laws::register_count(routed_all@, self.registry@, c) == if has_id(
                        self.registry@,
                        c,
                    ) && !has_id(old(self).registry@, c) {
                        1 as int
                    } else {
                        0
                    },
                forall|c: u64|
                    has_id(self.registry@, c) <==> (has_id(old(self).registry@, c)
                        || crate::laws::log_mentions(all.take(line_index as int), c)),
                forall|key: Seq<char>| #[trigger]
                    crate::laws::core_seq_matches(
                        self.registry@,
                        crate::laws::routed_core(routed_all@, self.threads@, key),
                        crate::laws::log_core(all.take(line_index as int), key),
                    ),
            decreases remaining@.len(),
        {
            let ghost pre_reg = self.registry@;
            let ghost pre_threads = self.threads@;
            let ghost pre_routed = routed_all@;
            let ghost prefix = all.take(line_index as int);

            let rec = remaining.remove(0);
            let ghost grec = rec;
            proof {
                assert(all.skip(line_index as int)[0] == all[line_index as int]);
                assert(remaining@ =~= all.skip(line_index + 1));
                assert(all.take(line_index + 1).drop_last() =~= prefix);
                assert(all.take(line_index + 1) =~= prefix.push(grec));
            }
            let mut items = self.process_record(rec, now, line_index);
            let ghost items_seq = items@;
            routed_all.append(&mut items);

            proof {
                let reg2 = self.registry@;
                let threads2 = self.threads@;
                let prefix1 = prefix.push(grec);
                let oldreg = old(self).registry@;

                assert(routed_all@ == pre_routed + items_seq);
                assert(crate::laws::seq_extends(reg2, pre_reg));
                assert(crate::laws::seq_extends(threads2, pre_threads));
                assert forall|i: int| 0 <= i < oldreg.len() implies reg2[i] == #[trigger] oldreg[i] by {
                    assert(pre_reg[i] == oldreg[i]);
                }
                assert forall|i: int|
                    0 <= i < old(self).threads@.len() implies threads2[i] == #[trigger] old(
                    self,
                ).threads@[i] by {
                    assert(pre_threads[i] == old(self).threads@[i]);
                }

                // Well-formed handles and worker indices, old items and new.
                assert forall|k: int|
                    0 <= k < routed_all@.len() implies item_wf(
                        (#[trigger] routed_all@[k]).trace,
                        reg2,
                    ) && routed_all@[k].thread_index < threads2.len() by {
                    if k < pre_routed.len() {
                        assert(routed_all@[k] == pre_routed[k]);
                        assert(item_wf(pre_routed[k].trace, pre_reg));
                        assert(pre_routed[k].thread_index < pre_threads.len());
                    } else {
                        assert(routed_all@[k] == items_seq[k - pre_routed.len()]);
                    }
                }

                // Registration counts: each step adds exactly the one
                // registration a freshly interned identifier owes.
                assert forall|c: u64|
                    crate::laws::register_count(routed_all@, reg2, c) == (if has_id(reg2, c)
                        && !has_id(oldreg, c) {
                        1 as int
                    } else {
                        0
                    }) by {
                    crate::laws::lemma_register_count_extend(pre_routed, pre_reg, reg2, c);
                    assert(crate::laws::register_count(pre_routed, pre_reg, c) == (if has_id(
                        pre_reg,
                        c,
                    ) && !has_id(oldreg, c) {
                        1 as int
                    } else {
                        0
                    }));
                    if has_id(oldreg, c) {
                        let w = choose|w: int| 0 <= w < oldreg.len() && #[trigger] oldreg[w].id == c;
                        assert(pre_reg[w].id == c);
                        assert(has_id(pre_reg, c));
                    }
                    if items_seq.len() == 0 {
                        assert(routed_all@ =~= pre_routed);
                    } else if items_seq.len() == 1 {
                        assert(routed_all@ =~= pre_routed.push(items_seq[0]));
                        crate::laws::lemma_register_count_push(pre_routed, reg2, c, items_seq[0]);
                    } else {
                        let r1 = pre_routed.push(items_seq[0]);
                        assert(routed_all@ =~= r1.push(items_seq[1]));
                        crate::laws::lemma_register_count_push(pre_routed, reg2, c, items_seq[0]);
                        crate::laws::lemma_register_count_push(r1, reg2, c, items_seq[1]);
                    }
                    match grec.trace {
                        Trace::RegisterCallsite(m) => {
                            if !has_id(pre_reg, m.id) {
                                assert(reg2 == pre_reg.push(m));
                                assert(reg2[pre_reg.len() as int].id == m.id);
                                crate::laws::lemma_has_id_push(pre_reg, m, c);
                            }
                        },
                        Trace::Event(e) => {
                            if !has_id(pre_reg, e.metadata.id) {
                                assert(reg2 == pre_reg.push(e.metadata));
                                assert(reg2[pre_reg.len() as int].id == e.metadata.id);
                                crate::laws::lemma_has_id_push(pre_reg, e.metadata, c);
                            }
                        },
                        Trace::NewSpan(ns) => {
                            if !has_id(pre_reg, ns.metadata.id) {
                                assert(reg2 == pre_reg.push(ns.metadata));
                                assert(reg2[pre_reg.len() as int].id == ns.metadata.id);
                                crate::laws::lemma_has_id_push(pre_reg, ns.metadata, c);
                            }
                        },
                        _ => {},
                    }
                }

                // What the registry holds is exactly what the consumed
                // prefix of the log mentions, beyond the initial entries.
                assert forall|c: u64|
                    has_id(reg2, c) <==> (has_id(oldreg, c) || crate::laws::log_mentions(
                        prefix1,
                        c,
                    )) by {
                    crate::laws::lemma_log_mentions_push(prefix, grec, c);
                    match grec.trace {
                        Trace::RegisterCallsite(m) => {
                            if !has_id(pre_reg, m.id) {
                                crate::laws::lemma_has_id_push(pre_reg, m, c);
                            }
                        },
                        Trace::Event(e) => {
                            if !has_id(pre_reg, e.metadata.id) {
                                crate::laws::lemma_has_id_push(pre_reg, e.metadata, c);
                            }
                        },
                        Trace::NewSpan(ns) => {
                            if !has_id(pre_reg, ns.metadata.id) {
                                crate::laws::lemma_has_id_push(pre_reg, ns.metadata, c);
                            }
                        },
                        _ => {},
                    }
                }

                // The registry still agrees with the whole log.
                assert(trace_metadata(all[line_index as int].trace) == trace_metadata(grec.trace));
                assert forall|i: int, h: int|
                    0 <= i < all.len() && 0 <= h < reg2.len() implies ((#[trigger] trace_metadata(
                        all[i].trace,
                    )) matches Some(m) ==> ((#[trigger] reg2[h]).id == m.id ==> meta_content_eq(
                        reg2[h],
                        m,
                    ))) by {
                    if h < pre_reg.len() {
                        assert(reg2[h] == pre_reg[h]);
                    } else {
                        assert(crate::laws::log_metas_consistent(all));
                        assert(trace_metadata(all[line_index as int].trace) is Some);
                    }
                }
                assert(crate::laws::log_agrees_with_registry(all, reg2));

                // Per-thread projections stay matched.
                assert forall|key: Seq<char>| #[trigger]
                    crate::laws::core_seq_matches(
                        reg2,
                        crate::laws::routed_core(routed_all@, threads2, key),
                        crate::laws::log_core(prefix1, key),
                    ) by {
                    crate::laws::lemma_routed_core_extend(pre_routed, pre_threads, threads2, key);
                    let old_ds = crate::laws::routed_core(pre_routed, pre_threads, key);
                    let old_ts = crate::laws::log_core(prefix, key);
                    assert(crate::laws::core_seq_matches(pre_reg, old_ds, old_ts));
                    crate::laws::lemma_core_seq_matches_extend(pre_reg, reg2, old_ds, old_ts);
                    crate::laws::lemma_log_core_push(prefix, grec, key);
                    if items_seq.len() == 0 {
                        assert(routed_all@ =~= pre_routed);
                        match grec.trace {
                            Trace::Event(e) => {
                                assert(false);
                            },
                            Trace::NewSpan(ns) => {
                                assert(false);
                            },
                            Trace::Enter(s) => {
                                assert(false);
                            },
                            Trace::Exit(s) => {
                                assert(false);
                            },
                            _ => {},
                        }
                    } else {
                        if items_seq.len() == 1 {
                            assert(routed_all@ =~= pre_routed.push(items_seq[0]));
                            crate::laws::lemma_routed_core_push(
                                pre_routed,
                                items_seq[0],
                                threads2,
                                key,
                            );
                        } else {
                            let r1 = pre_routed.push(items_seq[0]);
                            assert(routed_all@ =~= r1.push(items_seq[1]));
                            crate::laws::lemma_routed_core_push(
                                pre_routed,
                                items_seq[0],
                                threads2,
                                key,
                            );
                            crate::laws::lemma_routed_core_push(r1, items_seq[1], threads2, key);
                            assert(!crate::laws::is_core_item(items_seq[0].trace));
                        }
                        let last = items_seq[items_seq.len() - 1];
                        assert(threads2[last.thread_index as int]@ == grec.meta.thread_id@);
                        if key == grec.meta.thread_id@ {
                            match grec.trace {
                                Trace::Event(e) => {
                                    match last.trace {
                                        Dispatchable::Event { handle, fields, parent } => {
                                            assert(reg2[handle as int].id == e.metadata.id);
                                            assert(trace_metadata(all[line_index as int].trace)
                                                == Some(e.metadata));
                                            assert(meta_content_eq(
                                                reg2[handle as int],
                                                e.metadata,
                                            ));
                                            assert(crate::laws::core_matches(
                                                reg2,
                                                last.trace,
                                                grec.trace,
                                            ));
                                        },
                                        _ => {
                                            assert(false);
                                        },
                                    }
                                    crate::laws::lemma_core_seq_matches_push(
                                        reg2,
                                        old_ds,
                                        old_ts,
                                        last.trace,
                                        grec.trace,
                                    );
                                },
                                Trace::NewSpan(ns) => {
                                    match last.trace {
                                        Dispatchable::NewSpan { id, handle, fields, parent } => {
                                            assert(reg2[handle as int].id == ns.metadata.id);
                                            assert(trace_metadata(all[line_index as int].trace)
                                                == Some(ns.metadata));
                                            assert(meta_content_eq(
                                                reg2[handle as int],
                                                ns.metadata,
                                            ));
                                            assert(crate::laws::core_matches(
                                                reg2,
                                                last.trace,
                                                grec.trace,
                                            ));
                                        },
                                        _ => {
                                            assert(false);
                                        },
                                    }
                                    crate::laws::lemma_core_seq_matches_push(
                                        reg2,
                                        old_ds,
                                        old_ts,
                                        last.trace,
                                        grec.trace,
                                    );
                                },
                                Trace::Enter(s) => {
                                    crate::laws::lemma_core_seq_matches_push(
                                        reg2,
                                        old_ds,
                                        old_ts,
                                        last.trace,
                                        grec.trace,
                                    );
                                },
                                Trace::Exit(s) => {
                                    crate::laws::lemma_core_seq_matches_push(
                                        reg2,
                                        old_ds,
                                        old_ts,
                                        last.trace,
                                        grec.trace,
                                    );
                                },
                                _ => {
                                    assert(!crate::laws::is_core_trace(grec.trace));
                                    assert(!crate::laws::is_core_item(last.trace));
                                },
                            }
                        } else {
                            assert(threads2[last.thread_index as int]@ != key);
                            assert(items_seq.len() == 2 ==> threads2[items_seq[0].thread_index as int]@
                                != key);
                        }
                    }
                }
            }
            line_index = line_index + 1;
        }
        proof {
            assert(all.take(all.len() as int) =~= all);
        }
        (ReplaySummary { record_count }, routed_all)
    }
}

/// Duplicates an optional string by content.
fn clone_opt_string(o: &Option<String>) -> (r: Option<String>)
    ensures
        r == *o,
{
    match o {
        Some(s) => Some(s.clone()),
        None => None,
    }
}

impl Default for Replay {
    fn default() -> (r: Replay)
        ensures
            r.wf(),
            r.registry@ == Seq::<CallsiteMeta>::empty(),
            r.callsites@ == Map::<u64, usize>::empty(),
            r.span_ids@ == Map::<u64, SpanState>::empty(),
            r.threads@ == Seq::<String>::empty(),
            r.replay_time_delta.as_micros() == 0,
    {
        Replay::new()
    }
}

/// Why a replay run failed.  The line index and, for an undecodable
/// record, the raw line are kept for diagnosis.
#[derive(Debug, PartialEq, Eq)]
pub enum ReplayFileError {
    /// The log source could not be opened at all.
    CannotOpenFile { message: String },
    /// A line could not be read from the log source.
    CannotReadLine { message: String, line_index: usize },
    /// A line was read but is not a well-formed record.
    CannotDeserializeRecord { message: String, line_index: usize, line: String },
}

/// Failures collected while tearing the workers down, one entry per
/// failing worker: its recorded thread identity and its failure text.
#[derive(Debug, PartialEq, Eq)]
pub struct ReplayCloseError {
    pub threads: Vec<(String, String)>,
}

impl ReplayCloseError {
    /// The error text: a fixed heading, then each failing thread with
    /// its failure.
    pub open spec fn describe_spec(threads: Seq<(String, String)>, k: int) -> Seq<char>
        decreases k,
    {
        if k <= 0 {
            "ReplayCloseError:"@
        } else {
            ReplayCloseError::describe_spec(threads, k - 1) + " - "@ + threads[k - 1].0@ + ": "@
                + threads[k - 1].1@
        }
    }

    /// Renders the error as text.
    pub fn describe(&self) -> (r: String)
        ensures
            r@ == ReplayCloseError::describe_spec(self.threads@, self.threads@.len() as int),
    {
        let mut r = String::from_str("ReplayCloseError:");
        let mut i: usize = 0;
        while i < self.threads.len()
            invariant
                i <= self.threads@.len(),
                r@ == ReplayCloseError::describe_spec(self.threads@, i as int),
            decreases self.threads@.len() - i,
        {
            r.append(" - ");
            r.append(self.threads[i].0.as_str());
            r.append(": ");
            r.append(self.threads[i].1.as_str());
            i = i + 1;
        }
        r
    }
}

impl Replay {
    /// Closes the replay: forgets every worker and turns the failures
    /// the caller collected while joining them into a result.  Success
    /// exactly when no worker failed; otherwise every failure is
    /// surfaced, keyed by recorded thread identity.
    pub fn close(&mut self, worker_failures: Vec<(String, String)>) -> (r: Result<
        (),
        ReplayCloseError,
    >)
        requires
            old(self).wf(),
        ensures
            final(self).wf(),
            final(self).threads@ == Seq::<String>::empty(),
            final(self).registry@ == old(self).registry@,
            final(self).callsites@ == old(self).callsites@,
            final(self).span_ids@ == old(self).span_ids@,
            final(self).replay_time_delta == old(self).replay_time_delta,
            r is Ok <==> worker_failures@.len() == 0,
            r matches Err(e) ==> e.threads@ == worker_failures@,
    {
        self.threads = Vec::new();
        if worker_failures.len() == 0 {
            Ok(())
        } else {
            Err(ReplayCloseError { threads: worker_failures })
        }
    }
}

} // verus!
