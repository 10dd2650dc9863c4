//! The properties the replay engine is held to, stated over whole logs.
//!
//! `replay_records` promises these in its contract; the functions and
//! lemmas here give the vocabulary: per-thread projections of a log and
//! of the routed work, counts of registration calls, and their behavior
//! under the growth of the replay state.

use vstd::prelude::*;

use crate::recording::CallsiteMeta;
use crate::recording::Trace;
use crate::recording::TraceRecord;
use crate::recording::meta_content_eq;
use crate::recording::trace_metadata;
use crate::replay::Dispatchable;
use crate::replay::Routed;

verus! {

/// One sequence extends another: same entries on the shared prefix.
pub open spec fn seq_extends<A>(s2: Seq<A>, s: Seq<A>) -> bool {
    s.len() <= s2.len() && (forall|i: int| 0 <= i < s.len() ==> s2[i] == #[trigger] s[i])
}

// ------------------------------------------------------------------
// Idempotent metadata registration
// ------------------------------------------------------------------

/// How many routed items ask the backend to register the callsite with
/// capture identifier `c`.
pub open spec fn register_count(routed: Seq<Routed>, reg: Seq<CallsiteMeta>, c: u64) -> int
    decreases routed.len(),
{
    if routed.len() == 0 {
        0
    } else {
        register_count(routed.drop_last(), reg, c) + (match routed.last().trace {
            Dispatchable::RegisterCallsite { handle } => if handle < reg.len() && reg[
                handle as int].id == c {
                1 as int
            } else {
                0
            },
            _ => 0,
        })
    }
}

/// Whether any record of the log carries callsite metadata with capture
/// identifier `c`.
pub open spec fn log_mentions(records: Seq<TraceRecord>, c: u64) -> bool {
    exists|i: int|
        0 <= i < records.len() && ((#[trigger] trace_metadata(records[i].trace)) matches Some(m)
            && m.id == c)
}

/// Appending one routed item changes a registration count by exactly
/// that item's own contribution.
pub proof fn lemma_register_count_push(routed: Seq<Routed>, reg: Seq<CallsiteMeta>, c: u64, x: Routed)
    ensures
        register_count(routed.push(x), reg, c) == register_count(routed, reg, c) + (
        match x.trace {
            Dispatchable::RegisterCallsite { handle } => if handle < reg.len() && reg[
                handle as int].id == c {
                1 as int
            } else {
                0
            },
            _ => 0,
        }),
{
    assert(routed.push(x).drop_last() =~= routed);
}

/// A registration count only reads entries the items point at, so
/// growing the registry does not change it.
pub proof fn lemma_register_count_extend(
    routed: Seq<Routed>,
    reg: Seq<CallsiteMeta>,
    reg2: Seq<CallsiteMeta>,
    c: u64,
)
    requires
        seq_extends(reg2, reg),
        forall|k: int| 0 <= k < routed.len() ==> crate::replay::item_wf(#[trigger] routed[k].trace, reg),
    ensures
        register_count(routed, reg2, c) == register_count(routed, reg, c),
    decreases routed.len(),
{
    if routed.len() > 0 {
        assert(routed.drop_last() =~= routed.take(routed.len() - 1));
        assert(forall|k: int|
            0 <= k < routed.drop_last().len() ==> crate::replay::item_wf(
                #[trigger] routed.drop_last()[k].trace,
                reg,
            ));
        lemma_register_count_extend(routed.drop_last(), reg, reg2, c);
        assert(crate::replay::item_wf(routed.last().trace, reg));
    }
}

/// Appending one descriptor extends the interned identifiers by exactly
/// that descriptor's own.
pub proof fn lemma_has_id_push(s: Seq<CallsiteMeta>, m: CallsiteMeta, c: u64)
    ensures
        crate::registry::has_id(s.push(m), c) == (crate::registry::has_id(s, c) || m.id == c),
{
    let s2 = s.push(m);
    if crate::registry::has_id(s, c) {
        let i = choose|i: int| 0 <= i < s.len() && #[trigger] s[i].id == c;
        assert(s2[i].id == c);
    }
    if m.id == c {
        assert(s2[s.len() as int].id == c);
    }
    if crate::registry::has_id(s2, c) {
        let i = choose|i: int| 0 <= i < s2.len() && #[trigger] s2[i].id == c;
        if i < s.len() {
            assert(s[i].id == c);
        } else {
            assert(s2[i] == m);
        }
    }
}

/// Appending one record extends what the log mentions by exactly that
/// record's own metadata.
pub proof fn lemma_log_mentions_push(records: Seq<TraceRecord>, x: TraceRecord, c: u64)
    ensures
        log_mentions(records.push(x), c) == (log_mentions(records, c) || (trace_metadata(x.trace)
            matches Some(m) && m.id == c)),
{
    let s = records.push(x);
    if log_mentions(records, c) {
        let i = choose|i: int|
            0 <= i < records.len() && ((#[trigger] trace_metadata(records[i].trace)) matches Some(
            m) && m.id == c);
        assert(trace_metadata(s[i].trace) == trace_metadata(records[i].trace));
        assert(log_mentions(s, c));
    }
    if trace_metadata(x.trace) matches Some(m) && m.id == c {
        assert(trace_metadata(s[s.len() - 1].trace) == trace_metadata(x.trace));
        assert(log_mentions(s, c));
    }
    if log_mentions(s, c) {
        let i = choose|i: int|
            0 <= i < s.len() && ((#[trigger] trace_metadata(s[i].trace)) matches Some(m) && m.id
                == c);
        if i < records.len() {
            assert(trace_metadata(records[i].trace) == trace_metadata(s[i].trace));
            assert(log_mentions(records, c));
        } else {
            assert(s[i] == x);
        }
    }
}

// ------------------------------------------------------------------
// Per-thread round trip
// ------------------------------------------------------------------

/// The payload kinds whose per-thread order and content replay
/// reproduces: span creations, enters, exits, and events.
pub open spec fn is_core_trace(t: Trace) -> bool {
    t is Event || t is NewSpan || t is Enter || t is Exit
}

/// The routed counterparts of the core payload kinds.
pub open spec fn is_core_item(d: Dispatchable) -> bool {
    d is Event || d is NewSpan || d is Enter || d is Exit
}

/// The core payloads recorded on the thread with identity `key`, in log
/// order.
pub open spec fn log_core(records: Seq<TraceRecord>, key: Seq<char>) -> Seq<Trace>
    decreases records.len(),
{
    if records.len() == 0 {
        Seq::<Trace>::empty()
    } else {
        let rest = log_core(records.drop_last(), key);
        let x = records.last();
        if x.meta.thread_id@ == key && is_core_trace(x.trace) {
            rest.push(x.trace)
        } else {
            rest
        }
    }
}

/// The core items routed to the worker owning thread identity `key`, in
/// routing order — the order the worker performs them in.
pub open spec fn routed_core(routed: Seq<Routed>, threads: Seq<String>, key: Seq<char>) -> Seq<
    Dispatchable,
>
    decreases routed.len(),
{
    if routed.len() == 0 {
        Seq::<Dispatchable>::empty()
    } else {
        let rest = routed_core(routed.drop_last(), threads, key);
        let x = routed.last();
        if x.thread_index < threads.len() && threads[x.thread_index as int]@ == key && is_core_item(
            x.trace,
        ) {
            rest.push(x.trace)
        } else {
            rest
        }
    }
}

/// One routed item reproduces one recorded payload: same kind, same
/// recorded span identifiers, same field values, same parent, and a
/// callsite descriptor equal in content — backend-assigned identity is
/// the one thing allowed to differ.
pub open spec fn core_matches(reg: Seq<CallsiteMeta>, d: Dispatchable, t: Trace) -> bool {
    match (d, t) {
        (Dispatchable::Event { handle, fields, parent }, Trace::Event(e)) => handle < reg.len()
            && meta_content_eq(reg[handle as int], e.metadata) && fields == e.fields && parent
            == e.parent,
        (Dispatchable::NewSpan { id, handle, fields, parent }, Trace::NewSpan(ns)) => id == ns.id
            && handle < reg.len() && meta_content_eq(reg[handle as int], ns.metadata) && fields
            == ns.fields && parent == ns.parent,
        (Dispatchable::Enter(ds), Trace::Enter(s)) => ds.0 == s,
        (Dispatchable::Exit(ds), Trace::Exit(s)) => ds.0 == s,
        _ => false,
    }
}

/// Two projections match pointwise.
pub open spec fn core_seq_matches(reg: Seq<CallsiteMeta>, ds: Seq<Dispatchable>, ts: Seq<Trace>) -> bool {
    ds.len() == ts.len() && (forall|i: int|
        0 <= i < ds.len() ==> core_matches(reg, #[trigger] ds[i], ts[i]))
}

/// Any two records of one recording that carry the same capture
/// identifier carry the same callsite descriptor.
pub open spec fn log_metas_consistent(records: Seq<TraceRecord>) -> bool {
    forall|i: int, j: int|
        0 <= i < records.len() && 0 <= j < records.len() ==> ((#[trigger] trace_metadata(
            records[i].trace,
        )) matches Some(a) ==> ((#[trigger] trace_metadata(records[j].trace)) matches Some(b) ==> (
        a.id == b.id ==> meta_content_eq(a, b))))
}

/// Every interned descriptor agrees in content with every record of the
/// log that carries its capture identifier.
pub open spec fn log_agrees_with_registry(records: Seq<TraceRecord>, reg: Seq<CallsiteMeta>) -> bool {
    forall|i: int, h: int|
        0 <= i < records.len() && 0 <= h < reg.len() ==> ((#[trigger] trace_metadata(
            records[i].trace,
        )) matches Some(m) ==> ((#[trigger] reg[h]).id == m.id ==> meta_content_eq(reg[h], m)))
}

/// Appending one record extends a thread's core projection by that
/// record's payload exactly when the record belongs to the thread and
/// carries a core kind.
pub proof fn lemma_log_core_push(records: Seq<TraceRecord>, x: TraceRecord, key: Seq<char>)
    ensures
        log_core(records.push(x), key) == if x.meta.thread_id@ == key && is_core_trace(x.trace) {
            log_core(records, key).push(x.trace)
        } else {
            log_core(records, key)
        },
{
    assert(records.push(x).drop_last() =~= records);
}

/// Appending one routed item extends a worker's core projection by that
/// item exactly when the item belongs to the worker and carries a core
/// kind.
pub proof fn lemma_routed_core_push(
    routed: Seq<Routed>,
    x: Routed,
    threads: Seq<String>,
    key: Seq<char>,
)
    ensures
        routed_core(routed.push(x), threads, key) == if x.thread_index < threads.len() && threads[
            x.thread_index as int]@ == key && is_core_item(x.trace) {
            routed_core(routed, threads, key).push(x.trace)
        } else {
            routed_core(routed, threads, key)
        },
{
    assert(routed.push(x).drop_last() =~= routed);
}

/// A worker's core projection only reads the thread entries its items
/// point at, so appending new threads does not change it.
pub proof fn lemma_routed_core_extend(
    routed: Seq<Routed>,
    threads: Seq<String>,
    threads2: Seq<String>,
    key: Seq<char>,
)
    requires
        seq_extends(threads2, threads),
        forall|k: int| 0 <= k < routed.len() ==> (#[trigger] routed[k]).thread_index < threads.len(),
    ensures
        routed_core(routed, threads2, key) == routed_core(routed, threads, key),
    decreases routed.len(),
{
    if routed.len() > 0 {
        assert(forall|k: int|
            0 <= k < routed.drop_last().len() ==> (#[trigger] routed.drop_last()[k]).thread_index
                < threads.len());
        lemma_routed_core_extend(routed.drop_last(), threads, threads2, key);
        let x = routed.last();
        assert(x == routed[routed.len() - 1]);
        if x.thread_index < threads.len() {
            assert(threads2[x.thread_index as int] == threads[x.thread_index as int]);
        }
    }
}

/// A matched projection stays matched when both sides grow by one
/// matching pair.
pub proof fn lemma_core_seq_matches_push(
    reg: Seq<CallsiteMeta>,
    ds: Seq<Dispatchable>,
    ts: Seq<Trace>,
    d: Dispatchable,
    t: Trace,
)
    requires
        core_seq_matches(reg, ds, ts),
        core_matches(reg, d, t),
    ensures
        core_seq_matches(reg, ds.push(d), ts.push(t)),
{
    assert forall|i: int| 0 <= i < ds.push(d).len() implies core_matches(
        reg,
        #[trigger] ds.push(d)[i],
        ts.push(t)[i],
    ) by {
        if i < ds.len() {
            assert(ds.push(d)[i] == ds[i]);
            assert(ts.push(t)[i] == ts[i]);
            assert(core_matches(reg, ds[i], ts[i]));
        } else {
            assert(ds.push(d)[i] == d);
            assert(ts.push(t)[i] == t);
        }
    }
}

/// A matched projection only reads the registry entries its items point
/// at, so growing the registry keeps it matched.
pub proof fn lemma_core_seq_matches_extend(
    reg: Seq<CallsiteMeta>,
    reg2: Seq<CallsiteMeta>,
    ds: Seq<Dispatchable>,
    ts: Seq<Trace>,
)
    requires
        seq_extends(reg2, reg),
        core_seq_matches(reg, ds, ts),
    ensures
        core_seq_matches(reg2, ds, ts),
{
    assert forall|i: int| 0 <= i < ds.len() implies core_matches(reg2, #[trigger] ds[i], ts[i]) by {
        assert(core_matches(reg, ds[i], ts[i]));
    }
}

} // verus!
