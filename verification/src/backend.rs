//! The bridge to the live observability backend.
//!
//! The backend is the `tracing` dispatcher: it alone decides whether a
//! callsite is of interest and what identity a span gets.  The calls
//! that take plain identities cross here through trusted wrappers; the
//! calls that need a value set of fields are performed by the caller,
//! who owns the variable-arity shim, following the plans the library
//! computes.

use vstd::prelude::*;

use crate::recording::Parent;
use crate::replay::DispatchPlan;
use crate::replay::PlanSpec;
use crate::replay::plan_wf;

verus! {

#[verifier::external_type_specification]
#[verifier::external_body]
pub struct ExDispatch(tracing::Dispatch);

#[verifier::external_type_specification]
#[verifier::external_body]
pub struct ExMetadata<'a>(tracing::Metadata<'a>);

/// Relies on tracing's Dispatch::register_callsite: hands the callsite
/// descriptor to the backend once and drops the returned interest.
#[verifier::external_body]
fn backend_register(d: &tracing::Dispatch, m: &'static tracing::Metadata<'static>) {
    let _ = d.register_callsite(m);
}

/// Relies on tracing's Dispatch::enabled: the backend's own decision
/// whether this callsite's activity should be processed at all.
#[verifier::external_body]
fn backend_enabled(d: &tracing::Dispatch, m: &'static tracing::Metadata<'static>) -> bool {
    d.enabled(m)
}

/// Relies on tracing's Dispatch::enter; span::Id::from_u64 panics on
/// zero, which the precondition rules out.
#[verifier::external_body]
fn backend_enter(d: &tracing::Dispatch, live: u64)
    requires
        live != 0,
{
    d.enter(&tracing_core::span::Id::from_u64(live));
}

/// Relies on tracing's Dispatch::exit; span::Id::from_u64 panics on
/// zero, which the precondition rules out.
#[verifier::external_body]
fn backend_exit(d: &tracing::Dispatch, live: u64)
    requires
        live != 0,
{
    d.exit(&tracing_core::span::Id::from_u64(live));
}

/// Relies on tracing's Dispatch::try_close, the reference-counted
/// finalization owned entirely by the backend; span::Id::from_u64
/// panics on zero, which the precondition rules out.
#[verifier::external_body]
fn backend_try_close(d: &tracing::Dispatch, live: u64) -> bool
    requires
        live != 0,
{
    d.try_close(tracing_core::span::Id::from_u64(live))
}

/// Relies on tracing's Dispatch::record_follows_from, whose first
/// argument is the effect and second the cause; span::Id::from_u64
/// panics on zero, which the precondition rules out.
#[verifier::external_body]
fn backend_follows_from(d: &tracing::Dispatch, effect_live: u64, cause_live: u64)
    requires
        effect_live != 0,
        cause_live != 0,
{
    d.record_follows_from(
        &tracing_core::span::Id::from_u64(effect_live),
        &tracing_core::span::Id::from_u64(cause_live),
    );
}

/// Relies on std's Box::leak: gives a value the process's lifetime and
/// returns a reference to it, unchanged.
#[verifier::external_body]
pub fn leak<T>(obj: T) -> (r: &'static T)
    ensures
        *r == obj,
{
    Box::leak(Box::new(obj))
}

/// The backend's interest in a callsite: the input that decides whether
/// an event is emitted or a span created at all.
pub fn callsite_enabled(d: &tracing::Dispatch, m: &'static tracing::Metadata<'static>) -> bool {
    backend_enabled(d, m)
}

/// Performs the backend calls that take plain identities: callsite
/// registration, enter, exit, close, and causal edges, plus the
/// nothing-to-do of a skipped item.  Returns whether the plan is done:
/// the remaining kinds — span creation, events, late fields — need a
/// value set of fields, which only the caller's variable-arity shim can
/// build, and a wait is the caller's to schedule.
pub fn execute_plan(
    d: &tracing::Dispatch,
    m: Option<&'static tracing::Metadata<'static>>,
    plan: &DispatchPlan,
) -> (done: bool)
    requires
        plan_wf(plan@),
        plan@ is Register ==> m is Some,
    ensures
        done == (plan@ is Register || plan@ is Enter || plan@ is Exit || plan@ is TryClose
            || plan@ is FollowsFrom || plan@ is Skip),
{
    match plan {
        DispatchPlan::Register { handle: _ } => {
            if let Some(meta) = m {
                backend_register(d, meta);
            }
            true
        },
        DispatchPlan::Enter { live } => {
            backend_enter(d, *live);
            true
        },
        DispatchPlan::Exit { live } => {
            backend_exit(d, *live);
            true
        },
        DispatchPlan::TryClose { live } => {
            let _ = backend_try_close(d, *live);
            true
        },
        DispatchPlan::FollowsFrom { cause_live, effect_live } => {
            backend_follows_from(d, *effect_live, *cause_live);
            true
        },
        DispatchPlan::Skip => true,
        DispatchPlan::EmitEvent { .. } => false,
        DispatchPlan::CreateSpan { .. } => false,
        DispatchPlan::AttachFields { .. } => false,
        DispatchPlan::Wait { .. } => false,
    }
}

/// Stand-in for a replayed callsite: the backend wants a callsite
/// object behind every descriptor; replayed callsites only remember
/// their capture identifier.
#[derive(Clone, Copy, Debug, PartialEq, Eq, Structural)]
pub struct Cs {
    pub id: u64,
}

impl Cs {
    pub fn new(id: u64) -> (r: Cs)
        ensures
            r.id == id,
    {
        Cs { id }
    }
}

/// Pairs a dispatcher handle with the resolved descriptor and parent of
/// a span about to be created; the caller's variable-arity shim turns
/// it into the backend's span-creation call.
pub struct NewSpanProxy<'a> {
    pub dispatch: &'a tracing::Dispatch,
    pub metadata: &'static tracing::Metadata<'static>,
    pub parent: &'a Parent,
}

impl<'a> NewSpanProxy<'a> {
    pub fn new(
        dispatch: &'a tracing::Dispatch,
        metadata: &'static tracing::Metadata<'static>,
        parent: &'a Parent,
    ) -> (r: NewSpanProxy<'a>)
        ensures
            r.dispatch == dispatch,
            r.metadata == metadata,
            r.parent == parent,
    {
        NewSpanProxy { dispatch, metadata, parent }
    }
}

/// Pairs a dispatcher handle with the resolved descriptor and parent of
/// an event about to be emitted.
pub struct EventProxy<'a> {
    pub dispatch: &'a tracing::Dispatch,
    pub metadata: &'static tracing::Metadata<'static>,
    pub parent: &'a Parent,
}

impl<'a> EventProxy<'a> {
    pub fn new(
        dispatch: &'a tracing::Dispatch,
        metadata: &'static tracing::Metadata<'static>,
        parent: &'a Parent,
    ) -> (r: EventProxy<'a>)
        ensures
            r.dispatch == dispatch,
            r.metadata == metadata,
            r.parent == parent,
    {
        EventProxy { dispatch, metadata, parent }
    }
}

/// Pairs a dispatcher handle with the resolved descriptor and live span
/// identity of late-bound field values about to be attached.
pub struct RecordProxy<'a> {
    pub dispatch: &'a tracing::Dispatch,
    pub metadata: &'static tracing::Metadata<'static>,
    pub span_id: u64,
}

impl<'a> RecordProxy<'a> {
    pub fn new(
        dispatch: &'a tracing::Dispatch,
        metadata: &'static tracing::Metadata<'static>,
        span_id: u64,
    ) -> (r: RecordProxy<'a>)
        ensures
            r.dispatch == dispatch,
            r.metadata == metadata,
            r.span_id == span_id,
    {
        RecordProxy { dispatch, metadata, span_id }
    }
}

} // verus!
