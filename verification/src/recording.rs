//! The record log data model.
//!
//! One record per log line: a capture-time envelope (`RecordMeta`) plus one
//! of eight payload kinds (`Trace`).  All values here are plain data; the
//! text encoding of a line is handled outside the library.

use vstd::prelude::*;

verus! {

/// Identifier a span carried in the recording.  It is only meaningful
/// within one recording: on replay the backend assigns a fresh identity.
#[derive(Clone, Copy, Debug, PartialEq, Eq, Hash, Structural)]
pub struct SpanId(pub u64);

/// Verbosity level of a callsite.
#[derive(Clone, Copy, Debug, PartialEq, Eq, Structural)]
pub enum Level {
    Trace,
    Debug,
    Info,
    Warn,
    Error,
}

/// Whether a callsite describes a span or an event.
#[derive(Clone, Copy, Debug, PartialEq, Eq, Structural)]
pub enum Kind {
    Span,
    Event,
}

/// Callsite descriptor serialized at capture time.  `id` is an opaque
/// capture-time identifier, stable only within one recording.
#[derive(Clone, Debug, PartialEq, Eq)]
pub struct CallsiteMeta {
    pub id: u64,
    pub name: String,
    pub target: String,
    pub level: Level,
    pub module: Option<String>,
    pub file: Option<String>,
    pub line: Option<u32>,
    pub fields: Vec<String>,
    pub kind: Kind,
}

/// Parent relation recorded for a span or event.
#[derive(Clone, Copy, Debug, PartialEq, Eq, Structural)]
pub enum Parent {
    /// The new span will be a root span.
    Root,
    /// The new span will be rooted in the current span.
    Current,
    /// The new span has an explicitly-specified parent.
    Explicit(u64),
}

/// One recorded field value.  The floating-point kind carries the raw
/// IEEE-754 bit pattern; the library never interprets those bits, it only
/// moves them.
#[derive(Debug, PartialEq, Eq)]
pub enum FieldValue {
    Debug(String),
    F64(u64),
    I64(i64),
    U64(u64),
    I128(i128),
    U128(u128),
    Bool(bool),
    Str(String),
}

impl Clone for FieldValue {
    fn clone(&self) -> (res: FieldValue)
        ensures
            res == *self,
    {
        match self {
            FieldValue::Debug(s) => FieldValue::Debug(s.clone()),
            FieldValue::F64(v) => FieldValue::F64(*v),
            FieldValue::I64(v) => FieldValue::I64(*v),
            FieldValue::U64(v) => FieldValue::U64(*v),
            FieldValue::I128(v) => FieldValue::I128(*v),
            FieldValue::U128(v) => FieldValue::U128(*v),
            FieldValue::Bool(v) => FieldValue::Bool(*v),
            FieldValue::Str(s) => FieldValue::Str(s.clone()),
        }
    }
}

/// A named field value.
#[derive(Debug, PartialEq, Eq)]
pub struct Field {
    pub name: String,
    pub value: FieldValue,
}

impl Clone for Field {
    fn clone(&self) -> (res: Field)
        ensures
            res == *self,
    {
        Field { name: self.name.clone(), value: self.value.clone() }
    }
}

impl Field {
    pub fn new(name: String, value: FieldValue) -> (r: Field)
        ensures
            r.name == name,
            r.value == value,
    {
        Field { name, value }
    }
}

/// A point-in-time occurrence with fields and a parent.
#[derive(Clone, Debug, PartialEq, Eq)]
pub struct Event {
    pub fields: Vec<Field>,
    pub metadata: CallsiteMeta,
    pub parent: Parent,
}

/// Creation of a span.
#[derive(Clone, Debug, PartialEq, Eq)]
pub struct NewSpan {
    pub id: SpanId,
    pub fields: Vec<Field>,
    pub metadata: CallsiteMeta,
    pub parent: Parent,
}

/// Late-bound field values attached to an existing span.
#[derive(Clone, Debug, PartialEq, Eq)]
pub struct RecordValues {
    pub id: SpanId,
    pub fields: Vec<Field>,
}

/// A causal (not structural) edge between two spans.
#[derive(Clone, Copy, Debug, PartialEq, Eq, Structural)]
pub struct FollowsFrom {
    pub cause_id: SpanId,
    pub effect_id: SpanId,
}

impl FollowsFrom {
    pub fn new(cause_id: SpanId, effect_id: SpanId) -> (r: FollowsFrom)
        ensures
            r.cause_id == cause_id,
            r.effect_id == effect_id,
    {
        FollowsFrom { cause_id, effect_id }
    }
}

/// The eight payload kinds a record can carry.
#[derive(Clone, Debug, PartialEq, Eq)]
pub enum Trace {
    RegisterCallsite(CallsiteMeta),
    Event(Event),
    NewSpan(NewSpan),
    Enter(SpanId),
    Exit(SpanId),
    Close(SpanId),
    Record(RecordValues),
    FollowsFrom(FollowsFrom),
}

/// Capture-time envelope of a record: when it happened and on which
/// thread of the recorded process.
#[derive(Clone, Debug, PartialEq, Eq)]
pub struct RecordMeta {
    pub timestamp_s: u64,
    pub timestamp_subsec_us: u32,
    pub thread_id: String,
    pub thread_name: Option<String>,
}

/// One line of the record log.
#[derive(Clone, Debug, PartialEq, Eq)]
pub struct TraceRecord {
    pub meta: RecordMeta,
    pub trace: Trace,
}

/// The callsite metadata carried by a payload, if any.
pub open spec fn trace_metadata(t: Trace) -> Option<CallsiteMeta> {
    match t {
        Trace::RegisterCallsite(m) => Some(m),
        Trace::Event(e) => Some(e.metadata),
        Trace::NewSpan(ns) => Some(ns.metadata),
        _ => None,
    }
}

/// CallsiteMeta equality by content: every field compared by value, strings by
/// their character sequences.  Two records of one recording that carry the
/// same capture-time `id` are expected to agree in this sense.
pub open spec fn meta_content_eq(a: CallsiteMeta, b: CallsiteMeta) -> bool {
    &&& a.id == b.id
    &&& a.name@ == b.name@
    &&& a.target@ == b.target@
    &&& a.level == b.level
    &&& opt_str_eq(a.module, b.module)
    &&& opt_str_eq(a.file, b.file)
    &&& a.line == b.line
    &&& str_seq_eq(a.fields@, b.fields@)
    &&& a.kind == b.kind
}

/// Equality of optional strings by content.
pub open spec fn opt_str_eq(a: Option<String>, b: Option<String>) -> bool {
    match (a, b) {
        (Some(x), Some(y)) => x@ == y@,
        (None, None) => true,
        _ => false,
    }
}

/// Equality of string sequences by content.
pub open spec fn str_seq_eq(a: Seq<String>, b: Seq<String>) -> bool {
    a.len() == b.len() && (forall|i: int| 0 <= i < a.len() ==> #[trigger] a[i]@ == b[i]@)
}

} // verus!
