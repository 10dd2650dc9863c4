//! The field/value adapter.
//!
//! A callsite declares a fixed set of field names.  Recorded values whose
//! name is not in that set are dropped silently, and the backend's call
//! interface only takes a bounded number of arguments, so the kept values
//! are truncated to that bound.

use vstd::prelude::*;

use crate::recording::Field;

verus! {

/// Hard limit of the backend integration: its variable-arity call
/// interface accepts at most this many fields in one call; any surplus
/// is truncated.
pub const MAX_DISPATCH_FIELDS: usize = 32;

/// Whether `name` appears (by content) in the declared name set.
pub open spec fn name_declared(declared: Seq<String>, name: Seq<char>) -> bool {
    exists|i: int| 0 <= i < declared.len() && #[trigger] declared[i]@ == name
}

/// The recorded fields whose names the callsite declares, in recorded
/// order, before truncation.
pub open spec fn filter_declared(declared: Seq<String>, fs: Seq<Field>) -> Seq<Field>
    decreases fs.len(),
{
    if fs.len() == 0 {
        Seq::<Field>::empty()
    } else {
        let rest = filter_declared(declared, fs.drop_last());
        if name_declared(declared, fs.last().name@) {
            rest.push(fs.last())
        } else {
            rest
        }
    }
}

/// What the adapter hands to the backend: the declared fields, truncated
/// to the arity bound.
pub open spec fn adapted_fields(declared: Seq<String>, fs: Seq<Field>) -> Seq<Field> {
    let kept = filter_declared(declared, fs);
    if kept.len() <= MAX_DISPATCH_FIELDS {
        kept
    } else {
        kept.take(MAX_DISPATCH_FIELDS as int)
    }
}

/// Whether `name` appears in `declared`, by content.
pub fn is_declared(declared: &Vec<String>, name: &String) -> (r: bool)
    ensures
        r == name_declared(declared@, name@),
{
    let mut i: usize = 0;
    while i < declared.len()
        invariant
            i <= declared.len(),
            forall|j: int| 0 <= j < i ==> #[trigger] declared@[j]@ != name@,
        decreases declared.len() - i,
    {
        if declared[i].eq(name) {
            return true;
        }
        i = i + 1;
    }
    false
}

/// Builds the value list for one backend call: keeps exactly the recorded
/// fields whose names the callsite declares, in order, truncated to
/// `MAX_DISPATCH_FIELDS`.  A name outside the declared set is never
/// forwarded.
pub fn adapt_fields(declared: &Vec<String>, fs: &Vec<Field>) -> (r: Vec<Field>)
    ensures
        r@ == adapted_fields(declared@, fs@),
        r@.len() <= MAX_DISPATCH_FIELDS,
        forall|i: int| 0 <= i < r@.len() ==> name_declared(declared@, #[trigger] r@[i].name@),
{
    let mut r: Vec<Field> = Vec::new();
    let mut i: usize = 0;
    while i < fs.len()
        invariant
            i <= fs.len(),
            r@ == adapted_fields(declared@, fs@.take(i as int)),
            r@.len() <= filter_declared(declared@, fs@.take(i as int)).len(),
        decreases fs.len() - i,
    {
        proof {
            assert(fs@.take(i + 1).drop_last() =~= fs@.take(i as int));
            assert(fs@.take(i + 1).last() == fs@[i as int]);
        }
        if is_declared(declared, &fs[i].name) {
            proof {
                lemma_adapted_grow(declared@, fs@.take(i + 1));
            }
            if r.len() < MAX_DISPATCH_FIELDS {
                proof {
                    assert(filter_declared(declared@, fs@.take(i as int)).len()
                        < MAX_DISPATCH_FIELDS);
                }
                r.push(fs[i].clone());
            } else {
                proof {
                    assert(filter_declared(declared@, fs@.take(i as int)).len()
                        >= MAX_DISPATCH_FIELDS);
                }
            }
        } else {
            proof {
                assert(filter_declared(declared@, fs@.take(i + 1)) == filter_declared(
                    declared@,
                    fs@.take(i as int),
                ));
            }
        }
        i = i + 1;
    }
    proof {
        assert(fs@.take(fs@.len() as int) =~= fs@);
        lemma_filter_bounds(declared@, fs@);
    }
    proof {
        lemma_adapted_props(declared@, fs@);
    }
    r
}

/// Truncation keeps a prefix: pushing a kept field onto the filtered
/// sequence extends the adapted sequence only while it is below the
/// bound.
proof fn lemma_adapted_grow(declared: Seq<String>, fs: Seq<Field>)
    requires
        fs.len() > 0,
        name_declared(declared, fs.last().name@),
    ensures
        adapted_fields(declared, fs) == if filter_declared(declared, fs.drop_last()).len()
            < MAX_DISPATCH_FIELDS {
            adapted_fields(declared, fs.drop_last()).push(fs.last())
        } else {
            adapted_fields(declared, fs.drop_last())
        },
{
    let prev = filter_declared(declared, fs.drop_last());
    let cur = filter_declared(declared, fs);
    assert(cur == prev.push(fs.last()));
    if prev.len() < MAX_DISPATCH_FIELDS {
        if cur.len() <= MAX_DISPATCH_FIELDS {
            assert(adapted_fields(declared, fs.drop_last()) =~= prev);
            assert(adapted_fields(declared, fs) =~= prev.push(fs.last()));
        }
    } else {
        assert(cur.take(MAX_DISPATCH_FIELDS as int) =~= prev.take(MAX_DISPATCH_FIELDS as int));
    }
}

/// The filtered sequence is never longer than its source.
proof fn lemma_filter_bounds(declared: Seq<String>, fs: Seq<Field>)
    ensures
        filter_declared(declared, fs).len() <= fs.len(),
    decreases fs.len(),
{
    if fs.len() > 0 {
        lemma_filter_bounds(declared, fs.drop_last());
    }
}

/// Every adapted field keeps a declared name.
proof fn lemma_adapted_props(declared: Seq<String>, fs: Seq<Field>)
    ensures
        adapted_fields(declared, fs).len() <= MAX_DISPATCH_FIELDS,
        forall|i: int|
            0 <= i < adapted_fields(declared, fs).len() ==> name_declared(
                declared,
                #[trigger] adapted_fields(declared, fs)[i].name@,
            ),
    decreases fs.len(),
{
    lemma_filter_props(declared, fs);
}

/// Every filtered field keeps a declared name.
proof fn lemma_filter_props(declared: Seq<String>, fs: Seq<Field>)
    ensures
        forall|i: int|
            0 <= i < filter_declared(declared, fs).len() ==> name_declared(
                declared,
                #[trigger] filter_declared(declared, fs)[i].name@,
            ),
    decreases fs.len(),
{
    if fs.len() > 0 {
        lemma_filter_props(declared, fs.drop_last());
        let rest = filter_declared(declared, fs.drop_last());
        let cur = filter_declared(declared, fs);
        assert(forall|i: int| 0 <= i < rest.len() ==> cur[i] == rest[i]);
    }
}

} // verus!
