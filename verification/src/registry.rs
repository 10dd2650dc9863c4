//! The metadata registry.
//!
//! Callsite descriptors are interned in an arena keyed by their
//! capture-time identifier.  The arena only grows; an entry's index is a
//! stable handle for the rest of the replay, and the same capture
//! identifier always resolves to the same handle.

use vstd::prelude::*;

use crate::recording::CallsiteMeta;

verus! {

/// Whether some entry of `s` carries capture identifier `id`.
pub open spec fn has_id(s: Seq<CallsiteMeta>, id: u64) -> bool {
    exists|i: int| 0 <= i < s.len() && #[trigger] s[i].id == id
}

/// Arena of interned callsite descriptors, keyed by capture identifier.
#[derive(Debug)]
pub struct MetadataRegistry {
    entries: Vec<CallsiteMeta>,
}

impl View for MetadataRegistry {
    type V = Seq<CallsiteMeta>;

    closed spec fn view(&self) -> Seq<CallsiteMeta> {
        self.entries@
    }
}

impl MetadataRegistry {
    /// No two entries carry the same capture identifier.
    pub open spec fn wf(self) -> bool {
        forall|i: int, j: int|
            0 <= i < j < self@.len() ==> #[trigger] self@[i].id != #[trigger] self@[j].id
    }

    pub fn new() -> (r: MetadataRegistry)
        ensures
            r@ == Seq::<CallsiteMeta>::empty(),
            r.wf(),
    {
        MetadataRegistry { entries: Vec::new() }
    }

    pub fn len(&self) -> (n: usize)
        ensures
            n == self@.len(),
    {
        self.entries.len()
    }

    /// The descriptor a handle stands for.
    pub fn get(&self, handle: usize) -> (m: &CallsiteMeta)
        requires
            handle < self@.len(),
        ensures
            *m == self@[handle as int],
    {
        &self.entries[handle]
    }

    /// The handle of the entry carrying capture identifier `id`, if any.
    pub fn find(&self, id: u64) -> (r: Option<usize>)
        requires
            self.wf(),
        ensures
            match r {
                Some(h) => h < self@.len() && self@[h as int].id == id,
                None => !has_id(self@, id),
            },
    {
        let mut i: usize = 0;
        while i < self.entries.len()
            invariant
                i <= self@.len(),
                forall|j: int| 0 <= j < i ==> (#[trigger] self@[j].id) != id,
            decreases self@.len() - i,
        {
            if self.entries[i].id == id {
                return Some(i);
            }
            i = i + 1;
        }
        None
    }

    /// Interns a descriptor.  On first sight of its capture identifier
    /// the descriptor is appended and the second component is true: the
    /// caller owes the backend one registration.  On every later sight
    /// the existing handle comes back unchanged.
    pub fn get_or_register(&mut self, meta: CallsiteMeta) -> (r: (usize, bool))
        requires
            old(self).wf(),
        ensures
            final(self).wf(),
            r.1 == !has_id(old(self)@, meta.id),
            r.1 ==> final(self)@ == old(self)@.push(meta) && r.0 == old(self)@.len(),
            !r.1 ==> final(self)@ == old(self)@ && r.0 < old(self)@.len() && old(self)@[r.0 as int].id
                == meta.id,
            r.0 < final(self)@.len(),
            final(self)@[r.0 as int].id == meta.id,
    {
        match self.find(meta.id) {
            Some(h) => (h, false),
            None => {
                let h = self.entries.len();
                self.entries.push(meta);
                (h, true)
            },
        }
    }
}

} // verus!
