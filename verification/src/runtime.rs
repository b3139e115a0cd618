//! In-process runtimes supplying the primitive lifecycle operations.
//!
//! Each runtime here plays the part of the foreign allocator for one
//! wrapped type, holding its allocations in plain memory: a slot per
//! handle, index `0` permanently unallocated so that `0` can serve as the
//! null sentinel. They exist so the dispatcher's wrappers can be
//! instantiated and exercised end to end, and they are verified against
//! the very contracts the wrappers build on.

use vstd::prelude::*;

use crate::wrapper::BoxedOps;
use crate::wrapper::ObjectOps;
use crate::wrapper::RefcountOps;

verus! {

/// The type identity [`WidgetStore`] reports for its objects.
pub const WIDGET_TYPE: u64 = 101;

/// A capability every [`WidgetStore`] object declares: the common base type.
pub const BASE_CAPABILITY: u64 = 1;

/// A capability every [`WidgetStore`] object declares: the drawable surface.
pub const DRAWABLE_CAPABILITY: u64 = 2;

/// A value-semantics runtime: every allocation holds one word of content,
/// owned by exactly one wrapper.
pub struct ValueStore {
    cells: Vec<Option<u64>>,
}

impl ValueStore {
    /// A runtime with nothing allocated.
    pub fn new() -> (s: ValueStore)
        ensures
            s.live() == Map::<usize, u64>::empty(),
    {
        let s = ValueStore { cells: Vec::new() };
        proof {
            assert(s.live() =~= Map::<usize, u64>::empty());
        }
        s
    }

    /// Allocates a fresh value holding `content` and hands its handle over
    /// to the caller, for a wrapper to take ownership of.
    pub fn allocate(&mut self, content: u64) -> (h: usize)
        ensures
            h != 0,
            !old(self).live().dom().contains(h),
            final(self).live() == old(self).live().insert(h, content),
    {
        if self.cells.len() == 0 {
            // keep slot 0 unallocated, so 0 stays the null sentinel
            self.cells.push(None);
            proof {
                assert(self.live() =~= old(self).live());
            }
        }
        let ghost mid = self.live();
        let h = self.cells.len();
        self.cells.push(Some(content));
        proof {
            assert(self.live() =~= mid.insert(h, content));
        }
        h
    }

    /// Reads the content behind a live handle.
    pub fn read(&self, h: usize) -> (c: u64)
        requires
            self.live().dom().contains(h),
        ensures
            c == self.live()[h],
    {
        self.cells[h].unwrap()
    }

    /// Whether `h` is currently allocated.
    pub fn is_live(&self, h: usize) -> (b: bool)
        ensures
            b == self.live().dom().contains(h),
    {
        h != 0 && h < self.cells.len() && self.cells[h].is_some()
    }
}

impl BoxedOps for ValueStore {
    type Content = u64;

    closed spec fn live(&self) -> Map<usize, u64> {
        Map::new(
            |h: usize| 1 <= h < self.cells@.len() && self.cells@[h as int] is Some,
            |h: usize| self.cells@[h as int]->0,
        )
    }

    fn copy(&mut self, h: usize) -> (r: usize) {
        let content = self.cells[h].unwrap();
        let r = self.cells.len();
        self.cells.push(Some(content));
        proof {
            assert(self.live() =~= old(self).live().insert(r, old(self).live()[h]));
        }
        r
    }

    fn free(&mut self, h: usize) {
        self.cells[h] = None;
        proof {
            assert(self.live() =~= old(self).live().remove(h));
        }
    }
}

/// A refcounting runtime for anonymous shared blobs: every live handle
/// carries the number of logical references held on it, and the runtime
/// frees the slot the moment that number reaches zero.
pub struct SharedStore {
    refs: Vec<u64>,
}

impl SharedStore {
    /// A runtime with nothing allocated.
    pub fn new() -> (s: SharedStore)
        ensures
            s.counts() == Map::<usize, nat>::empty(),
    {
        let s = SharedStore { refs: Vec::new() };
        proof {
            assert(s.counts() =~= Map::<usize, nat>::empty());
        }
        s
    }

    /// Allocates a fresh blob already holding one logical reference, and
    /// hands its handle over to the caller, for a wrapper to take
    /// ownership of.
    pub fn allocate(&mut self) -> (h: usize)
        ensures
            h != 0,
            !old(self).counts().dom().contains(h),
            final(self).counts() == old(self).counts().insert(h, 1nat),
    {
        if self.refs.len() == 0 {
            // keep slot 0 unallocated, so 0 stays the null sentinel
            self.refs.push(0);
            proof {
                assert(self.counts() =~= old(self).counts());
            }
        }
        let ghost mid = self.counts();
        let h = self.refs.len();
        self.refs.push(1);
        proof {
            assert(self.counts() =~= mid.insert(h, 1nat));
        }
        h
    }

    /// Whether `h` currently has at least one logical reference.
    pub fn is_live(&self, h: usize) -> (b: bool)
        ensures
            b == self.counts().dom().contains(h),
    {
        h != 0 && h < self.refs.len() && self.refs[h] > 0
    }

    /// The number of logical references currently held on a live handle.
    pub fn ref_count(&self, h: usize) -> (c: u64)
        requires
            self.counts().dom().contains(h),
        ensures
            c as nat == self.counts()[h],
    {
        self.refs[h]
    }
}

impl RefcountOps for SharedStore {
    closed spec fn counts(&self) -> Map<usize, nat> {
        Map::new(
            |h: usize| 1 <= h < self.refs@.len() && self.refs@[h as int] > 0,
            |h: usize| self.refs@[h as int] as nat,
        )
    }

    fn inc_ref(&mut self, h: usize) {
        let c = self.refs[h];
        self.refs[h] = c + 1;
        proof {
            assert(self.counts() =~= old(self).counts().insert(
                h,
                (old(self).counts()[h] + 1) as nat,
            ));
        }
    }

    fn dec_ref(&mut self, h: usize) {
        let c = self.refs[h];
        self.refs[h] = c - 1;
        proof {
            if old(self).counts()[h] == 1 {
                assert(self.counts() =~= old(self).counts().remove(h));
            } else {
                assert(self.counts() =~= old(self).counts().insert(
                    h,
                    (old(self).counts()[h] - 1) as nat,
                ));
            }
        }
    }
}

/// A refcounting runtime whose allocations are polymorphic objects of one
/// concrete type: widgets. It keeps references the way [`SharedStore`]
/// does, reports [`WIDGET_TYPE`] as the type identity, and declares the
/// base and drawable capabilities.
pub struct WidgetStore {
    base: SharedStore,
}

impl WidgetStore {
    /// A runtime with nothing allocated.
    pub fn new() -> (s: WidgetStore)
        ensures
            s.counts() == Map::<usize, nat>::empty(),
    {
        WidgetStore { base: SharedStore::new() }
    }

    /// Allocates a fresh widget already holding one logical reference.
    pub fn allocate(&mut self) -> (h: usize)
        ensures
            h != 0,
            !old(self).counts().dom().contains(h),
            final(self).counts() == old(self).counts().insert(h, 1nat),
    {
        self.base.allocate()
    }

    /// Whether `h` currently has at least one logical reference.
    pub fn is_live(&self, h: usize) -> (b: bool)
        ensures
            b == self.counts().dom().contains(h),
    {
        self.base.is_live(h)
    }

    /// The number of logical references currently held on a live handle.
    pub fn ref_count(&self, h: usize) -> (c: u64)
        requires
            self.counts().dom().contains(h),
        ensures
            c as nat == self.counts()[h],
    {
        self.base.ref_count(h)
    }
}

impl RefcountOps for WidgetStore {
    closed spec fn counts(&self) -> Map<usize, nat> {
        self.base.counts()
    }

    fn inc_ref(&mut self, h: usize) {
        self.base.inc_ref(h);
    }

    fn dec_ref(&mut self, h: usize) {
        self.base.dec_ref(h);
    }
}

impl ObjectOps for WidgetStore {
    open spec fn type_identity() -> u64 {
        WIDGET_TYPE
    }

    open spec fn capabilities() -> Set<u64> {
        set![BASE_CAPABILITY, DRAWABLE_CAPABILITY]
    }

    fn get_type() -> (t: u64) {
        WIDGET_TYPE
    }

    fn declares(c: u64) -> (b: bool) {
        c == BASE_CAPABILITY || c == DRAWABLE_CAPABILITY
    }
}

} // verus!
