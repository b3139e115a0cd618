//! The ownership-model dispatcher.
//!
//! A foreign runtime owns resources that reach this crate as raw handles:
//! plain machine words where `0` is the null sentinel meaning "absent, no
//! resource". Each foreign type supplies a small set of primitive lifecycle
//! operations, and the dispatcher turns them into a complete wrapper value
//! — construction, duplication, release and raw-handle access — correct for
//! one of three ownership disciplines:
//!
//! * [`Boxed`]: value semantics; exactly one owner per allocation,
//!   duplication is always a deep foreign copy ([`BoxedOps`]);
//! * [`Refcounted`]: shared semantics; many owners alias one handle, each
//!   holding one logical reference ([`RefcountOps`]);
//! * [`Object`]: shared semantics plus a type identity captured at
//!   construction and a fixed capability list ([`ObjectOps`]).
//!
//! Every contract below is stated against the supplying runtime's own
//! model — the map of live handles to contents, or to reference counts —
//! so double frees, leaked references and aliasing under value semantics
//! are ruled out at this seam, not discovered behind it.
//!
//! Nothing here adds synchronization: sharing a refcounted value across
//! threads is sound only as far as the supplied primitives themselves are.

use vstd::prelude::*;

verus! {

/// A wrapper struct around one foreign resource.
pub trait Wrapper {
    /// Foreign type represented by the struct.
    type GlibType: 'static;
}

/// The uniform seam through which code reaches a raw foreign handle
/// instead of touching it directly: every wrapper value can be built from
/// a handle it takes ownership of, and lends its handle out read-only.
pub trait Container: Sized {
    /// The raw handle currently held; `0` means absent.
    spec fn handle(&self) -> usize;

    /// Takes ownership of a handle that is already valid for the wrapper's
    /// ownership model (freshly allocated, or already counted once for the
    /// new owner). A handle of `0` yields an absent value.
    fn wrap(h: usize) -> (v: Self)
        ensures
            v.handle() == h,
    ;

    /// Read-only access to the raw handle. The caller must not release it
    /// or alter its reference count.
    fn unwrap(&self) -> (h: usize)
        ensures
            h == self.handle(),
    ;
}

/// The two primitive operations a foreign type with value semantics
/// supplies: a deep copy and a free.
pub trait BoxedOps {
    /// The mathematical content of one foreign value.
    type Content;

    /// The handles the runtime currently has allocated, each with the
    /// content stored behind it. Handle `0` is never allocated.
    spec fn live(&self) -> Map<usize, Self::Content>;

    /// Deep-copies the value behind `h` into a fresh allocation and
    /// returns its handle, or returns `0` when the foreign allocation
    /// fails; nothing else in the runtime changes.
    fn copy(&mut self, h: usize) -> (r: usize)
        requires
            h != 0,
            old(self).live().dom().contains(h),
        ensures
            r != 0 ==> r != h && !old(self).live().dom().contains(r) && final(self).live()
                == old(self).live().insert(r, old(self).live()[h]),
            r == 0 ==> final(self).live() == old(self).live(),
    ;

    /// Frees exactly the allocation behind `h`, and nothing else.
    fn free(&mut self, h: usize)
        requires
            h != 0,
            old(self).live().dom().contains(h),
        ensures
            final(self).live() == old(self).live().remove(h),
    ;
}

/// The two primitive operations a refcounted foreign type supplies:
/// taking and giving up one logical reference.
pub trait RefcountOps {
    /// The reference count of every live handle. A handle leaves the map
    /// when the runtime frees it at count zero; the wrapper itself never
    /// observes or acts on the zero. Handle `0` is never allocated.
    spec fn counts(&self) -> Map<usize, nat>;

    /// Takes one more logical reference on `h`. The runtime keeps the
    /// count in a machine word, so a count at the cap cannot grow.
    fn inc_ref(&mut self, h: usize)
        requires
            h != 0,
            old(self).counts().dom().contains(h),
            old(self).counts()[h] < u64::MAX,
        ensures
            final(self).counts() == old(self).counts().insert(
                h,
                (old(self).counts()[h] + 1) as nat,
            ),
    ;

    /// Gives up one logical reference on `h`. This must be called exactly
    /// once per logical reference held; the runtime frees the allocation
    /// when the last reference goes.
    fn dec_ref(&mut self, h: usize)
        requires
            h != 0,
            old(self).counts().dom().contains(h),
        ensures
            old(self).counts()[h] == 1 ==> final(self).counts() == old(self).counts().remove(h),
            old(self).counts()[h] != 1 ==> final(self).counts() == old(self).counts().insert(
                h,
                (old(self).counts()[h] - 1) as nat,
            ),
    ;
}

/// The primitive operations a polymorphic foreign type supplies: the
/// refcounting pair, its type identity, and its declared capability list.
pub trait ObjectOps: RefcountOps {
    /// The type identity of this foreign type: pure and stable.
    spec fn type_identity() -> u64;

    /// The capability list: the fixed set of base types and interfaces
    /// this wrapper type declares conformance to, fixed at the type's
    /// definition, never per instance.
    spec fn capabilities() -> Set<u64>;

    /// Asks the runtime for the type identity.
    fn get_type() -> (t: u64)
        ensures
            t == Self::type_identity(),
    ;

    /// Whether this wrapper type declares conformance to capability `c`.
    fn declares(c: u64) -> (b: bool)
        ensures
            b == Self::capabilities().contains(c),
    ;
}

/// Law of the container seam: for every ownership model, unwrapping a
/// freshly wrapped handle reproduces that handle exactly, the null handle
/// included.
pub fn wrap_round_trip<W: Container>(h: usize) -> (r: usize)
    ensures
        r == h,
{
    let v = W::wrap(h);
    v.unwrap()
}

/// A wrapper with value semantics. Exactly one `Boxed` value owns an
/// allocation; [`Boxed::duplicate`] is the only way to a second,
/// independently owned instance, and it never aliases.
pub struct Boxed {
    handle: usize,
}

impl Wrapper for Boxed {
    type GlibType = usize;
}

impl Container for Boxed {
    closed spec fn handle(&self) -> usize {
        self.handle
    }

    fn wrap(h: usize) -> (v: Self) {
        Boxed { handle: h }
    }

    fn unwrap(&self) -> (h: usize) {
        self.handle
    }
}

impl Boxed {
    /// Deep-copies the owned value through the foreign copy primitive.
    /// Duplicating an absent value yields an absent value; a failed
    /// foreign allocation also yields an absent value, never a crash.
    /// A successful copy lives behind a fresh handle, distinct from this
    /// one, holding equal content.
    pub fn duplicate<R: BoxedOps>(&self, rt: &mut R) -> (w: Boxed)
        requires
            self.handle() != 0 ==> old(rt).live().dom().contains(self.handle()),
        ensures
            self.handle() == 0 ==> w.handle() == 0 && final(rt).live() == old(rt).live(),
            self.handle() != 0 && w.handle() != 0 ==> w.handle() != self.handle() && !old(rt).live().dom().contains(w.handle()) && final(rt).live() == old(rt).live().insert(
                w.handle(),
                old(rt).live()[self.handle()],
            ),
            self.handle() != 0 && w.handle() == 0 ==> final(rt).live() == old(rt).live(),
    {
        if self.handle == 0 {
            Boxed { handle: 0 }
        } else {
            let h = rt.copy(self.handle);
            Boxed { handle: h }
        }
    }

    /// Releases the owned value through the foreign free primitive,
    /// exactly once, then goes absent. On an absent value this is a
    /// no-op, so a redundant second release cannot double-free.
    pub fn release<R: BoxedOps>(&mut self, rt: &mut R)
        requires
            old(self).handle() != 0 ==> old(rt).live().dom().contains(old(self).handle()),
        ensures
            final(self).handle() == 0,
            old(self).handle() == 0 ==> final(rt).live() == old(rt).live(),
            old(self).handle() != 0 ==> final(rt).live() == old(rt).live().remove(
                old(self).handle(),
            ),
    {
        if self.handle != 0 {
            rt.free(self.handle);
            self.handle = 0;
        }
    }
}

/// Law of value semantics: once a duplicate exists behind its own fresh
/// handle with equal content, releasing either owner leaves the other
/// owner's allocation live and its content untouched.
pub proof fn lemma_value_copy_independent<C>(live: Map<usize, C>, orig: usize, dup: usize)
    requires
        live.dom().contains(orig),
        live.dom().contains(dup),
        dup != orig,
        live[dup] == live[orig],
    ensures
        live.remove(orig).dom().contains(dup),
        live.remove(orig)[dup] == live[orig],
        live.remove(dup).dom().contains(orig),
        live.remove(dup)[orig] == live[orig],
{
}

/// A wrapper with shared semantics over an anonymous refcounted blob.
/// Many `Refcounted` values may alias one handle; each holds exactly one
/// logical reference, and no identity or type information is tracked.
pub struct Refcounted {
    handle: usize,
}

impl Wrapper for Refcounted {
    type GlibType = usize;
}

impl Container for Refcounted {
    closed spec fn handle(&self) -> usize {
        self.handle
    }

    fn wrap(h: usize) -> (v: Self) {
        Refcounted { handle: h }
    }

    fn unwrap(&self) -> (h: usize) {
        self.handle
    }
}

impl Refcounted {
    /// Takes one more logical reference and aliases the same handle: the
    /// duplicate's handle equals this one's. Duplicating an absent value
    /// yields an absent value and touches no count.
    pub fn duplicate<R: RefcountOps>(&self, rt: &mut R) -> (w: Refcounted)
        requires
            self.handle() != 0 ==> old(rt).counts().dom().contains(self.handle()) && old(rt).counts()[self.handle()] < u64::MAX,
        ensures
            w.handle() == self.handle(),
            self.handle() == 0 ==> final(rt).counts() == old(rt).counts(),
            self.handle() != 0 ==> final(rt).counts() == old(rt).counts().insert(
                self.handle(),
                (old(rt).counts()[self.handle()] + 1) as nat,
            ),
    {
        if self.handle != 0 {
            rt.inc_ref(self.handle);
        }
        Refcounted { handle: self.handle }
    }

    /// Gives up this value's one logical reference, then goes absent.
    /// Whether the allocation survives is the runtime's business: it is
    /// freed there exactly when the last reference goes. On an absent
    /// value this is a no-op, so a redundant second release is safe.
    pub fn release<R: RefcountOps>(&mut self, rt: &mut R)
        requires
            old(self).handle() != 0 ==> old(rt).counts().dom().contains(old(self).handle()),
        ensures
            final(self).handle() == 0,
            old(self).handle() == 0 ==> final(rt).counts() == old(rt).counts(),
            old(self).handle() != 0 && old(rt).counts()[old(self).handle()] == 1 ==> final(rt).counts() == old(rt).counts().remove(old(self).handle()),
            old(self).handle() != 0 && old(rt).counts()[old(self).handle()] != 1 ==> final(rt).counts() == old(rt).counts().insert(
                old(self).handle(),
                (old(rt).counts()[old(self).handle()] - 1) as nat,
            ),
    {
        if self.handle != 0 {
            rt.dec_ref(self.handle);
            self.handle = 0;
        }
    }
}

/// Law of shared semantics: starting from any live handle, taking one
/// more reference (a duplicate) and then giving one up (a release of
/// either alias) leaves the handle live, back at its original count, so
/// the remaining alias stays usable.
pub proof fn lemma_refcount_alias_survives(counts: Map<usize, nat>, h: usize)
    requires
        counts.dom().contains(h),
        counts[h] >= 1,
    ensures
        ({
            let after_dup = counts.insert(h, (counts[h] + 1) as nat);
            let after_rel = after_dup.insert(h, (after_dup[h] - 1) as nat);
            &&& after_dup[h] != 1
            &&& after_rel.dom().contains(h)
            &&& after_rel[h] == counts[h]
        }),
{
}

/// A wrapper for a polymorphic foreign object: refcounted like
/// [`Refcounted`], and additionally carrying the type identity captured
/// from the runtime at construction, never mutated afterwards.
pub struct Object {
    handle: usize,
    type_id: u64,
}

impl Wrapper for Object {
    type GlibType = usize;
}

impl Object {
    /// The raw handle currently held; `0` means absent.
    pub closed spec fn handle(&self) -> usize {
        self.handle
    }

    /// The type identity captured when this value was constructed.
    pub closed spec fn type_id(&self) -> u64 {
        self.type_id
    }

    /// Takes ownership of a handle that is already counted once for the
    /// new owner, capturing the type identity from the runtime. A handle
    /// of `0` yields an absent value (its captured identity is still the
    /// wrapper type's own, fixed one).
    pub fn wrap<R: ObjectOps>(h: usize) -> (v: Object)
        ensures
            v.handle() == h,
            v.type_id() == R::type_identity(),
    {
        Object { handle: h, type_id: R::get_type() }
    }

    /// Read-only access to the raw handle. The caller must not release it
    /// or alter its reference count.
    pub fn unwrap(&self) -> (h: usize)
        ensures
            h == self.handle(),
    {
        self.handle
    }

    /// The type identity captured at construction.
    pub fn get_type(&self) -> (t: u64)
        ensures
            t == self.type_id(),
    {
        self.type_id
    }

    /// Whether this value may be viewed upward as capability `c`: true
    /// exactly when the wrapper type declares `c`. Narrowing the other
    /// way is deliberately not offered here; a downward conversion is an
    /// external collaborator's job and must check the type identity first.
    pub fn conforms_to<R: ObjectOps>(&self, c: u64) -> (b: bool)
        ensures
            b == R::capabilities().contains(c),
    {
        R::declares(c)
    }

    /// Takes one more logical reference and aliases the same handle; the
    /// duplicate carries the same captured type identity. Duplicating an
    /// absent value yields an absent value and touches no count.
    pub fn duplicate<R: ObjectOps>(&self, rt: &mut R) -> (w: Object)
        requires
            self.handle() != 0 ==> old(rt).counts().dom().contains(self.handle()) && old(rt).counts()[self.handle()] < u64::MAX,
        ensures
            w.handle() == self.handle(),
            w.type_id() == self.type_id(),
            self.handle() == 0 ==> final(rt).counts() == old(rt).counts(),
            self.handle() != 0 ==> final(rt).counts() == old(rt).counts().insert(
                self.handle(),
                (old(rt).counts()[self.handle()] + 1) as nat,
            ),
    {
        if self.handle != 0 {
            rt.inc_ref(self.handle);
        }
        Object { handle: self.handle, type_id: self.type_id }
    }

    /// Gives up this value's one logical reference, then goes absent;
    /// the runtime frees the object exactly when the last reference goes.
    /// On an absent value this is a no-op, so a redundant second release
    /// is safe.
    pub fn release<R: ObjectOps>(&mut self, rt: &mut R)
        requires
            old(self).handle() != 0 ==> old(rt).counts().dom().contains(old(self).handle()),
        ensures
            final(self).handle() == 0,
            final(self).type_id() == old(self).type_id(),
            old(self).handle() == 0 ==> final(rt).counts() == old(rt).counts(),
            old(self).handle() != 0 && old(rt).counts()[old(self).handle()] == 1 ==> final(rt).counts() == old(rt).counts().remove(old(self).handle()),
            old(self).handle() != 0 && old(rt).counts()[old(self).handle()] != 1 ==> final(rt).counts() == old(rt).counts().insert(
                old(self).handle(),
                (old(rt).counts()[old(self).handle()] - 1) as nat,
            ),
    {
        if self.handle != 0 {
            rt.dec_ref(self.handle);
            self.handle = 0;
        }
    }
}

} // verus!
