//! Context-gated cells: storage whose accessors demand the matching
//! execution-context marker as an argument, so that the *type* of the
//! access method — not a run-time flag — decides whether an access is
//! permitted.

use crate::context::InitCtx;
use crate::context::MainCtx;
use vstd::prelude::*;

verus! {

/// A cell that can only be accessed from `main()` context.
///
/// There is no way to access `T` from interrupt context.
/// Therefore, all allowed accesses to `T` (from main context)
/// do not need to disable interrupts or take any other measures
/// against interruption.
///
/// All accesses to `T` are simple memory reads/writes: the writing
/// accessors take the cell exclusively, which on the single hardware
/// thread this design is for costs nothing and lets every access be
/// checked against the cell's stated contents.
pub struct MainCtxCell<T> {
    inner: T,
}

impl<T> MainCtxCell<T> {
    /// The value the cell currently stores.
    pub closed spec fn value(self) -> T {
        self.inner
    }

    /// Wrap `inner` in a new cell. Always safe: there is no
    /// uninitialized window.
    pub fn new(inner: T) -> (r: Self)
        ensures
            r.value() == inner,
    {
        MainCtxCell { inner }
    }

    /// Store `inner` and hand back the previous contents.
    pub fn replace(&mut self, _m: &MainCtx, inner: T) -> (r: T)
        ensures
            r == old(self).value(),
            final(self).value() == inner,
    {
        let mut prev = inner;
        core::mem::swap(&mut self.inner, &mut prev);
        prev
    }

    /// Borrow the current contents; the reference must not be
    /// retained past the main-context scope it was produced in.
    pub fn as_ref(&self, _m: &MainCtx) -> (r: &T)
        ensures
            *r == self.value(),
    {
        &self.inner
    }
}

impl<T: Copy> MainCtxCell<T> {
    /// A copy of the current contents.
    pub fn get(&self, _m: &MainCtx) -> (r: T)
        ensures
            r == self.value(),
    {
        self.inner
    }

    /// Store `inner`, overwriting the previous contents.
    pub fn set(&mut self, _m: &MainCtx, inner: T)
        ensures
            final(self).value() == inner,
    {
        self.inner = inner;
    }
}

/// Lazy one-time initialization of process-lifetime data.
///
/// The cell starts logically uninitialized; exactly one initializing
/// write, presenting an [`InitCtx`], must happen before any read.
/// After that single write the cell is permanently initialized,
/// read-only, shared data: no accessor mutates it again.
///
/// Reading before the initializing write, and writing twice, are
/// rejected when callers are checked — they are not run-time faults.
///
/// The cell represents "not yet initialized" explicitly, so it costs
/// one discriminant beyond the payload; a zero-sized payload therefore
/// does not make the cell itself zero-sized, unlike [`MainCtxCell`].
pub struct InitCtxCell<T> {
    inner: Option<T>,
}

impl<T> InitCtxCell<T> {
    /// Whether the one initializing write has already happened.
    pub closed spec fn is_init(self) -> bool {
        self.inner is Some
    }

    /// The stored value; meaningful only once `is_init()` holds.
    pub closed spec fn value(self) -> T {
        self.inner->Some_0
    }

    /// A new, logically uninitialized cell.
    ///
    /// [`Self::init`] must be called, during construction of the
    /// [`crate::MainCtx`], before any read.
    /// See [`crate::MainCtx::new_with_init`].
    pub fn uninit() -> (r: Self)
        ensures
            !r.is_init(),
    {
        InitCtxCell { inner: None }
    }

    /// The one initializing write; returns a borrow of the freshly
    /// stored value.
    ///
    /// A second initializing write is rejected outright rather than
    /// tolerated as a value-leaking overwrite: the precondition closes
    /// that gap.
    pub fn init(&mut self, _m: &InitCtx, inner: T) -> (r: &T)
        requires
            !old(self).is_init(),
        ensures
            final(self).is_init(),
            final(self).value() == inner,
            *r == inner,
    {
        self.inner = Some(inner);
        match &self.inner {
            Some(v) => v,
            None => vstd::pervasive::unreached(),
        }
    }

    /// Read the initialized value. Usable from any context: after the
    /// one initializing write the cell is shared, read-only data.
    pub fn read(&self) -> (r: &T)
        requires
            self.is_init(),
        ensures
            *r == self.value(),
    {
        match &self.inner {
            Some(v) => v,
            None => vstd::pervasive::unreached(),
        }
    }
}

} // verus!
