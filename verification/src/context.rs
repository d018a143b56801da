//! Execution-context markers: typed witnesses of which phase of the
//! program is running — one-time initialization, the main loop, or an
//! interrupt handler — and the critical-section witness that the
//! interrupt-masked phases hand out.
//!
//! On the intended single-core target, "interrupts are masked" is
//! equivalent to "no other context can run concurrently", which is the
//! only fact the gated cells in [`crate::cell`] need. The markers are
//! zero-sized: they cost nothing at run time, and their constructors
//! carry the phase preconditions as documented contracts that the
//! entry-point wiring outside this library must uphold.

use vstd::prelude::*;

verus! {

/// Witness that interrupts are masked on the current core.
///
/// Carries no data; its only purpose is to exist as proof. It has no
/// public constructor: it can only be obtained from a context marker
/// whose phase runs with interrupts masked ([`InitCtx::cs`] and
/// [`IrqCtx::cs`]), and it is meant to be presented to a raw guarded
/// primitive outside this library.
#[derive(Clone, Copy)]
pub struct CriticalSection {
    _priv: (),
}

/// `main()` context marker.
///
/// The possession of this marker or a reference to this marker
/// guarantees the execution from `main()` context, where interrupts
/// may be **enabled**. For that reason this marker, unlike the other
/// two, hands out no [`CriticalSection`]: it only gates the accessors
/// of [`crate::cell::MainCtxCell`], which need no masking because no
/// interrupt-context accessor for that cell type exists at all.
pub struct MainCtx {
    _priv: (),
}

/// Interrupt context marker.
///
/// The possession of this marker or a reference to this marker
/// guarantees the execution from interrupt context, where hardware has
/// masked interrupts for the duration of the handler.
pub struct IrqCtx {
    _priv: (),
}

/// Main context initialization marker.
///
/// This marker does not have a pub constructor.
/// It is only created by [`MainCtx::new_with_init`] and handed to the
/// one-time initialization routine; it cannot outlive that call.
pub struct InitCtx {
    _priv: (),
}

impl MainCtx {
    /// Create a new `main()` context.
    ///
    /// Contract (documented, not machine-checked — the whole point of
    /// the markers is zero run-time cost): this constructor may only
    /// be called from the `main()` context, exactly once per program
    /// run, with interrupts disabled at the moment of the call. The
    /// entry-point wiring outside this library is responsible for
    /// calling it at the right time; an off-target harness may call it
    /// directly under the same single-caller discipline.
    pub fn new() -> MainCtx {
        MainCtx { _priv: () }
    }

    /// Create a new `main()` context and run some initializations
    /// under [`InitCtx`] context first.
    ///
    /// The one-shot initialization routine `f` is called exactly once,
    /// with the freshly created init marker and `arg`; whatever it
    /// returns is handed back together with the resulting `MainCtx`.
    /// This is the only way an [`InitCtx`] ever comes to exist, and it
    /// cannot outlive the call.
    ///
    /// Contract (documented, not machine-checked): the same phase
    /// precondition as [`MainCtx::new`] — program start, interrupts
    /// disabled, one call per program run.
    pub fn new_with_init<A, R, F: FnOnce(&InitCtx, A) -> R>(f: F, arg: A) -> (r: (MainCtx, R))
        requires
            forall|i: InitCtx| call_requires(f, (&i, arg)),
        ensures
            exists|i: InitCtx| call_ensures(f, (&i, arg), r.1),
    {
        let ictx = InitCtx { _priv: () };
        let res = f(&ictx, arg);
        let r = (MainCtx::new(), res);
        proof {
            assert(call_ensures(f, (&ictx, arg), r.1));
        }
        r
    }
}

impl IrqCtx {
    /// Create a new interrupt context.
    ///
    /// Contract (documented, not machine-checked): this constructor
    /// may only be called at the top of an interrupt handler, where
    /// hardware has already masked interrupts; the marker must be
    /// dropped when the handler returns.
    pub fn new() -> IrqCtx {
        IrqCtx { _priv: () }
    }

    /// Get the `CriticalSection` that belongs to this context.
    /// In IRQ context interrupts are disabled.
    /// Therefore, this cs can be used for any critical section work.
    pub fn cs(&self) -> CriticalSection {
        CriticalSection { _priv: () }
    }
}

impl InitCtx {
    /// Get the `CriticalSection` that belongs to this context.
    /// In initialization context interrupts are disabled.
    /// Therefore, this cs can be used for any critical section work.
    pub fn cs(&self) -> CriticalSection {
        CriticalSection { _priv: () }
    }
}

} // verus!
