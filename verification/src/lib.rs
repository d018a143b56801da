//! Compile-time separation of `main()`-loop and interrupt-handler
//! execution on a single-core microcontroller.
//!
//! A small set of zero-sized marker types proves, by possession of a
//! typed token, which execution context the current code runs in
//! ([`MainCtx`], [`IrqCtx`], [`InitCtx`]), and two cell types gate
//! their accessors on presentation of the matching token
//! ([`MainCtxCell`], [`InitCtxCell`]). Misuse — touching a
//! main-context cell from interrupt code, or reading a lazily
//! initialized cell before its one initializing write — is rejected
//! when the program is checked, not detected at run time.

pub mod cell;
pub mod context;

pub use crate::cell::InitCtxCell;
pub use crate::cell::MainCtxCell;
pub use crate::context::CriticalSection;
pub use crate::context::InitCtx;
pub use crate::context::IrqCtx;
pub use crate::context::MainCtx;
