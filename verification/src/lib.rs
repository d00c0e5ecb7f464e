//! Glue between a native window event loop and suspend/resume-style code.
//!
//! The crate keeps a registry of window handlers, routes each window event to
//! the one handler method it is meant for, and decides when the event loop
//! that drives the root task has to stop.

pub mod dispatch;
pub mod event;
pub mod executor;
pub mod registry;
pub mod scalar;
pub mod signal;
pub mod toolkit;
pub mod window;

pub use dispatch::{deliver, dispatch, dispatch_batch, BatchReport};
pub use event::{EventEnvelope, Payload};
pub use executor::{Directive, Executor, RunState};
pub use registry::{DuplicateId, Registry};
pub use scalar::{Double, Single};
pub use signal::{AlreadySet, Delivery, Signal, WaitError, Wake};
pub use window::{WindowHandler, WinitWindow};
