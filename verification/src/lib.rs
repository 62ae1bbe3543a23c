//! Decision logic of a service supervisor: a declarative manifest of
//! services is reconciled against the processes that are running, and every
//! line a service prints is tagged and handed to a structured log.
//!
//! The crate performs no I/O. Each component is a state machine from state
//! and event to next state and effects; the caller spawns, kills, reads and
//! logs, and reports back what happened. The one thing the crate does to the
//! world is to send the cancellation signals of a generation that is
//! retired.

pub mod json;
pub mod log;
pub mod manifest;
pub mod reconciler;
pub mod shell;
pub mod signal;
pub mod supervisor;
pub mod text;
pub mod trigger;
