//! Execution engine for an autonomous task worker: a four-state lifecycle,
//! a segmented model-invocation protocol with bounded overflow recovery,
//! history compaction with a synthetic recap marker, an interactive
//! follow-up loop, and structured failure diagnostics.
//!
//! The engine itself is pure: model invocations, clocks, channels and file
//! delivery are collaborators that the caller drives. The caller reports each
//! invocation's outcome as a typed [`worker::InvokeOutcome`] and the engine
//! decides what happens next.

pub mod compact;
pub mod diagnostics;
pub mod message;
pub mod prompts;
pub mod recap;
pub mod state;
pub mod text;
pub mod worker;
