//! The worker's four-state lifecycle and its legal-transition table.

use vstd::prelude::*;

verus! {

/// Lifecycle state of a worker.
#[derive(Clone, Copy, Debug, PartialEq, Eq, Structural)]
pub enum WorkerState {
    /// Worker is running and processing.
    Running,
    /// Worker is waiting for follow-up input (interactive only).
    WaitingForInput,
    /// Worker has completed successfully.
    Done,
    /// Worker has failed.
    Failed,
}

/// The legal-transition table. Every pair not listed here is illegal; in
/// particular nothing leaves `Done` or `Failed`, and `WaitingForInput` never
/// goes directly to `Done`.
pub open spec fn transition_allowed(from: WorkerState, to: WorkerState) -> bool {
    ||| (from is Running && to is WaitingForInput)
    ||| (from is Running && to is Done)
    ||| (from is Running && to is Failed)
    ||| (from is WaitingForInput && to is Running)
    ||| (from is WaitingForInput && to is Failed)
}

/// The name of a state, as it appears in diagnostics.
pub open spec fn state_label(s: WorkerState) -> Seq<char> {
    match s {
        WorkerState::Running => "Running"@,
        WorkerState::WaitingForInput => "WaitingForInput"@,
        WorkerState::Done => "Done"@,
        WorkerState::Failed => "Failed"@,
    }
}

impl WorkerState {
    /// The state's name, for status lines and diagnostics.
    pub fn label(&self) -> (r: &'static str)
        ensures
            r@ == state_label(*self),
    {
        match self {
            WorkerState::Running => "Running",
            WorkerState::WaitingForInput => "WaitingForInput",
            WorkerState::Done => "Done",
            WorkerState::Failed => "Failed",
        }
    }
}

/// The message attached to a refused state transition.
pub open spec fn transition_error_text(from: WorkerState, to: WorkerState) -> Seq<char> {
    "can't transition from "@ + state_label(from) + " to "@ + state_label(to)
}

/// An error of the engine itself.
pub enum WorkerError {
    /// A transition outside the legal table was requested; carries a
    /// human-readable description of the refused pair.
    InvalidStateTransition(String),
}

impl WorkerError {
    /// The human-readable text of the error.
    pub fn message(&self) -> (r: &String)
        ensures
            self matches WorkerError::InvalidStateTransition(m) ==> r == m,
    {
        match self {
            WorkerError::InvalidStateTransition(m) => m,
        }
    }
}

} // verus!
