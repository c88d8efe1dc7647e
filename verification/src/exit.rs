//! How startup ends once the host's runtime has handed control back.

use vstd::prelude::*;

verus! {

/// The diagnostic of a fatal startup failure. It is the same for every
/// failure.
pub const FAILURE_MESSAGE: &'static str = "error while running tauri application";

/// The way startup ends.
#[derive(Clone, Copy, Debug, PartialEq, Eq)]
pub enum Exit {
    /// The event loop ran and has exited: startup returns, with no value.
    Normal,
    /// The runtime did not start: the process terminates at once, with
    /// `message` as its diagnostic.
    Fatal { message: &'static str },
}

impl Exit {
    /// The ending owed to a runtime that started (`started`) or failed to
    /// start (`!started`). There is one ending for each: a failure is not
    /// retried, and no failure is told from another.
    pub open spec fn after(started: bool) -> Exit {
        if started {
            Exit::Normal
        } else {
            Exit::Fatal { message: FAILURE_MESSAGE }
        }
    }
}

/// Decides how startup ends from what the host's runtime returned.
///
/// A runtime that ran ends startup normally. A runtime that failed to start
/// ends it fatally, whatever the error: the error is neither inspected nor
/// recovered from, and the diagnostic does not depend on it.
pub fn conclude<E>(outcome: &Result<(), E>) -> (exit: Exit)
    ensures
        exit == Exit::after(outcome is Ok),
{
    match outcome {
        Ok(_) => Exit::Normal,
        Err(_) => Exit::Fatal { message: FAILURE_MESSAGE },
    }
}

} // verus!
