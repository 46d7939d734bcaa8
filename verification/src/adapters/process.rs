//! How a child process the caller ran turned out.

use vstd::prelude::*;

verus! {

/// The outcome of running an external command.
#[derive(Debug)]
pub enum CommandOutcome {
    /// The command could not be started; the text describes the I/O error.
    SpawnFailed(String),
    /// The command ran; `success` is whether it exited with status zero and
    /// `captured` is the output the caller captured (stdout or stderr, as the
    /// action asked), or nothing.
    Exited { success: bool, captured: Vec<u8> },
}

impl CommandOutcome {
    /// Whether the command started and exited successfully.
    pub open spec fn succeeded(&self) -> bool {
        self matches CommandOutcome::Exited { success: true, .. }
    }

    /// Whether the command started and exited successfully.
    pub fn is_success(&self) -> (r: bool)
        ensures
            r == self.succeeded(),
    {
        match self {
            CommandOutcome::SpawnFailed(_) => false,
            CommandOutcome::Exited { success, .. } => *success,
        }
    }
}

} // verus!
