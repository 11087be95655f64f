//! The one failure that the timer reports to its caller.

use vstd::prelude::*;
use vstd::string::StringExecFns;

verus! {

/// Why a command was refused.
#[derive(Debug, Clone, Copy, PartialEq, Eq, Structural)]
pub enum TimerError {
    /// A countdown was asked to start while one is running.
    AlreadyRunning,
}

impl TimerError {
    /// The text of the error.
    pub open spec fn text(self) -> Seq<char> {
        match self {
            TimerError::AlreadyRunning => "Countdown is already running"@,
        }
    }

    /// The error as a message for display.
    pub fn message(&self) -> (message: String)
        ensures
            message@ == self.text(),
    {
        match self {
            TimerError::AlreadyRunning => String::from_str("Countdown is already running"),
        }
    }
}

} // verus!
