//! What ends the application.

use vstd::prelude::*;

verus! {

/// Why the application cannot go on. None of these is retried.
#[derive(Clone, Copy, Debug, PartialEq, Eq)]
pub enum FatalError {
    /// The log command could not be started at all.
    LaunchFailed,
    /// A frame could not be drawn or presented.
    DrawFailed,
    /// The lock of the shared cell is poisoned: a holder ended abnormally
    /// while it held the cell.
    CellPoisoned,
}

impl FatalError {
    /// What to tell the user.
    pub fn message(&self) -> (text: &'static str)
        ensures
            text@ == match *self {
                FatalError::LaunchFailed => "failed to run `jj log` command"@,
                FatalError::DrawFailed => "failed to draw frame"@,
                FatalError::CellPoisoned => "failed to lock `JjLogWidget` state"@,
            },
    {
        match self {
            FatalError::LaunchFailed => "failed to run `jj log` command",
            FatalError::DrawFailed => "failed to draw frame",
            FatalError::CellPoisoned => "failed to lock `JjLogWidget` state",
        }
    }
}

} // verus!
