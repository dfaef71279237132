//! Errors reported for misuse of mocks.

use vstd::prelude::*;

verus! {

/// A mock was used in a way that its rules forbid.
#[derive(Debug, Clone, Copy, PartialEq, Eq, Structural)]
pub enum UsageError {
    /// A delegation scope was opened while the switch was already set to "real".
    SwitchActive,
    /// A state was installed, or the slot reserved, while an earlier guard for the same
    /// slot was still alive.
    AlreadyInstalled,
    /// The state was asked for exclusively while a reference to it was alive.
    StateBorrowed,
    /// The state was accessed after its guard had removed it.
    StateMissing,
}

/// Answers sent over a channel were still pending when their guard was released.
#[derive(Debug, Clone, Copy, PartialEq, Eq, Structural)]
pub struct UnconsumedAnswers {
    /// Number of answers that nobody asked for.
    pub count: usize,
}

} // verus!
