//! The one way in which watching can fail.
use vstd::prelude::*;

verus! {

/// Error returned when the underlying watchable has been dropped.
#[derive(Debug, Clone, Copy, PartialEq, Eq, Structural)]
pub struct Disconnected;

impl Disconnected {
    /// The error in words.
    pub fn message(&self) -> (text: &'static str)
        ensures
            text@ == "watchable disconnected"@,
    {
        "watchable disconnected"
    }
}

} // verus!
