//! What an activity reports back to the main loop after an update.

use vstd::prelude::*;

verus! {

/// Whether an activity keeps running or hands control back.
#[derive(PartialEq, Eq, Structural)]
pub enum ActivityResult {
    Exited,
    Active,
}

impl ActivityResult {
    /// Whether the activity handed control back.
    pub fn exited(self) -> (r: bool)
        ensures
            r == (self is Exited),
    {
        self == ActivityResult::Exited
    }
}

} // verus!
