//! The short exclusive section around reading and writing the state file.
use vstd::prelude::*;

verus! {

/// Why the state could not be entered.
#[derive(Clone, Copy, Debug, PartialEq, Eq, Structural)]
pub enum StateAccessError {
    /// Another holder is inside the section; the caller fails fast instead of waiting.
    Busy,
    /// The section can no longer be entered.
    Unavailable,
}

/// Serialises short accesses to the state file, its backup and migrations.
/// It is never held across network requests or the sidecar lifecycle.
pub struct StateAccessGate {
    held: bool,
}

impl StateAccessGate {
    /// Someone is inside the section.
    pub closed spec fn is_held(&self) -> bool {
        self.held
    }

    /// A gate that nobody holds.
    pub fn new() -> (r: Self)
        ensures
            !r.is_held(),
    {
        StateAccessGate { held: false }
    }

    /// Enters the section if it is free, and fails with `Busy` at once if it is not.
    pub fn try_lock(&mut self) -> (r: Result<(), StateAccessError>)
        ensures
            final(self).is_held(),
            old(self).is_held() ==> r == Err::<(), StateAccessError>(StateAccessError::Busy),
            !old(self).is_held() ==> r is Ok,
    {
        if self.held {
            Err(StateAccessError::Busy)
        } else {
            self.held = true;
            Ok(())
        }
    }

    /// Leaves the section.
    pub fn release(&mut self)
        ensures
            !final(self).is_held(),
    {
        self.held = false;
    }
}

impl Default for StateAccessGate {
    fn default() -> (r: Self)
        ensures
            !r.is_held(),
    {
        StateAccessGate::new()
    }
}

} // verus!
