//! The notification that the emitter publishes.

use vstd::prelude::*;

verus! {

/// Tells subscribers that the browser changed the pointer lock.
///
/// A fresh record is made for each detected transition. It carries the state
/// the pointer is in after the transition and nothing else.
#[derive(Clone, Copy, Debug, PartialEq, Eq, Structural)]
pub struct PointerLockChangedByBrowser {
    pub is_pointer_locked: bool,
}

impl PointerLockChangedByBrowser {
    /// The event for a transition into the state `is_pointer_locked`.
    pub fn new(is_pointer_locked: bool) -> (event: Self)
        ensures
            event == (PointerLockChangedByBrowser { is_pointer_locked }),
    {
        PointerLockChangedByBrowser { is_pointer_locked }
    }
}

} // verus!
