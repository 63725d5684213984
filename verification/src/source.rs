//! Where lock-state reports come from.

use vstd::prelude::*;

verus! {

/// The capability that a target offers for observing the pointer lock.
///
/// It is chosen once, when the application is configured, and never changes
/// afterwards.
#[derive(Clone, Copy, Debug, PartialEq, Eq, Structural)]
pub enum LockStateSource {
    /// A browser: a host listener can be registered and will report changes.
    Browser,
    /// Any other target: there is nothing to listen to, so the feature is a
    /// no-op behind the same interface.
    Inert,
}

impl LockStateSource {
    /// Whether a host listener exists for this source.
    pub open spec fn provides_listener(self) -> bool {
        self == LockStateSource::Browser
    }

    /// Whether a host listener exists for this source.
    pub fn has_listener(self) -> (provided: bool)
        ensures
            provided == self.provides_listener(),
    {
        match self {
            LockStateSource::Browser => true,
            LockStateSource::Inert => false,
        }
    }
}

} // verus!
