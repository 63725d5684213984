//! The shared lock state: two boolean slots behind a narrow interface.

use vstd::prelude::*;

verus! {

/// The two slots that the listener and the emitter share.
///
/// `current` is the lock state that the browser reported last; `previous` is
/// the state that the emitter saw at its last check. Both start out unlocked.
/// The slots are reachable only through [`load`](LockState::load),
/// [`store`](LockState::store) and
/// [`swap_previous`](LockState::swap_previous); an application that shares a
/// `LockState` between execution contexts guards it as a whole.
#[derive(Debug)]
pub struct LockState {
    current: bool,
    previous: bool,
}

impl LockState {
    /// The state that was reported last.
    pub closed spec fn current(self) -> bool {
        self.current
    }

    /// The state that the last check observed.
    pub closed spec fn previous(self) -> bool {
        self.previous
    }

    /// A state in which the pointer is unlocked and was so at the last check.
    pub fn new() -> (state: Self)
        ensures
            !state.current(),
            !state.previous(),
    {
        LockState { current: false, previous: false }
    }

    /// Reads the state that was reported last.
    pub fn load(&self) -> (is_active: bool)
        ensures
            is_active == self.current(),
    {
        self.current
    }

    /// Records a report. The state of the last check stays as it is.
    pub fn store(&mut self, is_active: bool)
        ensures
            final(self).current() == is_active,
            final(self).previous() == old(self).previous(),
        no_unwind
    {
        self.current = is_active;
    }

    /// Replaces the state of the last check by `is_active` and returns the one
    /// that was there. The reported state stays as it is.
    pub fn swap_previous(&mut self, is_active: bool) -> (was_active: bool)
        ensures
            was_active == old(self).previous(),
            final(self).previous() == is_active,
            final(self).current() == old(self).current(),
        no_unwind
    {
        let was_active = self.previous;
        self.previous = is_active;
        was_active
    }
}

} // verus!
