//! What the plugin installs in the engine.

use vstd::prelude::*;
use crate::source::LockStateSource;

verus! {

/// The registrations that the plugin makes with the engine.
#[derive(Clone, Copy, Debug, PartialEq, Eq, Structural)]
pub struct Registrations {
    /// The event type is made known to the engine's event bus.
    pub event: bool,
    /// The listener set-up runs once, at start-up.
    pub listener_at_startup: bool,
    /// The emitter runs every tick after the application's update, so that it
    /// sees what the listener recorded and subscribers find the event in the
    /// same tick.
    pub emitter_after_update: bool,
}

/// The plugin that brings browser-driven pointer-lock changes into the engine.
#[derive(Clone, Copy, Debug)]
pub struct PointerLockChangePlugin;

impl PointerLockChangePlugin {
    /// The registrations for `source`.
    ///
    /// The event type exists on every target, so that subscribers compile and
    /// run everywhere. The listener and the emitter are installed only where
    /// the source has a listener; elsewhere the plugin is a no-op.
    pub fn build(&self, source: LockStateSource) -> (plan: Registrations)
        ensures
            plan.event,
            plan.listener_at_startup == source.provides_listener(),
            plan.emitter_after_update == source.provides_listener(),
    {
        let active = source.has_listener();
        Registrations { event: true, listener_at_startup: active, emitter_after_update: active }
    }
}

} // verus!
