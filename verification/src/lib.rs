//! Edge detection for browser-driven pointer-lock changes.
//!
//! A browser may leave pointer-lock mode on its own, for instance when the
//! user presses Escape, without telling the page through its ordinary input
//! channels. This crate holds the state that keeps an application in step
//! with the browser: a listener records the lock state that the browser
//! reports, and once per tick an emitter turns a change of that state into a
//! [`PointerLockChangedByBrowser`] event.
//!
//! The crate performs no host calls itself. It decides what is to be done and
//! the embedding application does it: it registers the browser callback when
//! [`setup_pointer_lock_listener`] asks for it, feeds each report to
//! [`PointerLockTracker::pointer_lock_changed`], and publishes what
//! [`write_event`] hands back.

pub mod event;
pub mod plugin;
pub mod source;
pub mod state;
pub mod trace;
pub mod tracker;

pub use event::PointerLockChangedByBrowser;
pub use plugin::{PointerLockChangePlugin, Registrations};
pub use source::LockStateSource;
pub use state::LockState;
pub use tracker::{
    setup_pointer_lock_listener, write_event, ListenerStatus, PointerLockTracker, SetupError,
    TrackerView, POINTER_LOCK_CHANGE,
};
