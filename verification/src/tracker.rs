//! The listener and the emitter, as one state machine.
//!
//! [`TrackerView`] is the mathematical model: a record of four plain values
//! and one function per step. [`PointerLockTracker`] is the executable state;
//! each of its operations is specified as the matching step of the model.

use vstd::prelude::*;
use crate::event::PointerLockChangedByBrowser;
use crate::source::LockStateSource;
use crate::state::LockState;

verus! {

/// The name of the host notification that the listener is registered for.
pub const POINTER_LOCK_CHANGE: &'static str = "pointerlockchange";

/// How far the registration of the host listener has come.
#[derive(Clone, Copy, Debug, PartialEq, Eq, Structural)]
pub enum ListenerStatus {
    /// No registration was asked for yet.
    Idle,
    /// The application was told to register and has not answered yet.
    Registering,
    /// The host accepted the listener: reports are taken from now on.
    Listening,
    /// The host refused the listener. Nothing is tried again.
    Failed,
}

/// Why the listener could not be set up.
#[derive(Clone, Copy, Debug, PartialEq, Eq, Structural)]
pub enum SetupError {
    /// The host refused to register the listener.
    RegistrationRefused,
}

impl SetupError {
    /// The text to abort start-up with.
    pub fn message(&self) -> (text: &'static str)
        ensures
            text@ == "Failed to add event listener"@,
    {
        match self {
            SetupError::RegistrationRefused => "Failed to add event listener",
        }
    }
}

/// The model of a [`PointerLockTracker`].
pub struct TrackerView {
    /// Where reports come from.
    pub source: LockStateSource,
    /// How far the registration of the listener has come.
    pub status: ListenerStatus,
    /// The lock state that was reported last.
    pub current: bool,
    /// The lock state that the emitter saw at its last check.
    pub previous: bool,
}

impl TrackerView {
    /// The state before anything has happened: no listener, pointer unlocked.
    pub open spec fn initial(source: LockStateSource) -> Self {
        TrackerView { source, status: ListenerStatus::Idle, current: false, previous: false }
    }

    /// What holds of every state that can be reached: a source without a
    /// listener is never asked for one, and as long as no listener is
    /// installed no report has arrived, so both slots still say "unlocked".
    pub open spec fn wf(self) -> bool {
        &&& !self.source.provides_listener() ==> self.status == ListenerStatus::Idle
        &&& self.status != ListenerStatus::Listening ==> !self.current && !self.previous
    }

    /// Whether set-up asks the application to register the host listener:
    /// only a browser has one, and it is asked for once.
    pub open spec fn attempts_registration(self) -> bool {
        self.source.provides_listener() && self.status == ListenerStatus::Idle
    }

    /// The state after set-up.
    pub open spec fn set_up(self) -> Self {
        if self.attempts_registration() {
            TrackerView { status: ListenerStatus::Registering, ..self }
        } else {
            self
        }
    }

    /// Whether the host's answer `accepted` is a refusal of a registration
    /// that is under way.
    pub open spec fn registration_fails(self, accepted: bool) -> bool {
        self.status == ListenerStatus::Registering && !accepted
    }

    /// The state after the host answered the registration. An answer that
    /// no registration is waiting for changes nothing.
    pub open spec fn registered(self, accepted: bool) -> Self {
        if self.status == ListenerStatus::Registering {
            TrackerView {
                status: if accepted {
                    ListenerStatus::Listening
                } else {
                    ListenerStatus::Failed
                },
                ..self
            }
        } else {
            self
        }
    }

    /// The state after the browser reported `is_pointer_locked`. Without an
    /// installed listener nothing can be heard, and the state stays.
    pub open spec fn changed(self, is_pointer_locked: bool) -> Self {
        if self.status == ListenerStatus::Listening {
            TrackerView { current: is_pointer_locked, ..self }
        } else {
            self
        }
    }

    /// What the emitter publishes at a tick taken in this state: the reported
    /// state if it differs from the one seen at the last check, else nothing.
    pub open spec fn emitted(self) -> Option<PointerLockChangedByBrowser> {
        if self.previous != self.current {
            Some(PointerLockChangedByBrowser { is_pointer_locked: self.current })
        } else {
            None
        }
    }

    /// The state after a tick: the emitter has seen the reported state.
    pub open spec fn ticked(self) -> Self {
        TrackerView { previous: self.current, ..self }
    }
}

/// The listener's and the emitter's state: the source, the progress of the
/// registration, and the two shared slots.
#[derive(Debug)]
pub struct PointerLockTracker {
    source: LockStateSource,
    status: ListenerStatus,
    state: LockState,
}

impl View for PointerLockTracker {
    type V = TrackerView;

    closed spec fn view(&self) -> TrackerView {
        TrackerView {
            source: self.source,
            status: self.status,
            current: self.state.current(),
            previous: self.state.previous(),
        }
    }
}

impl PointerLockTracker {
    #[verifier::type_invariant]
    spec fn inv(self) -> bool {
        self@.wf()
    }

    /// A tracker for `source` on which nothing has happened yet.
    pub fn new(source: LockStateSource) -> (tracker: Self)
        ensures
            tracker@ == TrackerView::initial(source),
            tracker@.wf(),
    {
        PointerLockTracker { source, status: ListenerStatus::Idle, state: LockState::new() }
    }

    /// Where this tracker's reports come from.
    pub fn source(&self) -> (source: LockStateSource)
        ensures
            source == self@.source,
            self@.wf(),
    {
        proof {
            use_type_invariant(self);
        }
        self.source
    }

    /// How far the registration of the listener has come.
    pub fn status(&self) -> (status: ListenerStatus)
        ensures
            status == self@.status,
            self@.wf(),
    {
        proof {
            use_type_invariant(self);
        }
        self.status
    }

    /// The lock state that the browser reported last.
    pub fn is_pointer_locked(&self) -> (locked: bool)
        ensures
            locked == self@.current,
            self@.wf(),
    {
        proof {
            use_type_invariant(self);
        }
        self.state.load()
    }

    /// Takes the host's answer to the registration that
    /// [`setup_pointer_lock_listener`] asked for.
    ///
    /// A refusal is fatal for the feature: the error is returned exactly when
    /// a registration was under way and the host did not accept it, and the
    /// tracker then stays silent for good. An answer that nothing waits for is
    /// ignored.
    pub fn listener_registered(&mut self, accepted: bool) -> (outcome: Result<(), SetupError>)
        ensures
            final(self)@ == old(self)@.registered(accepted),
            final(self)@.wf(),
            outcome is Err <==> old(self)@.registration_fails(accepted),
            outcome is Err ==> outcome == Err::<(), SetupError>(SetupError::RegistrationRefused),
    {
        proof {
            use_type_invariant(&*self);
        }
        match self.status {
            ListenerStatus::Registering => {
                if accepted {
                    self.status = ListenerStatus::Listening;
                    Ok(())
                } else {
                    self.status = ListenerStatus::Failed;
                    Err(SetupError::RegistrationRefused)
                }
            },
            _ => Ok(()),
        }
    }

    /// The body of the host callback: records the lock state that the browser
    /// reports, `true` where some element holds the pointer lock.
    ///
    /// Only the reported slot is written; what the emitter saw last is left to
    /// the emitter. A tracker without an installed listener ignores the call.
    pub fn pointer_lock_changed(&mut self, is_pointer_locked: bool)
        ensures
            final(self)@ == old(self)@.changed(is_pointer_locked),
            final(self)@.wf(),
    {
        proof {
            use_type_invariant(&*self);
        }
        match self.status {
            ListenerStatus::Listening => {
                self.state.store(is_pointer_locked);
            },
            _ => {},
        }
    }
}

/// Starts the listener: decides whether the application has to register the
/// host callback for pointer-lock changes.
///
/// It returns `true` exactly for a browser source on which no registration was
/// asked for before, and the tracker then waits for the host's answer (see
/// [`PointerLockTracker::listener_registered`]). Otherwise nothing is to be
/// registered and the tracker is unchanged.
pub fn setup_pointer_lock_listener(tracker: &mut PointerLockTracker) -> (register: bool)
    ensures
        register == old(tracker)@.attempts_registration(),
        final(tracker)@ == old(tracker)@.set_up(),
        final(tracker)@.wf(),
{
    proof {
        use_type_invariant(&*tracker);
    }
    if tracker.source.has_listener() {
        match tracker.status {
            ListenerStatus::Idle => {
                tracker.status = ListenerStatus::Registering;
                true
            },
            _ => false,
        }
    } else {
        false
    }
}

/// The emitter's check, run once per tick: compares the reported state with
/// the one seen at the last check and remembers the reported one.
///
/// It returns the event to publish, carrying the reported state, exactly when
/// the two differ.
pub fn write_event(tracker: &mut PointerLockTracker) -> (event: Option<PointerLockChangedByBrowser>)
    ensures
        event == old(tracker)@.emitted(),
        final(tracker)@ == old(tracker)@.ticked(),
        final(tracker)@.wf(),
{
    proof {
        use_type_invariant(&*tracker);
    }
    let is_active = tracker.state.load();
    let was_active = tracker.state.swap_previous(is_active);
    if was_active != is_active {
        Some(PointerLockChangedByBrowser::new(is_active))
    } else {
        None
    }
}

} // verus!
