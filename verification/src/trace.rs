//! Runs of the tracker over whole input histories, and what holds of them.
//!
//! A history is cut into rounds: a round is the sequence of browser reports
//! that arrive before one tick, in order, possibly empty. The functions here
//! run the model of the tracker over such histories; the lemmas state what
//! the emitter publishes in terms of the reports alone.

use vstd::prelude::*;
use crate::event::PointerLockChangedByBrowser;
use crate::source::LockStateSource;
use crate::tracker::{ListenerStatus, TrackerView};

verus! {

/// The state after the browser made `reports`, first to last, with no tick
/// in between.
pub open spec fn after_reports(start: TrackerView, reports: Seq<bool>) -> TrackerView
    decreases reports.len(),
{
    if reports.len() == 0 {
        start
    } else {
        after_reports(start, reports.drop_last()).changed(reports.last())
    }
}

/// The state after `rounds`, each followed by its tick.
pub open spec fn after_rounds(start: TrackerView, rounds: Seq<Seq<bool>>) -> TrackerView
    decreases rounds.len(),
{
    if rounds.len() == 0 {
        start
    } else {
        after_reports(after_rounds(start, rounds.drop_last()), rounds.last()).ticked()
    }
}

/// What the emitter publishes at the tick that ends round `i`.
pub open spec fn event_at(start: TrackerView, rounds: Seq<Seq<bool>>, i: int)
    -> Option<PointerLockChangedByBrowser>
    recommends
        0 <= i < rounds.len(),
{
    after_reports(after_rounds(start, rounds.take(i)), rounds[i]).emitted()
}

/// The last report made in `rounds`, or `before` where there is none.
pub open spec fn latest(before: bool, rounds: Seq<Seq<bool>>) -> bool
    decreases rounds.len(),
{
    if rounds.len() == 0 {
        before
    } else if rounds.last().len() > 0 {
        rounds.last().last()
    } else {
        latest(before, rounds.drop_last())
    }
}

/// The event for a step from the lock state `before` to the lock state
/// `after`: nothing where they agree, else the new state.
pub open spec fn edge(before: bool, after: bool) -> Option<PointerLockChangedByBrowser> {
    if before != after {
        Some(PointerLockChangedByBrowser { is_pointer_locked: after })
    } else {
        None
    }
}

/// The history in which exactly one report precedes each tick.
pub open spec fn one_report_per_tick(states: Seq<bool>) -> Seq<Seq<bool>> {
    Seq::new(states.len(), |i: int| seq![states[i]])
}

/// The history of `ticks` ticks in which the browser never reports.
pub open spec fn silence(ticks: nat) -> Seq<Seq<bool>> {
    Seq::new(ticks, |i: int| Seq::<bool>::empty())
}

/// A tracker that listens, in a state the emitter has already seen.
pub open spec fn settled(start: TrackerView) -> bool {
    &&& start.wf()
    &&& start.status == ListenerStatus::Listening
    &&& start.previous == start.current
}

/// The state of a tracker for `source` right after its listener was
/// installed: set up, accepted by the host, nothing reported yet.
pub open spec fn listening(source: LockStateSource) -> TrackerView {
    TrackerView::initial(source).set_up().registered(true)
}

/// Whether nothing in `rounds` can change a slot of `start`: no report is
/// made in them, or the tracker does not listen.
pub open spec fn unheard(start: TrackerView, rounds: Seq<Seq<bool>>) -> bool {
    start.status != ListenerStatus::Listening || forall|k: int|
        0 <= k < rounds.len() ==> (#[trigger] rounds[k]).len() == 0
}

/// Reports never touch the source, the listener's status or what the emitter
/// saw last, and they keep a valid state valid.
pub proof fn lemma_reports_keep_rest(start: TrackerView, reports: Seq<bool>)
    ensures
        after_reports(start, reports).source == start.source,
        after_reports(start, reports).status == start.status,
        after_reports(start, reports).previous == start.previous,
        start.wf() ==> after_reports(start, reports).wf(),
    decreases reports.len(),
{
    if reports.len() > 0 {
        lemma_reports_keep_rest(start, reports.drop_last());
    }
}

/// Of several reports between two ticks only the last one counts: the state
/// is the one that this report alone would have left.
pub proof fn lemma_last_report_wins(start: TrackerView, reports: Seq<bool>)
    requires
        reports.len() > 0,
    ensures
        after_reports(start, reports) == start.changed(reports.last()),
    decreases reports.len(),
{
    let earlier = reports.drop_last();
    if earlier.len() > 0 {
        lemma_last_report_wins(start, earlier);
    } else {
        assert(after_reports(start, earlier) == start);
    }
}

/// Whole rounds never touch the source or the listener's status, they keep a
/// valid state valid, and they end in a state that the emitter has seen.
pub proof fn lemma_rounds_keep_rest(start: TrackerView, rounds: Seq<Seq<bool>>)
    ensures
        after_rounds(start, rounds).source == start.source,
        after_rounds(start, rounds).status == start.status,
        start.wf() ==> after_rounds(start, rounds).wf(),
        rounds.len() > 0 ==> after_rounds(start, rounds).previous == after_rounds(
            start,
            rounds,
        ).current,
    decreases rounds.len(),
{
    if rounds.len() > 0 {
        lemma_rounds_keep_rest(start, rounds.drop_last());
        lemma_reports_keep_rest(after_rounds(start, rounds.drop_last()), rounds.last());
    }
}

/// On a listening tracker the reported state after any number of rounds is the
/// last report made, or the state it started with where none was made.
pub proof fn lemma_rounds_track_latest(start: TrackerView, rounds: Seq<Seq<bool>>)
    requires
        settled(start),
    ensures
        settled(after_rounds(start, rounds)),
        after_rounds(start, rounds).current == latest(start.current, rounds),
    decreases rounds.len(),
{
    if rounds.len() > 0 {
        let earlier = rounds.drop_last();
        let before = after_rounds(start, earlier);
        lemma_rounds_track_latest(start, earlier);
        lemma_reports_keep_rest(before, rounds.last());
        if rounds.last().len() > 0 {
            lemma_last_report_wins(before, rounds.last());
        }
    }
}

/// Edge detection. On a listening tracker, the tick that ends round `i`
/// publishes an event exactly when the last report made up to that tick
/// differs from the last report made up to the tick before, and the event
/// carries the new state. Reports that were overwritten before a tick, and
/// ticks without a report, leave no trace.
pub proof fn lemma_events_are_edges(start: TrackerView, rounds: Seq<Seq<bool>>, i: int)
    requires
        settled(start),
        0 <= i < rounds.len(),
    ensures
        event_at(start, rounds, i) == edge(
            latest(start.current, rounds.take(i)),
            latest(start.current, rounds.take(i + 1)),
        ),
{
    let earlier = rounds.take(i);
    let before = after_rounds(start, earlier);
    lemma_rounds_track_latest(start, earlier);
    lemma_reports_keep_rest(before, rounds[i]);
    assert(rounds.take(i + 1).drop_last() == earlier);
    assert(rounds.take(i + 1).last() == rounds[i]);
    if rounds[i].len() > 0 {
        lemma_last_report_wins(before, rounds[i]);
    }
}

/// With one report before each tick, starting from a tracker that has just
/// begun to listen, tick `i` publishes an event exactly when `states[i]`
/// differs from `states[i - 1]`, where the state before the first one is
/// "unlocked"; the event carries `states[i]`.
pub proof fn lemma_events_follow_transitions(source: LockStateSource, states: Seq<bool>, i: int)
    requires
        source.provides_listener(),
        0 <= i < states.len(),
    ensures
        event_at(listening(source), one_report_per_tick(states), i) == edge(
            if i == 0 {
                false
            } else {
                states[i - 1]
            },
            states[i],
        ),
{
    let rounds = one_report_per_tick(states);
    lemma_events_are_edges(listening(source), rounds, i);
    assert(rounds.take(i + 1).last() == rounds[i]);
    if i > 0 {
        assert(rounds.take(i).last() == rounds[i - 1]);
    }
}

/// Repeating a report changes nothing. Made twice in a row it leaves the
/// state that one report leaves; made again after a tick, the next tick
/// publishes nothing; and a tick that directly follows a tick publishes
/// nothing either.
pub proof fn lemma_repeated_report_is_silent(start: TrackerView, is_pointer_locked: bool)
    ensures
        start.changed(is_pointer_locked).changed(is_pointer_locked) == start.changed(
            is_pointer_locked,
        ),
        start.changed(is_pointer_locked).ticked().changed(is_pointer_locked).emitted() is None,
        start.ticked().emitted() is None,
{
}

/// Reports change nothing where there are none, or where nobody listens.
pub proof fn lemma_unheard_reports_change_nothing(start: TrackerView, reports: Seq<bool>)
    requires
        start.status != ListenerStatus::Listening || reports.len() == 0,
    ensures
        after_reports(start, reports) == start,
    decreases reports.len(),
{
    if reports.len() > 0 {
        lemma_unheard_reports_change_nothing(start, reports.drop_last());
    }
}

/// A state in which both slots agree stays as it is over rounds that change
/// no slot, and no tick of such rounds publishes an event.
pub proof fn lemma_unheard_rounds_emit_nothing(start: TrackerView, rounds: Seq<Seq<bool>>)
    requires
        start.previous == start.current,
        unheard(start, rounds),
    ensures
        after_rounds(start, rounds) == start,
        forall|i: int| 0 <= i < rounds.len() ==> (#[trigger] event_at(start, rounds, i)) is None,
    decreases rounds.len(),
{
    if rounds.len() > 0 {
        let earlier = rounds.drop_last();
        lemma_unheard_rounds_emit_nothing(start, earlier);
        lemma_unheard_reports_change_nothing(start, rounds.last());
    }
    assert forall|i: int| 0 <= i < rounds.len() implies (#[trigger] event_at(start, rounds, i))
        is None by {
        lemma_unheard_rounds_emit_nothing(start, rounds.take(i));
        lemma_unheard_reports_change_nothing(start, rounds[i]);
    }
}

/// Where the browser never reports, no tick ever publishes an event, however
/// many ticks there are, whether a listener is installed or not.
pub proof fn lemma_silence_emits_nothing(source: LockStateSource, ticks: nat)
    ensures
        forall|i: int|
            0 <= i < ticks ==> (#[trigger] event_at(
                TrackerView::initial(source),
                silence(ticks),
                i,
            )) is None,
        forall|i: int|
            0 <= i < ticks ==> (#[trigger] event_at(listening(source), silence(ticks), i)) is None,
{
    lemma_unheard_rounds_emit_nothing(TrackerView::initial(source), silence(ticks));
    lemma_unheard_rounds_emit_nothing(listening(source), silence(ticks));
}

/// On a tracker for an inert source every single step is a no-op: set-up
/// attempts no registration, and neither an answer of the host, nor a report,
/// nor a tick changes the state or publishes an event.
pub proof fn lemma_inert_steps_do_nothing(
    start: TrackerView,
    accepted: bool,
    is_pointer_locked: bool,
)
    requires
        start.wf(),
        start.source == LockStateSource::Inert,
    ensures
        !start.attempts_registration(),
        start.set_up() == start,
        !start.registration_fails(accepted),
        start.registered(accepted) == start,
        start.changed(is_pointer_locked) == start,
        start.ticked() == start,
        start.emitted() is None,
{
}

/// On a tracker for an inert source no tick ever publishes an event, whatever
/// reports are fed to it, and the state stays as it was.
pub proof fn lemma_inert_never_emits(start: TrackerView, rounds: Seq<Seq<bool>>)
    requires
        start.wf(),
        start.source == LockStateSource::Inert,
    ensures
        after_rounds(start, rounds) == start,
        forall|i: int| 0 <= i < rounds.len() ==> (#[trigger] event_at(start, rounds, i)) is None,
{
    lemma_unheard_rounds_emit_nothing(start, rounds);
}

} // verus!
