//! The decisions of the background loop, as a state machine. The loop's
//! owner waits, moves windows and reports back; what to do next is decided
//! here.

use vstd::prelude::*;

verus! {

/// Where the background loop stands.
#[derive(Clone, Copy, Debug, PartialEq, Eq, Structural)]
pub enum LoopState {
    /// Waiting for the interval to pass or for a wake signal.
    Idle,
    /// The wait has timed out; whether to fire is being decided.
    Evaluating,
    /// A pass over all windows is under way.
    Moving,
}

/// What the loop's owner reports.
#[derive(Clone, Copy, Debug, PartialEq, Eq, Structural)]
pub enum LoopEvent {
    /// The wait ran for the whole interval.
    TimedOut,
    /// The wait was cut short because the configuration changed.
    Signalled,
    /// The pass over all windows is complete.
    PassDone,
}

/// What the loop's owner has to do next.
#[derive(Clone, Copy, Debug, PartialEq, Eq, Structural)]
pub enum LoopAction {
    /// Read the interval afresh and start a new wait.
    Wait,
    /// Enumerate the windows and move every eligible one.
    MoveWindows,
    /// Nothing new; go on with what is under way.
    Continue,
}

/// The decision taken in `Evaluating`: fire only while running.
pub open spec fn evaluated(running: bool) -> LoopState {
    if running {
        LoopState::Moving
    } else {
        LoopState::Idle
    }
}

/// The state that follows `state` on `event`. A timeout leads through the
/// evaluation at once; a signal only restarts the wait; an event that the
/// state does not expect changes nothing.
pub open spec fn next_state(state: LoopState, event: LoopEvent, running: bool) -> LoopState {
    match (state, event) {
        (LoopState::Idle, LoopEvent::TimedOut) => evaluated(running),
        (LoopState::Idle, _) => LoopState::Idle,
        (LoopState::Evaluating, _) => evaluated(running),
        (LoopState::Moving, LoopEvent::PassDone) => LoopState::Idle,
        (LoopState::Moving, _) => LoopState::Moving,
    }
}

/// The action that goes with the step from `state` on `event`.
pub open spec fn next_action(state: LoopState, event: LoopEvent, running: bool) -> LoopAction {
    match next_state(state, event, running) {
        LoopState::Idle => LoopAction::Wait,
        LoopState::Evaluating => LoopAction::Continue,
        LoopState::Moving => if state == LoopState::Moving {
            LoopAction::Continue
        } else {
            LoopAction::MoveWindows
        },
    }
}

/// One step of the loop: the next state and what to do on entering it.
pub fn step(state: LoopState, event: LoopEvent, running: bool) -> (r: (LoopState, LoopAction))
    ensures
        r.0 == next_state(state, event, running),
        r.1 == next_action(state, event, running),
{
    let fire = match state {
        LoopState::Idle => match event {
            LoopEvent::TimedOut => true,
            _ => false,
        },
        LoopState::Evaluating => true,
        LoopState::Moving => false,
    };
    if fire {
        if running {
            (LoopState::Moving, LoopAction::MoveWindows)
        } else {
            (LoopState::Idle, LoopAction::Wait)
        }
    } else {
        match state {
            LoopState::Moving => match event {
                LoopEvent::PassDone => (LoopState::Idle, LoopAction::Wait),
                _ => (LoopState::Moving, LoopAction::Continue),
            },
            _ => (LoopState::Idle, LoopAction::Wait),
        }
    }
}

/// The state after a whole sequence of events, each paired with the running
/// flag as it stood when the event arrived.
pub open spec fn state_after(state: LoopState, events: Seq<(LoopEvent, bool)>) -> LoopState
    decreases events.len(),
{
    if events.len() == 0 {
        state
    } else {
        next_state(state_after(state, events.drop_last()), events.last().0, events.last().1)
    }
}

/// Number of passes started over a sequence of events.
pub open spec fn passes_started(state: LoopState, events: Seq<(LoopEvent, bool)>) -> nat
    decreases events.len(),
{
    if events.len() == 0 {
        0
    } else {
        let before = state_after(state, events.drop_last());
        let fired: nat = if next_action(before, events.last().0, events.last().1)
            == LoopAction::MoveWindows {
            1
        } else {
            0
        };
        passes_started(state, events.drop_last()) + fired
    }
}

/// Number of timeouts among the events.
pub open spec fn timeouts(events: Seq<(LoopEvent, bool)>) -> nat
    decreases events.len(),
{
    if events.len() == 0 {
        0
    } else {
        let one: nat = if events.last().0 == LoopEvent::TimedOut {
            1
        } else {
            0
        };
        timeouts(events.drop_last()) + one
    }
}

/// A pass starts only on a timeout while running, never on a signal and
/// never while paused; and a signal in `Idle` restarts the wait.
pub proof fn lemma_fires_only_on_timeout(state: LoopState, event: LoopEvent, running: bool)
    ensures
        next_action(state, event, running) == LoopAction::MoveWindows ==> running && (state
            == LoopState::Evaluating || (state == LoopState::Idle && event
            == LoopEvent::TimedOut)),
        state == LoopState::Idle && event == LoopEvent::Signalled ==> next_state(
            state,
            event,
            running,
        ) == LoopState::Idle && next_action(state, event, running) == LoopAction::Wait,
        state == LoopState::Moving && event == LoopEvent::PassDone ==> next_state(
            state,
            event,
            running,
        ) == LoopState::Idle,
{
}

/// No double firing: from `Idle`, however the events arrive, no more passes
/// are started than waits have timed out.
pub proof fn lemma_at_most_one_pass_per_timeout(events: Seq<(LoopEvent, bool)>)
    ensures
        passes_started(LoopState::Idle, events) <= timeouts(events),
        state_after(LoopState::Idle, events) != LoopState::Evaluating,
    decreases events.len(),
{
    if events.len() > 0 {
        lemma_at_most_one_pass_per_timeout(events.drop_last());
    }
}

} // verus!
