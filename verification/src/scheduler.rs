//! Poll scheduler: the endless cycle of query, delivery and rest.
//!
//! Like the prober, the scheduler performs nothing itself. Its driver runs
//! on a thread of its own, carries out the operation of the state and
//! reports back, so that a slow query never holds up whoever consumes the
//! display states. There is no final state: only the end of the process
//! stops the cycle.
use vstd::prelude::*;
use crate::display::{display_state, DisplayState};
use crate::reading::BatteryReading;

verus! {

/// Seconds of rest between the end of one query and the start of the next.
pub const POLL_INTERVAL_SECS: u64 = 60;

/// Where the cycle stands.
#[derive(Clone, Copy, Debug, PartialEq, Eq, Structural)]
pub enum PollState {
    /// A battery query is under way.
    Probing,
    /// The display state of `reading` is being handed over.
    Delivering { reading: BatteryReading },
    /// The scheduler rests until the next query.
    Sleeping,
}

/// The operation that the driver carries out next.
#[derive(Clone, Debug, PartialEq, Eq)]
pub enum PollAction {
    /// Run one battery query to its end.
    Probe,
    /// Hand `state` to the presentation layer.
    Deliver { state: DisplayState },
    /// Rest for `seconds` seconds.
    Sleep { seconds: u64 },
}

/// What the driver reports back.
#[derive(Clone, Copy, Debug, PartialEq, Eq, Structural)]
pub enum PollEvent {
    /// The query ended with `reading`.
    ProbeFinished { reading: BatteryReading },
    /// The display state was handed over.
    Delivered,
    /// The rest is over.
    Woke,
}

/// The state that follows `state` on `event`. An event that does not
/// answer the operation of `state` changes nothing.
pub open spec fn next_poll(state: PollState, event: PollEvent) -> PollState {
    match (state, event) {
        (PollState::Probing, PollEvent::ProbeFinished { reading }) => PollState::Delivering {
            reading,
        },
        (PollState::Delivering { reading }, PollEvent::Delivered) => PollState::Sleeping,
        (PollState::Sleeping, PollEvent::Woke) => PollState::Probing,
        _ => state,
    }
}

/// `action` is the operation that belongs to `state`.
pub open spec fn is_poll_action(state: PollState, action: PollAction) -> bool {
    match state {
        PollState::Probing => action == PollAction::Probe,
        PollState::Delivering { reading } => action matches PollAction::Deliver { state: shown }
            && shown.shows(reading),
        PollState::Sleeping => action == (PollAction::Sleep { seconds: POLL_INTERVAL_SECS }),
    }
}

/// The state in which the scheduler begins: with a query.
pub fn poll_start() -> (state: PollState)
    ensures
        state == PollState::Probing,
{
    PollState::Probing
}

/// The operation to carry out in `state`.
pub fn poll_action(state: PollState) -> (action: PollAction)
    ensures
        is_poll_action(state, action),
{
    match state {
        PollState::Probing => PollAction::Probe,
        PollState::Delivering { reading } => PollAction::Deliver { state: display_state(reading) },
        PollState::Sleeping => PollAction::Sleep { seconds: POLL_INTERVAL_SECS },
    }
}

/// Moves the cycle on by one event.
pub fn poll_step(state: PollState, event: PollEvent) -> (next: PollState)
    ensures
        next == next_poll(state, event),
{
    match (state, event) {
        (PollState::Probing, PollEvent::ProbeFinished { reading }) => PollState::Delivering {
            reading,
        },
        (PollState::Delivering { reading }, PollEvent::Delivered) => PollState::Sleeping,
        (PollState::Sleeping, PollEvent::Woke) => PollState::Probing,
        _ => state,
    }
}

/// One turn of the driver's loop: the state that follows on `event`,
/// together with the operation to carry out there.
pub fn poll_advance(state: PollState, event: PollEvent) -> (turn: (PollState, PollAction))
    ensures
        turn.0 == next_poll(state, event),
        is_poll_action(turn.0, turn.1),
{
    let next = poll_step(state, event);
    (next, poll_action(next))
}

/// The event that answers the operation of `state`.
pub open spec fn answers(state: PollState, event: PollEvent) -> bool {
    match state {
        PollState::Probing => event is ProbeFinished,
        PollState::Delivering { reading } => event is Delivered,
        PollState::Sleeping => event is Woke,
    }
}

/// One full cycle leads back to a new query, whatever the reading was: an
/// unknown reading is delivered like any other, and the rest that follows
/// lasts sixty seconds.
pub proof fn law_cycle_returns_to_probing(reading: BatteryReading)
    ensures
        next_poll(PollState::Probing, PollEvent::ProbeFinished { reading }) == (
        PollState::Delivering { reading }),
        next_poll(PollState::Delivering { reading }, PollEvent::Delivered) == PollState::Sleeping,
        next_poll(PollState::Sleeping, PollEvent::Woke) == PollState::Probing,
        forall|action: PollAction|
            is_poll_action(PollState::Sleeping, action) ==> action == (PollAction::Sleep {
                seconds: 60,
            }),
{
}

/// The cycle has no end: the answer to the operation of a state leads to
/// another state, any other event leaves the state as it is, and no state
/// is without a successor.
pub proof fn law_cycle_never_ends(state: PollState, event: PollEvent)
    ensures
        answers(state, event) ==> next_poll(state, event) != state,
        !answers(state, event) ==> next_poll(state, event) == state,
        exists|answer: PollEvent| answers(state, answer),
{
    match state {
        PollState::Probing => {
            assert(answers(state, PollEvent::ProbeFinished { reading: BatteryReading::Unknown }));
        },
        PollState::Delivering { reading } => {
            assert(answers(state, PollEvent::Delivered));
        },
        PollState::Sleeping => {
            assert(answers(state, PollEvent::Woke));
        },
    }
}

} // verus!
