//! One request from start to finish, as a chain of decisions.
//!
//! A [`Cycle`] never touches the actuator or a clock. It names the next
//! [`Action`]; the caller carries it out and reports the [`Event`] that
//! followed, stamped with the time at which it was seen. The caller holds
//! exclusive access to the actuator from [`Cycle::begin`] until the cycle
//! answers with [`Action::Finish`], waits included.

use crate::poller::{PollVerdict, Poller, POLL_INTERVAL_NANOS};
use crate::position::PositionValue;
use crate::resolver::{RequestedUpdate, Resolution};
use vstd::prelude::*;

verus! {

/// The operations a caller can ask for.
#[derive(Clone, Copy, Debug, PartialEq, Eq)]
pub enum Request {
    /// Report the current position.
    Query,
    /// Bring the mount to a target and confirm that it set off.
    Update(RequestedUpdate),
    /// Recall the stored position with this identifier.
    RecallPreset(u8),
}

/// What a request that succeeded returns.
#[derive(Clone, Copy, Debug, PartialEq, Eq)]
pub enum Reply {
    /// The position last read from the actuator.
    Position(PositionValue),
    /// The actuator acknowledged the command; there is no position to report.
    Acknowledged,
}

/// A read from or a write to the actuator failed.
#[derive(Clone, Copy, Debug, PartialEq, Eq)]
pub struct DeviceCommunicationError;

/// What the caller is to do next.
#[derive(Clone, Copy, Debug, PartialEq, Eq)]
pub enum Action {
    /// Read the position and report it, or the failure to read it.
    ReadPosition,
    /// Send the mount to this position and report the acknowledgement, or
    /// the failure.
    CommandAbsolute(PositionValue),
    /// Recall this preset and report the acknowledgement, or the failure.
    RecallPreset(u8),
    /// Wait this many nanoseconds, then report having woken.
    Sleep(u64),
    /// The request is over, with this result. Nothing is left to do but to
    /// give up the actuator.
    Finish(Result<Reply, DeviceCommunicationError>),
}

/// What the caller saw on carrying out an action.
#[derive(Clone, Copy, Debug, PartialEq, Eq)]
pub enum Event {
    /// The actuator reported this position.
    Position(PositionValue),
    /// The actuator acknowledged a command.
    Ack,
    /// The wait is over.
    Woke,
    /// The actuator could not be read from or written to.
    Failure,
}

/// The reported event does not answer the action that was asked for.
#[derive(Clone, Copy, Debug, PartialEq, Eq)]
pub struct OutOfTurn;

/// Where a request stands.
#[derive(Clone, Copy, Debug, PartialEq, Eq)]
pub enum Cycle {
    /// A query waits for its one reading.
    Querying,
    /// An update waits for the reading that its target is resolved against.
    Locating(RequestedUpdate),
    /// The command is out and not yet acknowledged. `initial` is the reading
    /// taken before it.
    Commanding { initial: PositionValue },
    /// A reading is awaited that may show the move.
    Polling(Poller),
    /// The last reading showed no move; the pause before the next one runs.
    Pausing(Poller),
    /// A preset recall is out and not yet acknowledged.
    Recalling,
    /// The request is over.
    Finished,
}

impl Request {
    /// The state in which a request starts and the first thing it asks for.
    pub open spec fn opening(self) -> (Cycle, Action) {
        match self {
            Request::Query => (Cycle::Querying, Action::ReadPosition),
            Request::Update(update) => (Cycle::Locating(update), Action::ReadPosition),
            Request::RecallPreset(id) => (Cycle::Recalling, Action::RecallPreset(id)),
        }
    }
}

impl Cycle {
    /// The end of a request with `result`.
    pub open spec fn finish(result: Result<Reply, DeviceCommunicationError>) -> (
        Cycle,
        Result<Action, OutOfTurn>,
    ) {
        (Cycle::Finished, Ok(Action::Finish(result)))
    }

    /// The state after `event`, seen at `now`, and the answer to it.
    ///
    /// An event that does not answer the pending action is refused and
    /// leaves the state as it was. A failure of the actuator ends the
    /// request at whatever point it comes.
    pub open spec fn step(self, event: Event, now: u128) -> (Cycle, Result<Action, OutOfTurn>) {
        match (self, event) {
            (Cycle::Querying, Event::Position(current)) => Self::finish(
                Ok(Reply::Position(current)),
            ),
            (Cycle::Locating(update), Event::Position(current)) => match update.resolution_from(
                current,
            ) {
                Resolution::AlreadyThere(position) => Self::finish(Ok(Reply::Position(position))),
                Resolution::Move(target) => (
                    Cycle::Commanding { initial: current },
                    Ok(Action::CommandAbsolute(target)),
                ),
            },
            (Cycle::Commanding { initial }, Event::Ack) => (
                Cycle::Polling(Poller { initial, started_at: now }),
                Ok(Action::ReadPosition),
            ),
            (Cycle::Polling(poller), Event::Position(current)) => match poller.verdict_at(
                current,
                now,
            ) {
                PollVerdict::Moved(position) => Self::finish(Ok(Reply::Position(position))),
                PollVerdict::Expired(position) => Self::finish(Ok(Reply::Position(position))),
                PollVerdict::Wait => (
                    Cycle::Pausing(poller),
                    Ok(Action::Sleep(POLL_INTERVAL_NANOS)),
                ),
            },
            (Cycle::Pausing(poller), Event::Woke) => (
                Cycle::Polling(poller),
                Ok(Action::ReadPosition),
            ),
            (Cycle::Recalling, Event::Ack) => Self::finish(Ok(Reply::Acknowledged)),
            (Cycle::Querying, Event::Failure)
            | (Cycle::Locating(_), Event::Failure)
            | (Cycle::Commanding { .. }, Event::Failure)
            | (Cycle::Polling(_), Event::Failure)
            | (Cycle::Recalling, Event::Failure) => Self::finish(Err(DeviceCommunicationError)),
            _ => (self, Err(OutOfTurn)),
        }
    }

    /// Starts the cycle of `request` and says what to do first: read the
    /// position for a query or an update, recall the preset for a recall.
    pub fn begin(request: Request) -> (start: (Cycle, Action))
        ensures
            start == request.opening(),
    {
        match request {
            Request::Query => (Cycle::Querying, Action::ReadPosition),
            Request::Update(update) => (Cycle::Locating(update), Action::ReadPosition),
            Request::RecallPreset(id) => (Cycle::Recalling, Action::RecallPreset(id)),
        }
    }

    /// Whether the request is over.
    pub fn is_finished(&self) -> (finished: bool)
        ensures
            finished == (*self == Cycle::Finished),
    {
        match self {
            Cycle::Finished => true,
            _ => false,
        }
    }

    /// Takes in `event`, seen at `now` nanoseconds, and answers with the next
    /// action. The new state and the answer are those of [`Cycle::step`].
    pub fn advance(&mut self, event: Event, now: u128) -> (answer: Result<Action, OutOfTurn>)
        ensures
            (*final(self), answer) == old(self).step(event, now),
    {
        let failed: Result<Action, OutOfTurn> = Ok(Action::Finish(Err(DeviceCommunicationError)));
        let (next, answer) = match (*self, event) {
            (Cycle::Querying, Event::Position(current)) => (
                Cycle::Finished,
                Ok(Action::Finish(Ok(Reply::Position(current)))),
            ),
            (Cycle::Locating(update), Event::Position(current)) => match update.resolve(current) {
                Resolution::AlreadyThere(position) => (
                    Cycle::Finished,
                    Ok(Action::Finish(Ok(Reply::Position(position)))),
                ),
                Resolution::Move(target) => (
                    Cycle::Commanding { initial: current },
                    Ok(Action::CommandAbsolute(target)),
                ),
            },
            (Cycle::Commanding { initial }, Event::Ack) => (
                Cycle::Polling(Poller::new(initial, now)),
                Ok(Action::ReadPosition),
            ),
            (Cycle::Polling(poller), Event::Position(current)) => match poller.observe(
                current,
                now,
            ) {
                PollVerdict::Moved(position) | PollVerdict::Expired(position) => (
                    Cycle::Finished,
                    Ok(Action::Finish(Ok(Reply::Position(position)))),
                ),
                PollVerdict::Wait => (
                    Cycle::Pausing(poller),
                    Ok(Action::Sleep(POLL_INTERVAL_NANOS)),
                ),
            },
            (Cycle::Pausing(poller), Event::Woke) => (
                Cycle::Polling(poller),
                Ok(Action::ReadPosition),
            ),
            (Cycle::Recalling, Event::Ack) => (
                Cycle::Finished,
                Ok(Action::Finish(Ok(Reply::Acknowledged))),
            ),
            (Cycle::Querying, Event::Failure) => (Cycle::Finished, failed),
            (Cycle::Locating(_), Event::Failure) => (Cycle::Finished, failed),
            (Cycle::Commanding { .. }, Event::Failure) => (Cycle::Finished, failed),
            (Cycle::Polling(_), Event::Failure) => (Cycle::Finished, failed),
            (Cycle::Recalling, Event::Failure) => (Cycle::Finished, failed),
            (state, _) => (state, Err(OutOfTurn)),
        };
        *self = next;
        answer
    }
}

} // verus!
