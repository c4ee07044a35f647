//! The rule by which a commanded move is taken to have begun.
//!
//! After a command the position is read again and again. The first reading
//! that differs from the one taken before the command settles the matter; so
//! does a reading taken once the deadline has passed, whatever it shows. Times
//! are nanoseconds on any clock the caller keeps.

use crate::position::PositionValue;
use vstd::prelude::*;

verus! {

/// How long after the command a reading still leads to another one.
pub const POLL_DEADLINE_NANOS: u128 = 5_000_000_000;

/// How long to wait between two readings.
pub const POLL_INTERVAL_NANOS: u64 = 100_000_000;

/// What one reading means for the wait.
#[derive(Clone, Copy, Debug, PartialEq, Eq, Structural)]
pub enum PollVerdict {
    /// The reading differs from the position before the command.
    Moved(PositionValue),
    /// The reading equals the position before the command and the deadline
    /// has passed. The wait ends all the same, with this reading.
    Expired(PositionValue),
    /// The reading equals the position before the command and the deadline
    /// has not passed: wait one interval and read again.
    Wait,
}

/// The wait for one commanded move.
#[derive(Clone, Copy, Debug, PartialEq, Eq, Structural)]
pub struct Poller {
    /// The position read before the command was issued.
    pub initial: PositionValue,
    /// When the command was acknowledged.
    pub started_at: u128,
}

impl Poller {
    /// Time passed since the command, at `now`. A clock that reads earlier
    /// than it did at the command counts as no time passed.
    pub open spec fn elapsed_at(self, now: u128) -> int {
        if now >= self.started_at {
            now - self.started_at
        } else {
            0
        }
    }

    /// The meaning of reading `current` at `now`.
    pub open spec fn verdict_at(self, current: PositionValue, now: u128) -> PollVerdict {
        if current != self.initial {
            PollVerdict::Moved(current)
        } else if self.elapsed_at(now) > POLL_DEADLINE_NANOS {
            PollVerdict::Expired(current)
        } else {
            PollVerdict::Wait
        }
    }

    /// Starts a wait for a move away from `initial`, commanded at `started_at`.
    pub fn new(initial: PositionValue, started_at: u128) -> (poller: Poller)
        ensures
            poller == (Poller { initial, started_at }),
    {
        Poller { initial, started_at }
    }

    /// Time passed since the command, at `now`.
    pub fn elapsed(&self, now: u128) -> (elapsed: u128)
        ensures
            elapsed == self.elapsed_at(now),
    {
        if now >= self.started_at {
            now - self.started_at
        } else {
            0
        }
    }

    /// Judges one reading. A changed position ends the wait at once; an
    /// unchanged one ends it only after the deadline, and then as a result
    /// like any other.
    pub fn observe(&self, current: PositionValue, now: u128) -> (verdict: PollVerdict)
        ensures
            verdict == self.verdict_at(current, now),
    {
        if current != self.initial {
            PollVerdict::Moved(current)
        } else if self.elapsed(now) > POLL_DEADLINE_NANOS {
            PollVerdict::Expired(current)
        } else {
            PollVerdict::Wait
        }
    }
}

} // verus!
