//! Whole runs of a cycle: the states it passes through and what it answers.
//!
//! A run is a start state and the events reported to it, each paired with
//! the time at which it was seen.

use crate::cycle::{Action, Cycle, Event, OutOfTurn};
use crate::position::PositionValue;
use vstd::prelude::*;

verus! {

impl Cycle {
    /// The state reached from `self` once all of `inputs` have been reported,
    /// in order.
    pub open spec fn after(self, inputs: Seq<(Event, u128)>) -> Cycle
        decreases inputs.len(),
    {
        if inputs.len() == 0 {
            self
        } else {
            let last = inputs.last();
            self.after(inputs.drop_last()).step(last.0, last.1).0
        }
    }

    /// The answer to the event at index `i` of `inputs`, in the run that
    /// starts in `self`.
    pub open spec fn answer_at(self, inputs: Seq<(Event, u128)>, i: int) -> Result<
        Action,
        OutOfTurn,
    >
        recommends
            0 <= i < inputs.len(),
    {
        self.after(inputs.take(i)).step(inputs[i].0, inputs[i].1).1
    }
}

/// The events of a poll in which the caller reads and pauses in turn: each of
/// `readings`, a position and the time at which it was read, followed by the
/// report of having woken from the pause.
pub open spec fn poll_events(readings: Seq<(PositionValue, u128)>) -> Seq<(Event, u128)>
    decreases readings.len(),
{
    if readings.len() == 0 {
        Seq::empty()
    } else {
        let (position, at) = readings.last();
        poll_events(readings.drop_last()).push((Event::Position(position), at)).push(
            (Event::Woke, at),
        )
    }
}

/// The state after one more event is one step on from the state before it.
pub proof fn lemma_after_push(start: Cycle, inputs: Seq<(Event, u128)>, event: Event, now: u128)
    ensures
        start.after(inputs.push((event, now))) == start.after(inputs).step(event, now).0,
{
    assert(inputs.push((event, now)).drop_last() =~= inputs);
}

/// The state after the first `i + 1` events is one step on from the state
/// after the first `i`.
pub proof fn lemma_after_next(start: Cycle, inputs: Seq<(Event, u128)>, i: int)
    requires
        0 <= i < inputs.len(),
    ensures
        start.after(inputs.take(i + 1)) == start.after(inputs.take(i)).step(
            inputs[i].0,
            inputs[i].1,
        ).0,
{
    assert(inputs.take(i + 1).drop_last() =~= inputs.take(i));
}

/// What holds of the state after the first `from` events, and is kept by
/// every step, holds of the state after the first `to`.
pub proof fn lemma_kept_along_run(
    start: Cycle,
    inputs: Seq<(Event, u128)>,
    from: int,
    to: int,
    kept: spec_fn(Cycle) -> bool,
)
    requires
        0 <= from <= to <= inputs.len(),
        kept(start.after(inputs.take(from))),
        forall|state: Cycle, event: Event, now: u128|
            kept(state) ==> #[trigger] kept(state.step(event, now).0),
    ensures
        kept(start.after(inputs.take(to))),
    decreases to - from,
{
    if from < to {
        lemma_kept_along_run(start, inputs, from, to - 1, kept);
        lemma_after_next(start, inputs, to - 1);
    }
}

} // verus!
