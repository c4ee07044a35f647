//! What holds of every cycle, whatever the actuator does.

use crate::cycle::{Action, Cycle, DeviceCommunicationError, Event, OutOfTurn, Reply, Request};
use crate::poller::{Poller, POLL_DEADLINE_NANOS, POLL_INTERVAL_NANOS};
use crate::position::PositionValue;
use crate::resolver::RequestedUpdate;
use crate::trace::{lemma_after_next, lemma_after_push, lemma_kept_along_run, poll_events};
use vstd::prelude::*;

verus! {

/// A finished cycle stays finished and asks for nothing more: every further
/// event is refused. All that a request does to the actuator therefore lies
/// between its start and its `Finish`.
pub proof fn law_finished_is_final(inputs: Seq<(Event, u128)>, i: int)
    requires
        0 <= i < inputs.len(),
    ensures
        Cycle::Finished.after(inputs.take(i)) == Cycle::Finished,
        Cycle::Finished.answer_at(inputs, i) == Err::<Action, OutOfTurn>(OutOfTurn),
{
    let kept = |state: Cycle| state == Cycle::Finished;
    assert(inputs.take(0) =~= Seq::empty());
    lemma_kept_along_run(Cycle::Finished, inputs, 0, i, kept);
}

/// A cycle reports no position but the one it has just been told: a reply
/// with a position is the answer to the very reading that carried it. None
/// is kept from an earlier reading or made up.
pub proof fn law_reply_is_the_reading_answered(
    state: Cycle,
    event: Event,
    now: u128,
    position: PositionValue,
)
    requires
        state.step(event, now).1 == Ok::<Action, OutOfTurn>(
            Action::Finish(Ok(Reply::Position(position))),
        ),
    ensures
        event == Event::Position(position),
{
}

/// A cycle ends in an error exactly when the actuator fails while the cycle
/// waits on it, and then at once. In particular no wait that runs out, and
/// no reading, ends a cycle in an error.
pub proof fn law_error_exactly_on_failure(state: Cycle, event: Event, now: u128)
    ensures
        state.step(event, now).1 == Ok::<Action, OutOfTurn>(
            Action::Finish(Err(DeviceCommunicationError)),
        ) <==> {
            &&& event == Event::Failure
            &&& state != Cycle::Finished
            &&& !(state is Pausing)
        },
        state.step(event, now).1 == Ok::<Action, OutOfTurn>(
            Action::Finish(Err(DeviceCommunicationError)),
        ) ==> state.step(event, now).0 == Cycle::Finished,
{
}

/// An update whose target is the position found at its start sends no
/// command and reads no second time: the first reading is answered with
/// success and that very position, and the cycle is over.
pub proof fn law_update_to_current_is_idle(
    update: RequestedUpdate,
    current: PositionValue,
    inputs: Seq<(Event, u128)>,
    i: int,
)
    requires
        update.target_from(current) == current,
        0 <= i < inputs.len(),
        inputs[0].0 == Event::Position(current),
    ensures
        Request::Update(update).opening() == (Cycle::Locating(update), Action::ReadPosition),
        i == 0 ==> Cycle::Locating(update).answer_at(inputs, i) == Ok::<Action, OutOfTurn>(
            Action::Finish(Ok(Reply::Position(current))),
        ),
        i > 0 ==> Cycle::Locating(update).answer_at(inputs, i) == Err::<Action, OutOfTurn>(
            OutOfTurn,
        ),
{
    let start = Cycle::Locating(update);
    assert(inputs.take(0) =~= Seq::empty());
    if i > 0 {
        let kept = |state: Cycle| state == Cycle::Finished;
        lemma_after_next(start, inputs, 0);
        lemma_kept_along_run(start, inputs, 1, i, kept);
    }
}

/// An update sends at most one command, in answer to its first reading, and
/// to the target resolved against that reading. Nothing the actuator reports
/// later in the cycle changes the target or leads to a second command.
pub proof fn law_target_is_fixed_by_first_reading(
    update: RequestedUpdate,
    first: PositionValue,
    inputs: Seq<(Event, u128)>,
    i: int,
    target: PositionValue,
)
    requires
        0 <= i < inputs.len(),
        inputs[0].0 == Event::Position(first),
        Cycle::Locating(update).answer_at(inputs, i) == Ok::<Action, OutOfTurn>(
            Action::CommandAbsolute(target),
        ),
    ensures
        i == 0,
        target == update.target_from(first),
        target != first,
{
    let start = Cycle::Locating(update);
    assert(inputs.take(0) =~= Seq::empty());
    if i > 0 {
        let kept = |state: Cycle|
            match state {
                Cycle::Commanding { .. }
                | Cycle::Polling(_)
                | Cycle::Pausing(_)
                | Cycle::Finished => true,
                _ => false,
            };
        lemma_after_next(start, inputs, 0);
        lemma_kept_along_run(start, inputs, 1, i, kept);
    }
}

/// Whether `state` is part of the poll that `poller` describes, or past it.
pub open spec fn in_poll_of(state: Cycle, poller: Poller) -> bool {
    state == Cycle::Polling(poller) || state == Cycle::Pausing(poller) || state == Cycle::Finished
}

/// A poll keeps the reading and the starting time it began with until the
/// cycle is over.
pub proof fn lemma_poll_keeps_its_poller(poller: Poller, inputs: Seq<(Event, u128)>, i: int)
    requires
        0 <= i <= inputs.len(),
    ensures
        in_poll_of(Cycle::Polling(poller).after(inputs.take(i)), poller),
{
    let kept = |state: Cycle| in_poll_of(state, poller);
    assert(inputs.take(0) =~= Seq::empty());
    lemma_kept_along_run(Cycle::Polling(poller), inputs, 0, i, kept);
}

/// A poll ends in success for one of two reasons only: the reading differs
/// from the position before the command, or it was taken after the deadline.
/// Either way the reply is that reading.
pub proof fn law_poll_ends_on_change_or_deadline(
    poller: Poller,
    inputs: Seq<(Event, u128)>,
    i: int,
    position: PositionValue,
)
    requires
        0 <= i < inputs.len(),
        Cycle::Polling(poller).answer_at(inputs, i) == Ok::<Action, OutOfTurn>(
            Action::Finish(Ok(Reply::Position(position))),
        ),
    ensures
        inputs[i].0 == Event::Position(position),
        position != poller.initial || poller.elapsed_at(inputs[i].1) > POLL_DEADLINE_NANOS,
{
    lemma_poll_keeps_its_poller(poller, inputs, i);
}

/// A poll goes on only while the deadline has not passed. Whenever a
/// polling cycle asks for a pause, the reading before it was taken no later
/// than the deadline after the command, and the pause is one interval long:
/// it is over, at the latest, one interval after the deadline.
pub proof fn law_pause_ends_by_deadline_plus_interval(
    poller: Poller,
    inputs: Seq<(Event, u128)>,
    i: int,
    pause: u64,
)
    requires
        0 <= i < inputs.len(),
        Cycle::Polling(poller).answer_at(inputs, i) == Ok::<Action, OutOfTurn>(
            Action::Sleep(pause),
        ),
    ensures
        pause == POLL_INTERVAL_NANOS,
        inputs[i].1 <= poller.started_at + POLL_DEADLINE_NANOS,
        inputs[i].1 + pause <= poller.started_at + POLL_DEADLINE_NANOS + POLL_INTERVAL_NANOS,
{
    lemma_poll_keeps_its_poller(poller, inputs, i);
}

/// A poll takes a bounded number of readings. Where the caller reads and
/// pauses in turn and the clock moves on by at least one interval from each
/// reading to the next, so that reading number `k`, counted from zero, comes
/// no earlier than `k` intervals after the command, the cycle is over once
/// as many readings are in as intervals fit into the deadline, and two more.
pub proof fn law_poll_takes_bounded_readings(poller: Poller, readings: Seq<(PositionValue, u128)>)
    requires
        forall|k: int|
            0 <= k < readings.len() ==> (#[trigger] readings[k]).1 >= poller.started_at + k
                * POLL_INTERVAL_NANOS,
    ensures
        Cycle::Polling(poller).after(poll_events(readings)) == Cycle::Finished || Cycle::Polling(
            poller,
        ).after(poll_events(readings)) == Cycle::Polling(poller),
        readings.len() >= POLL_DEADLINE_NANOS / (POLL_INTERVAL_NANOS as u128) + 2 ==> Cycle::Polling(
            poller,
        ).after(poll_events(readings)) == Cycle::Finished,
    decreases readings.len(),
{
    let start = Cycle::Polling(poller);
    if readings.len() > 0 {
        let earlier = readings.drop_last();
        let (position, at) = readings.last();
        assert forall|k: int| 0 <= k < earlier.len() implies (#[trigger] earlier[k]).1
            >= poller.started_at + k * POLL_INTERVAL_NANOS by {
            assert(earlier[k] == readings[k]);
        }
        law_poll_takes_bounded_readings(poller, earlier);
        let read = poll_events(earlier).push((Event::Position(position), at));
        lemma_after_push(start, poll_events(earlier), Event::Position(position), at);
        lemma_after_push(start, read, Event::Woke, at);
        assert(readings[readings.len() - 1] == readings.last());
    }
}

/// A reading taken after the deadline ends the poll, whatever it shows, and
/// ends it with success and that reading.
pub proof fn law_reading_after_deadline_finishes(
    poller: Poller,
    current: PositionValue,
    now: u128,
)
    requires
        now > poller.started_at + POLL_DEADLINE_NANOS,
    ensures
        Cycle::Polling(poller).step(Event::Position(current), now) == Cycle::finish(
            Ok(Reply::Position(current)),
        ),
{
}

/// An actuator that answers every reading with the position from before the
/// command, and never fails, still brings the cycle to success. The cycle
/// never finishes in an error: it can only finish with that unchanged
/// position, in answer to a reading taken after the deadline. Until then it
/// pauses and reads in turn.
pub proof fn law_unmoved_actuator_ends_in_success(
    poller: Poller,
    inputs: Seq<(Event, u128)>,
    i: int,
)
    requires
        0 <= i < inputs.len(),
        forall|j: int|
            0 <= j < inputs.len() ==> (#[trigger] inputs[j]).0 == Event::Position(poller.initial)
                || inputs[j].0 == Event::Woke,
    ensures
        match Cycle::Polling(poller).answer_at(inputs, i) {
            Ok(Action::Finish(result)) => {
                &&& result == Ok::<Reply, DeviceCommunicationError>(
                    Reply::Position(poller.initial),
                )
                &&& poller.elapsed_at(inputs[i].1) > POLL_DEADLINE_NANOS
            },
            Ok(Action::Sleep(_)) => poller.elapsed_at(inputs[i].1) <= POLL_DEADLINE_NANOS,
            Ok(Action::ReadPosition) => inputs[i].0 == Event::Woke,
            Ok(_) => false,
            Err(_) => true,
        },
{
    lemma_poll_keeps_its_poller(poller, inputs, i);
}

/// A query or an update that succeeds reports a position: it never ends with
/// a bare acknowledgement.
pub proof fn law_query_and_update_reply_with_position(
    request: Request,
    inputs: Seq<(Event, u128)>,
    i: int,
    reply: Reply,
)
    requires
        0 <= i < inputs.len(),
        !(request is RecallPreset),
        request.opening().0.answer_at(inputs, i) == Ok::<Action, OutOfTurn>(
            Action::Finish(Ok(reply)),
        ),
    ensures
        reply is Position,
{
    let kept = |state: Cycle| state != Cycle::Recalling;
    assert(inputs.take(0) =~= Seq::empty());
    lemma_kept_along_run(request.opening().0, inputs, 0, i, kept);
}

/// Recalling a preset neither reads the position nor waits nor commands a
/// move. Its cycle opens with the recall itself, and whatever is reported
/// to it, it answers only by finishing or by refusing the event.
pub proof fn law_recall_never_asks_for_position(id: u8, inputs: Seq<(Event, u128)>, i: int)
    requires
        0 <= i < inputs.len(),
    ensures
        Request::RecallPreset(id).opening() == (Cycle::Recalling, Action::RecallPreset(id)),
        match Cycle::Recalling.answer_at(inputs, i) {
            Ok(Action::Finish(Ok(reply))) => reply == Reply::Acknowledged,
            Ok(Action::Finish(Err(_))) => true,
            Ok(_) => false,
            Err(_) => true,
        },
{
    let kept = |state: Cycle| state == Cycle::Recalling || state == Cycle::Finished;
    assert(inputs.take(0) =~= Seq::empty());
    lemma_kept_along_run(Cycle::Recalling, inputs, 0, i, kept);
}

} // verus!
