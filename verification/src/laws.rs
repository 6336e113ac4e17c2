//! What holds of the protocol whatever the host and the profiling client do.
//!
//! The laws speak of `start_poll` and `stop_poll`, the steps that the two
//! executable `poll` functions are specified to take. Access to the slot is
//! exclusive, so polls that race for it take their steps one after the other;
//! a law that holds for every order of steps holds for every race.

use crate::cursor::PollState;
use crate::error::SessionError;
use crate::protocol::{start_poll, stop_poll, ClientReply, PollStep, SlotView};
use crate::status::{Batch, Status};
use vstd::prelude::*;

verus! {

/// Which of the two operations a call is.
pub enum Operation {
    /// `trace_start(url)`.
    Start { url: Seq<char> },
    /// `trace_stop()`.
    Stop,
}

/// What a poll meets and cannot choose: whether it gets the slot's lock, and
/// what the profiling client replies should the poll ask it for a session.
pub struct Circumstance {
    pub locked: bool,
    pub reply: ClientReply,
}

/// One poll of a call of operation `op`.
pub open spec fn poll_step(op: Operation, cursor: PollState, slot: SlotView, met: Circumstance)
    -> PollStep {
    match op {
        Operation::Start { url } => start_poll(cursor, met.locked, slot, url, met.reply),
        Operation::Stop => stop_poll(cursor, met.locked, slot),
    }
}

/// A call polled once for each element of `met`, in order, with nothing else
/// touching the slot in between: the cursor and the slot after the last of
/// these polls, and what that poll handed back. For no poll at all, the
/// cursor and the slot as they were.
pub open spec fn poll_repeatedly(
    op: Operation,
    cursor: PollState,
    slot: SlotView,
    met: Seq<Circumstance>,
) -> PollStep
    decreases met.len(),
{
    if met.len() == 0 {
        PollStep { cursor, slot, polled: Ok(Batch::Empty) }
    } else {
        let before = poll_repeatedly(op, cursor, slot, met.drop_last());
        poll_step(op, before.cursor, before.slot, met.last())
    }
}

/// One poll in the life of the process: some call's cursor, as it stands, is
/// polled under some circumstance.
pub struct Event {
    pub op: Operation,
    pub cursor: PollState,
    pub met: Circumstance,
}

/// The slot after a history of polls, starting from the empty slot that the
/// process begins with.
pub open spec fn slot_after(history: Seq<Event>) -> SlotView
    decreases history.len(),
{
    if history.len() == 0 {
        None
    } else {
        let last = history.last();
        poll_step(last.op, last.cursor, slot_after(history.drop_last()), last.met).slot
    }
}

/// Whether a poll handed back the one row `status`.
pub open spec fn reports(polled: Result<Batch, SessionError>, status: Status) -> bool {
    polled == Ok::<Batch, SessionError>(Batch::Row(status))
}

/// Number of agents alive after a history of polls: one more for each poll
/// that reported `Started`, one less for each that reported `Stopped`.
pub open spec fn agents_alive(history: Seq<Event>) -> int
    decreases history.len(),
{
    if history.len() == 0 {
        0
    } else {
        let last = history.last();
        let before = slot_after(history.drop_last());
        let polled = poll_step(last.op, last.cursor, before, last.met).polled;
        agents_alive(history.drop_last()) + (if reports(polled, Status::Started) {
            1int
        } else {
            0int
        }) - (if reports(polled, Status::Stopped) {
            1int
        } else {
            0int
        })
    }
}

/// Exclusivity. After any history of polls, by any calls, in any order and
/// under any circumstances, at most one agent is alive: exactly one while the
/// slot holds a session, none while it is empty. A history's prefixes are
/// histories, so this holds at every instant.
pub proof fn at_most_one_agent(history: Seq<Event>)
    ensures
        agents_alive(history) == (if slot_after(history) is Some {
            1int
        } else {
            0int
        }),
        0 <= agents_alive(history) <= 1,
    decreases history.len(),
{
    if history.len() > 0 {
        at_most_one_agent(history.drop_last());
    }
}

/// Every poll leaves its cursor `Done`.
pub proof fn poll_exhausts_cursor(
    op: Operation,
    cursor: PollState,
    slot: SlotView,
    met: Circumstance,
)
    ensures
        poll_step(op, cursor, slot, met).cursor == PollState::Done,
{
}

/// Starting on an empty slot. When the client launches the session, the
/// productive poll of `trace_start(url)` reports `Started`, and the slot
/// holds the session for `url`.
pub proof fn start_on_empty_slot(url: Seq<char>)
    ensures
        start_poll(PollState::Pending, true, None, url, ClientReply::Launched) == (PollStep {
            cursor: PollState::Done,
            slot: Some(url),
            polled: Ok(Batch::Row(Status::Started)),
        }),
{
}

/// Starting on an occupied slot. Whatever the client would reply, the
/// productive poll of `trace_start(second)` reports `AlreadyRunning`, and the
/// slot keeps the session it had.
pub proof fn start_on_occupied_slot(first: Seq<char>, second: Seq<char>, reply: ClientReply)
    ensures
        start_poll(PollState::Pending, true, Some(first), second, reply) == (PollStep {
            cursor: PollState::Done,
            slot: Some(first),
            polled: Ok(Batch::Row(Status::AlreadyRunning)),
        }),
{
}

/// A start right after a start. The first call's session is up; the second
/// call is told `AlreadyRunning`, and the active session is still the first
/// call's.
pub proof fn second_start_is_turned_down(first: Seq<char>, second: Seq<char>, reply: ClientReply)
    ensures
        ({
            let one = start_poll(PollState::Pending, true, None, first, ClientReply::Launched);
            let two = start_poll(PollState::Pending, true, one.slot, second, reply);
            &&& reports(one.polled, Status::Started)
            &&& reports(two.polled, Status::AlreadyRunning)
            &&& two.slot == Some(first)
        }),
{
}

/// Stopping an active session. The productive poll of `trace_stop()` reports
/// `Stopped` and leaves the slot empty.
pub proof fn stop_on_occupied_slot(active: Seq<char>)
    ensures
        stop_poll(PollState::Pending, true, Some(active)) == (PollStep {
            cursor: PollState::Done,
            slot: None,
            polled: Ok(Batch::Row(Status::Stopped)),
        }),
{
}

/// Stopping with no session active. The productive poll of `trace_stop()`
/// reports `NotRunning` and the slot is as empty as it was.
pub proof fn stop_on_empty_slot()
    ensures
        stop_poll(PollState::Pending, true, None) == (PollStep {
            cursor: PollState::Done,
            slot: None,
            polled: Ok(Batch::Row(Status::NotRunning)),
        }),
{
}

/// Idempotence of polling. However often a call is polled, and under
/// whatever circumstances, every poll but the first hands back the empty
/// batch, not a row and not an error, and leaves the slot as the first poll
/// left it.
pub proof fn later_polls_are_empty(
    op: Operation,
    cursor: PollState,
    slot: SlotView,
    met: Seq<Circumstance>,
)
    requires
        met.len() >= 2,
    ensures
        poll_repeatedly(op, cursor, slot, met).polled == Ok::<Batch, SessionError>(Batch::Empty),
        poll_repeatedly(op, cursor, slot, met).cursor == PollState::Done,
        poll_repeatedly(op, cursor, slot, met).slot == poll_repeatedly(
            op,
            cursor,
            slot,
            met.take(1),
        ).slot,
    decreases met.len(),
{
    let earlier = met.drop_last();
    if met.len() == 2 {
        assert(earlier =~= met.take(1));
        assert(earlier.drop_last().len() == 0);
    } else {
        later_polls_are_empty(op, cursor, slot, earlier);
        assert(earlier.take(1) =~= met.take(1));
    }
}

/// A call hands back at most one row in all its polls: a poll that follows
/// any poll of the same call hands back none.
pub proof fn poll_after_poll_is_empty(
    op: Operation,
    cursor: PollState,
    slot: SlotView,
    first: Circumstance,
    second: Circumstance,
)
    ensures
        ({
            let one = poll_step(op, cursor, slot, first);
            let two = poll_step(op, one.cursor, one.slot, second);
            two == (PollStep { cursor: PollState::Done, slot: one.slot, polled: Ok(Batch::Empty) })
        }),
{
}

/// Round trip. Start, stop, start again, each by a call of its own and for
/// the same `url`: when the client launches both sessions, both starts
/// report `Started`, the stop in between reports `Stopped`, and the slot ends
/// up holding the session for `url`.
pub proof fn start_stop_start(url: Seq<char>)
    ensures
        ({
            let one = start_poll(PollState::Pending, true, None, url, ClientReply::Launched);
            let two = stop_poll(PollState::Pending, true, one.slot);
            let three = start_poll(PollState::Pending, true, two.slot, url, ClientReply::Launched);
            &&& reports(one.polled, Status::Started)
            &&& reports(two.polled, Status::Stopped)
            &&& two.slot is None
            &&& reports(three.polled, Status::Started)
            &&& three.slot == Some(url)
        }),
{
}

/// Two starts racing for an empty slot. Whichever takes its step first and
/// whatever the client replies to either, the two never both report
/// `Started`. When the client launches the session of the one that comes
/// first, that one reports `Started` and the other `AlreadyRunning`.
pub proof fn racing_starts(
    winner: Seq<char>,
    loser: Seq<char>,
    winner_reply: ClientReply,
    loser_reply: ClientReply,
)
    ensures
        ({
            let one = start_poll(PollState::Pending, true, None, winner, winner_reply);
            let two = start_poll(PollState::Pending, true, one.slot, loser, loser_reply);
            &&& !(reports(one.polled, Status::Started) && reports(two.polled, Status::Started))
            &&& winner_reply is Launched ==> reports(one.polled, Status::Started) && reports(
                two.polled,
                Status::AlreadyRunning,
            ) && two.slot == Some(winner)
        }),
{
}

} // verus!
