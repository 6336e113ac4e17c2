//! The operation behind `trace_stop()`.
//!
//! The call takes no parameters, so there is nothing to bind. The first poll
//! empties the slot, shuts down what it found there, and reports in one row
//! which of the two it was; every later poll is empty.

use crate::cursor::InvocationCursor;
use crate::error::SessionError;
use crate::protocol::{stop_poll, PollStep};
use crate::singleton::AgentSingleton;
use crate::status::{Batch, Status};
use vstd::prelude::*;

verus! {

/// One poll of a stop call.
///
/// `slot` is the slot as the poll got hold of it: `None` when its lock could
/// not be acquired. The poll is the step `stop_poll` of the protocol. An
/// agent that the poll takes out of the slot is shut down before the poll
/// returns, which may block for as long as the client's threads take to end.
/// A poll that is not the productive one leaves the slot's agent in place.
///
/// In the contract, `s` is the slot as the poll finds it and `final(s)` the
/// slot as the poll leaves it.
pub fn poll(
    cursor: &mut InvocationCursor,
    slot: Option<&mut AgentSingleton>,
) -> (polled: Result<Batch, SessionError>)
    ensures
        match slot {
            Some(s) => stop_poll(old(cursor).state(), true, s@) == (PollStep {
                cursor: final(cursor).state(),
                slot: final(s)@,
                polled,
            }),
            None => stop_poll(old(cursor).state(), false, None) == (PollStep {
                cursor: final(cursor).state(),
                slot: None,
                polled,
            }),
        },
        slot matches Some(s) ==> old(cursor).done() ==> final(s).agent() == s.agent(),
{
    if !cursor.advance() {
        return Ok(Batch::Empty);
    }
    match slot {
        None => Err(SessionError::LockAcquisitionFailed),
        Some(s) => match s.try_stop() {
            Some(agent) => {
                agent.shutdown();
                Ok(Batch::Row(Status::Stopped))
            },
            None => Ok(Batch::Row(Status::NotRunning)),
        },
    }
}

} // verus!
