//! The lifecycle of the slot and of a call, as mathematics.
//!
//! The executable operations are specified against the functions of this
//! file. What the profiling client answers when asked to bring a session up
//! is not ours to decide; it enters the model as a parameter, `ClientReply`.

use crate::cursor::PollState;
use crate::error::SessionError;
use crate::status::{Batch, Status};
use vstd::prelude::*;

verus! {

/// The slot as contracts see it: the endpoint of the active session, or
/// `None` when no session is active.
pub type SlotView = Option<Seq<char>>;

/// How the profiling client answers a request to bring a session up. The
/// failures carry the client's description of what went wrong.
pub enum ClientReply {
    /// An agent was built and started.
    Launched,
    /// No agent could be built.
    CreationFailed(String),
    /// An agent was built and could not be started.
    StartFailed(String),
}

/// The slot after a request, and what the request came to.
pub struct SlotStep {
    pub slot: SlotView,
    pub result: Result<(), SessionError>,
}

/// A request to start a session for `url`.
///
/// An occupied slot turns the request down and stays as it is: the client is
/// not asked. An empty slot takes the session when the client launches one,
/// and stays empty when it does not.
pub open spec fn start_transition(slot: SlotView, url: Seq<char>, reply: ClientReply) -> SlotStep {
    match slot {
        Some(_) => SlotStep { slot, result: Err(SessionError::AlreadyRunning) },
        None => match reply {
            ClientReply::Launched => SlotStep { slot: Some(url), result: Ok(()) },
            ClientReply::CreationFailed(detail) => SlotStep {
                slot: None,
                result: Err(SessionError::AgentCreationFailed(detail)),
            },
            ClientReply::StartFailed(detail) => SlotStep {
                slot: None,
                result: Err(SessionError::AgentStartFailed(detail)),
            },
        },
    }
}

/// What the productive poll of a start call hands to the host for each
/// outcome of the request: being turned down is a row, not a failure.
pub open spec fn start_report(result: Result<(), SessionError>) -> Result<Batch, SessionError> {
    match result {
        Ok(()) => Ok(Batch::Row(Status::Started)),
        Err(SessionError::AlreadyRunning) => Ok(Batch::Row(Status::AlreadyRunning)),
        Err(e) => Err(e),
    }
}

/// What the productive poll of a stop call hands to the host, by what it
/// found in the slot.
pub open spec fn stop_report(slot: SlotView) -> Status {
    match slot {
        Some(_) => Status::Stopped,
        None => Status::NotRunning,
    }
}

/// The cursor and the slot after a poll, and what the poll handed back.
pub struct PollStep {
    pub cursor: PollState,
    pub slot: SlotView,
    pub polled: Result<Batch, SessionError>,
}

/// One poll of a start call for `url`. `locked` tells whether the poll got
/// hold of the slot's lock.
///
/// A cursor that is `Done` yields the empty batch whatever else holds. A
/// pending cursor becomes `Done`; without the lock the poll fails, with it
/// the request is made and reported.
pub open spec fn start_poll(
    cursor: PollState,
    locked: bool,
    slot: SlotView,
    url: Seq<char>,
    reply: ClientReply,
) -> PollStep {
    if cursor == PollState::Done {
        PollStep { cursor: PollState::Done, slot, polled: Ok(Batch::Empty) }
    } else if !locked {
        PollStep {
            cursor: PollState::Done,
            slot,
            polled: Err(SessionError::LockAcquisitionFailed),
        }
    } else {
        let step = start_transition(slot, url, reply);
        PollStep { cursor: PollState::Done, slot: step.slot, polled: start_report(step.result) }
    }
}

/// One poll of a stop call. `locked` tells whether the poll got hold of the
/// slot's lock.
///
/// A cursor that is `Done` yields the empty batch whatever else holds. A
/// pending cursor becomes `Done`; without the lock the poll fails, with it
/// the slot is emptied and the poll reports what was in it.
pub open spec fn stop_poll(cursor: PollState, locked: bool, slot: SlotView) -> PollStep {
    if cursor == PollState::Done {
        PollStep { cursor: PollState::Done, slot, polled: Ok(Batch::Empty) }
    } else if !locked {
        PollStep {
            cursor: PollState::Done,
            slot,
            polled: Err(SessionError::LockAcquisitionFailed),
        }
    } else {
        PollStep {
            cursor: PollState::Done,
            slot: None,
            polled: Ok(Batch::Row(stop_report(slot))),
        }
    }
}

} // verus!
