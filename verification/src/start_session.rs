//! The operation behind `trace_start(url)`.
//!
//! The host binds the call once, makes it a cursor, and polls it until a poll
//! hands back the empty batch. The first poll asks the slot for a session and
//! reports in one row how that went; every later poll is empty.

use crate::cursor::{InvocationCursor, PollState};
use crate::error::SessionError;
use crate::protocol::{start_poll, start_transition, ClientReply, PollStep, SlotStep};
use crate::singleton::AgentSingleton;
use crate::status::{Batch, Status};
use vstd::prelude::*;

verus! {

/// Number of positional parameters that the operation declares: one text, the
/// ingest URL.
pub const PARAMETER_COUNT: usize = 1;

/// What the bind phase keeps of a call: the ingest URL.
#[derive(Debug)]
pub struct StartBind {
    url: String,
}

impl StartBind {
    /// The captured URL.
    pub closed spec fn url_spec(&self) -> Seq<char> {
        self.url@
    }

    /// The captured URL.
    pub fn url(&self) -> (url: &str)
        ensures
            url@ == self.url_spec(),
    {
        self.url.as_str()
    }
}

/// The bind phase: captures the first positional parameter as the URL.
///
/// A call without parameters is refused with `ParameterError`, whether or not
/// it would ever have been polled.
pub fn bind(parameters: &Vec<String>) -> (bound: Result<StartBind, SessionError>)
    ensures
        match bound {
            Ok(data) => parameters@.len() > 0 && data.url_spec() == parameters@[0]@,
            Err(e) => parameters@.len() == 0 && e == SessionError::ParameterError,
        },
{
    if parameters.len() == 0 {
        Err(SessionError::ParameterError)
    } else {
        Ok(StartBind { url: parameters[0].clone() })
    }
}

/// One poll of a start call.
///
/// `slot` is the slot as the poll got hold of it: `None` when its lock could
/// not be acquired. The poll is the step `start_poll` of the protocol, for
/// whatever the profiling client replies. Where the step does not bring a
/// session up, the slot keeps the very agent it had.
///
/// In the contract, `s` is the slot as the poll finds it and `final(s)` the
/// slot as the poll leaves it.
pub fn poll(
    cursor: &mut InvocationCursor,
    slot: Option<&mut AgentSingleton>,
    bind: &StartBind,
) -> (polled: Result<Batch, SessionError>)
    ensures
        match slot {
            Some(s) => exists|reply: ClientReply| #[trigger]
                start_poll(old(cursor).state(), true, s@, bind.url_spec(), reply)
                    == (PollStep { cursor: final(cursor).state(), slot: final(s)@, polled }),
            None => start_poll(
                old(cursor).state(),
                false,
                None,
                bind.url_spec(),
                ClientReply::Launched,
            ) == (PollStep { cursor: final(cursor).state(), slot: None, polled }),
        },
        slot matches Some(s) ==> (old(cursor).done() || s.agent() is Some) ==> final(s).agent()
            == s.agent(),
{
    if !cursor.advance() {
        proof {
            if let Some(s) = slot {
                assert(start_poll(
                    old(cursor).state(),
                    true,
                    s@,
                    bind.url_spec(),
                    ClientReply::Launched,
                ) == (PollStep { cursor: PollState::Done, slot: s@, polled: Ok(Batch::Empty) }));
            }
        }
        return Ok(Batch::Empty);
    }
    match slot {
        None => Err(SessionError::LockAcquisitionFailed),
        Some(s) => {
            let ghost before = s@;
            let result = s.try_start(bind.url());
            proof {
                let reply = choose|reply: ClientReply| #[trigger]
                    start_transition(before, bind.url_spec(), reply) == (SlotStep {
                        slot: s@,
                        result,
                    });
                assert(start_poll(PollState::Pending, true, before, bind.url_spec(), reply).slot
                    == s@);
            }
            match result {
                Ok(()) => Ok(Batch::Row(Status::Started)),
                Err(SessionError::AlreadyRunning) => Ok(Batch::Row(Status::AlreadyRunning)),
                Err(e) => Err(e),
            }
        },
    }
}

} // verus!
