//! The slot that holds the one profiling session of the process.
//!
//! The slot is an ordinary value. Whoever holds it exclusively, here as
//! `&mut`, in a host behind a lock, checks and changes it in one step, so a
//! second start can never slip in between the check and the store.

use crate::agent::{launch, RunningAgent};
use crate::error::SessionError;
use crate::protocol::{start_transition, ClientReply, SlotStep, SlotView};
use vstd::prelude::*;

verus! {

/// Holds at most one running agent. The slot goes from empty to running and
/// back to empty, never from one running agent to another.
pub struct AgentSingleton {
    slot: Option<RunningAgent>,
}

impl View for AgentSingleton {
    type V = SlotView;

    /// The endpoint of the active session, if there is one.
    open spec fn view(&self) -> SlotView {
        match self.agent() {
            Some(agent) => Some(agent.endpoint_spec()),
            None => None,
        }
    }
}

impl AgentSingleton {
    /// The agent in the slot, if there is one.
    pub closed spec fn agent(&self) -> Option<RunningAgent> {
        self.slot
    }

    /// An empty slot.
    pub fn new() -> (singleton: Self)
        ensures
            singleton.agent() is None,
    {
        AgentSingleton { slot: None }
    }

    /// Whether a session is active.
    pub fn is_running(&self) -> (running: bool)
        ensures
            running == (self.agent() is Some),
    {
        self.slot.is_some()
    }

    /// The endpoint of the active session, if there is one.
    pub fn endpoint(&self) -> (endpoint: Option<&str>)
        ensures
            match endpoint {
                Some(text) => self@ == Some(text@),
                None => self@ is None,
            },
    {
        match &self.slot {
            Some(agent) => Some(agent.endpoint()),
            None => None,
        }
    }

    /// Starts a session for `url` unless one is active.
    ///
    /// With a session active the request is turned down with
    /// `AlreadyRunning` and the slot keeps its agent: nothing is built,
    /// nothing is replaced. With the slot empty the client is asked once for
    /// a session; the slot holds it if one comes back, and stays empty with
    /// the client's failure as the error if none does.
    pub fn try_start(&mut self, url: &str) -> (result: Result<(), SessionError>)
        ensures
            exists|reply: ClientReply| #[trigger]
                start_transition(old(self)@, url@, reply) == (SlotStep {
                    slot: final(self)@,
                    result,
                }),
            old(self).agent() is Some ==> final(self).agent() == old(self).agent(),
    {
        if self.slot.is_some() {
            assert(start_transition(self@, url@, ClientReply::Launched) == (SlotStep {
                slot: self@,
                result: Err(SessionError::AlreadyRunning),
            }));
            return Err(SessionError::AlreadyRunning);
        }
        match launch(url) {
            Ok(agent) => {
                self.slot = Some(agent);
                assert(start_transition(old(self)@, url@, ClientReply::Launched) == (SlotStep {
                    slot: self@,
                    result: Ok(()),
                }));
                Ok(())
            },
            Err(e) => {
                proof {
                    let failure = e;
                    match failure {
                        SessionError::AgentCreationFailed(detail) => {
                            assert(start_transition(
                                old(self)@,
                                url@,
                                ClientReply::CreationFailed(detail),
                            ) == (SlotStep { slot: self@, result: Err(failure) }));
                        },
                        SessionError::AgentStartFailed(detail) => {
                            assert(start_transition(
                                old(self)@,
                                url@,
                                ClientReply::StartFailed(detail),
                            ) == (SlotStep { slot: self@, result: Err(failure) }));
                        },
                        _ => {},
                    }
                }
                Err(e)
            },
        }
    }

    /// Takes the agent out of the slot, if there is one, and hands it to the
    /// caller, who is to shut it down. The slot is empty afterwards.
    pub fn try_stop(&mut self) -> (taken: Option<RunningAgent>)
        ensures
            taken == old(self).agent(),
            final(self).agent() is None,
    {
        self.slot.take()
    }
}

} // verus!
