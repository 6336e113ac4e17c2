//! The ways in which an operation on the profiling session can fail.

use vstd::prelude::*;
use vstd::string::StringExecFns;

verus! {

/// Why a request did not go through.
///
/// Only the last three make a call end abnormally. `AlreadyRunning` is a
/// state an operator may well observe, and a poll reports it as a row.
#[derive(Debug, PartialEq, Eq)]
pub enum SessionError {
    /// The start request came without its parameter, the ingest URL.
    ParameterError,
    /// A session is active; the request to start another is turned down.
    AlreadyRunning,
    /// The lock that guards the slot is poisoned.
    LockAcquisitionFailed,
    /// The profiling client could not build an agent. The field holds the
    /// client's own description of the failure.
    AgentCreationFailed(String),
    /// The profiling client built an agent and could not start it. The field
    /// holds the client's own description of the failure.
    AgentStartFailed(String),
}

impl SessionError {
    /// The text that the host reports for each failure.
    pub open spec fn message_spec(self) -> Seq<char> {
        match self {
            SessionError::ParameterError => "trace_start expects one parameter: the ingest URL"@,
            SessionError::AlreadyRunning => "Profiling already running"@,
            SessionError::LockAcquisitionFailed =>
                "Failed to acquire lock: poisoned lock: another task failed inside"@,
            SessionError::AgentCreationFailed(detail) => "Failed to create Pyroscope agent: "@
                + detail@,
            SessionError::AgentStartFailed(detail) => "Failed to start Pyroscope agent: "@
                + detail@,
        }
    }

    /// Whether the failure comes from the profiling client.
    pub open spec fn from_client(self) -> bool {
        self is AgentCreationFailed || self is AgentStartFailed
    }

    /// The text that the host reports for this failure.
    pub fn message(&self) -> (text: String)
        ensures
            text@ == self.message_spec(),
    {
        match self {
            SessionError::ParameterError => String::from_str(
                "trace_start expects one parameter: the ingest URL",
            ),
            SessionError::AlreadyRunning => String::from_str("Profiling already running"),
            SessionError::LockAcquisitionFailed => String::from_str(
                "Failed to acquire lock: poisoned lock: another task failed inside",
            ),
            SessionError::AgentCreationFailed(detail) => String::from_str(
                "Failed to create Pyroscope agent: ",
            ).concat(detail.as_str()),
            SessionError::AgentStartFailed(detail) => String::from_str(
                "Failed to start Pyroscope agent: ",
            ).concat(detail.as_str()),
        }
    }
}

} // verus!
