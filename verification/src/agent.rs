//! A running profiling session, and how one is brought up and torn down.

use crate::client::{
    build_agent, shutdown_agent, start_agent, stop_agent, ReadyHandle, RunningHandle,
};
use crate::error::SessionError;
use pyroscope::PyroscopeError;
use vstd::prelude::*;
use vstd::string::to_string_from_display_ensures;

verus! {

/// The application name under which every session reports.
pub const APPLICATION_NAME: &'static str = "duckdb-profile";

/// Samples per second. It is fixed: the interface offers no way to tune it.
pub const SAMPLE_RATE_HZ: u32 = 100;

/// An active profiling session: the client's handle, and the endpoint that
/// the session was configured with.
pub struct RunningAgent {
    endpoint: String,
    handle: RunningHandle,
}

impl RunningAgent {
    /// The ingest URL that the session sends to.
    pub closed spec fn endpoint_spec(&self) -> Seq<char> {
        self.endpoint@
    }

    /// The client's handle of the session.
    pub closed spec fn handle(&self) -> RunningHandle {
        self.handle
    }

    /// The ingest URL that the session sends to.
    pub fn endpoint(&self) -> (endpoint: &str)
        ensures
            endpoint@ == self.endpoint_spec(),
    {
        self.endpoint.as_str()
    }

    /// Tears the session down: the agent is stopped, then shut down. The
    /// call blocks until the client's threads have ended.
    ///
    /// An agent that fails to stop is given up: the client has taken the
    /// handle and there is nothing left to shut down.
    pub fn shutdown(self) {
        match stop_agent(self.handle) {
            Ok(ready) => shutdown_agent(ready),
            Err(_) => {},
        }
    }
}

/// What the client's answer to a build request comes to: the built agent, or
/// `AgentCreationFailed` with the client's description of its error.
pub fn on_build(
    answer: Result<ReadyHandle, PyroscopeError>,
) -> (built: Result<ReadyHandle, SessionError>)
    ensures
        match answer {
            Ok(handle) => built == Ok::<ReadyHandle, SessionError>(handle),
            Err(e) => built matches Err(SessionError::AgentCreationFailed(detail))
                && to_string_from_display_ensures::<PyroscopeError>(&e, detail),
        },
{
    match answer {
        Ok(handle) => Ok(handle),
        Err(e) => Err(SessionError::AgentCreationFailed(e.to_string())),
    }
}

/// What the client's answer to a start request comes to: a session for
/// `endpoint` around the started agent, or `AgentStartFailed` with the
/// client's description of its error.
pub fn on_start(
    endpoint: &str,
    answer: Result<RunningHandle, PyroscopeError>,
) -> (started: Result<RunningAgent, SessionError>)
    ensures
        match answer {
            Ok(handle) => started matches Ok(agent) && agent.endpoint_spec() == endpoint@
                && agent.handle() == handle,
            Err(e) => started matches Err(SessionError::AgentStartFailed(detail))
                && to_string_from_display_ensures::<PyroscopeError>(&e, detail),
        },
{
    match answer {
        Ok(handle) => Ok(RunningAgent { endpoint: endpoint.to_owned(), handle }),
        Err(e) => Err(SessionError::AgentStartFailed(e.to_string())),
    }
}

/// Asks the client for a session that sends to `endpoint`: an agent is built
/// for `endpoint`, `APPLICATION_NAME` and `SAMPLE_RATE_HZ`, and started.
///
/// Whether that works is the client's to say. A session that comes back is
/// for `endpoint`; a failure that comes back is the client's.
pub(crate) fn launch(endpoint: &str) -> (launched: Result<RunningAgent, SessionError>)
    ensures
        match launched {
            Ok(agent) => agent.endpoint_spec() == endpoint@,
            Err(e) => e.from_client(),
        },
{
    match on_build(build_agent(endpoint, APPLICATION_NAME, SAMPLE_RATE_HZ)) {
        Ok(ready) => on_start(endpoint, start_agent(ready)),
        Err(e) => Err(e),
    }
}

} // verus!
