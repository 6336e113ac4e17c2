//! The profiling client, as far as this library touches it.
//!
//! Everything in this file is taken on trust: Verus reads the contracts and
//! not the code behind them. The client starts threads and a signal timer, so
//! none of its answers is a function of the arguments; the contracts below
//! promise nothing about them, and the callers are verified for every answer.

use pyroscope::pyroscope::{PyroscopeAgent, PyroscopeAgentReady, PyroscopeAgentRunning};
use pyroscope::PyroscopeError;
use pyroscope_pprofrs::{pprof_backend, PprofConfig};
use vstd::prelude::*;

verus! {

/// `pyroscope::PyroscopeError`, opaque to the verifier.
#[verifier::external_type_specification]
#[verifier::external_body]
pub struct ExPyroscopeError(PyroscopeError);

/// A `PyroscopeAgent` in its ready state: built, and either not yet started
/// or stopped again. The verifier sees nothing inside it.
#[verifier::external_body]
pub struct ReadyHandle {
    inner: PyroscopeAgent<PyroscopeAgentReady>,
}

/// A `PyroscopeAgent` in its running state. The verifier sees nothing inside
/// it.
#[verifier::external_body]
pub struct RunningHandle {
    inner: PyroscopeAgent<PyroscopeAgentRunning>,
}

/// Calls `PyroscopeAgent::builder(endpoint, application)`, gives the builder
/// the backend that `pprof_backend` makes of a `PprofConfig` with the given
/// sampling rate, and calls `build`.
///
/// The contract claims nothing of the answer. It asks for a sampling rate
/// that is positive and fits an `i32`: the backend casts the rate to `i32`
/// and divides by it.
#[verifier::external_body]
pub(crate) fn build_agent(
    endpoint: &str,
    application: &str,
    sample_rate: u32,
) -> (built: Result<ReadyHandle, PyroscopeError>)
    requires
        0 < sample_rate <= i32::MAX,
{
    let backend = pprof_backend(PprofConfig::new().sample_rate(sample_rate));
    match PyroscopeAgent::builder(endpoint, application).backend(backend).build() {
        Ok(inner) => Ok(ReadyHandle { inner }),
        Err(e) => Err(e),
    }
}

/// Calls `PyroscopeAgent::start` on a ready agent. The contract claims
/// nothing of the answer.
#[verifier::external_body]
pub(crate) fn start_agent(agent: ReadyHandle) -> (started: Result<RunningHandle, PyroscopeError>) {
    match agent.inner.start() {
        Ok(inner) => Ok(RunningHandle { inner }),
        Err(e) => Err(e),
    }
}

/// Calls `PyroscopeAgent::stop` on a running agent, which tells the agent's
/// worker thread to end, waits until it has, and hands the agent back in its
/// ready state. The contract claims nothing of the answer.
#[verifier::external_body]
pub(crate) fn stop_agent(agent: RunningHandle) -> (stopped: Result<ReadyHandle, PyroscopeError>) {
    match agent.inner.stop() {
        Ok(inner) => Ok(ReadyHandle { inner }),
        Err(e) => Err(e),
    }
}

/// Calls `PyroscopeAgent::shutdown`, which releases the backend and joins the
/// agent's threads, and returns nothing.
///
/// It takes a ready agent only: `shutdown` joins the worker thread, and that
/// thread ends only when `stop` has told it to.
#[verifier::external_body]
pub(crate) fn shutdown_agent(agent: ReadyHandle) {
    agent.inner.shutdown()
}

} // verus!
