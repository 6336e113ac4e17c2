use trace_control::cursor::InvocationCursor;
use trace_control::error::SessionError;
use trace_control::singleton::AgentSingleton;
use trace_control::start_session;
use trace_control::status::{Batch, Status};
use trace_control::stop_session;

fn start(slot: &mut AgentSingleton, url: &str) -> Result<Batch, SessionError> {
    let bound = start_session::bind(&vec![url.to_string()]).unwrap();
    let mut cursor = InvocationCursor::new();
    start_session::poll(&mut cursor, Some(slot), &bound)
}

fn stop(slot: &mut AgentSingleton) -> Result<Batch, SessionError> {
    let mut cursor = InvocationCursor::new();
    stop_session::poll(&mut cursor, Some(slot))
}

#[test]
fn at_most_one_session_over_a_history_of_calls() {
    let mut slot = AgentSingleton::new();
    let mut alive = 0;
    let a = "http://127.0.0.1:4040";
    let c = "http://127.0.0.1:4042";
    let calls = [
        "stop",
        "start http://127.0.0.1:4040",
        "start http://127.0.0.1:4041",
        "start http://127.0.0.1:4040",
        "stop",
        "stop",
        "start http://127.0.0.1:4042",
        "start http://127.0.0.1:4043",
    ];
    let expected = [
        Status::NotRunning,
        Status::Started,
        Status::AlreadyRunning,
        Status::AlreadyRunning,
        Status::Stopped,
        Status::NotRunning,
        Status::Started,
        Status::AlreadyRunning,
    ];
    let endpoints = [None, Some(a), Some(a), Some(a), None, None, Some(c), Some(c)];
    for i in 0..calls.len() {
        let polled = match calls[i].strip_prefix("start ") {
            Some(url) => start(&mut slot, url),
            None => stop(&mut slot),
        };
        assert_eq!(polled, Ok(Batch::Row(expected[i])));
        match expected[i] {
            Status::Started => alive += 1,
            Status::Stopped => alive -= 1,
            _ => {}
        }
        assert!(alive == 0 || alive == 1);
        assert_eq!(slot.is_running(), alive == 1);
        assert_eq!(slot.endpoint(), endpoints[i]);
    }
}

#[test]
fn lost_lock_changes_nothing_but_the_cursor() {
    let mut slot = AgentSingleton::new();
    assert_eq!(start(&mut slot, "http://127.0.0.1:4040"), Ok(Batch::Row(Status::Started)));

    let mut stop_call = InvocationCursor::new();
    assert_eq!(
        stop_session::poll(&mut stop_call, None),
        Err(SessionError::LockAcquisitionFailed)
    );
    // The call is spent: with the lock back, it still has nothing to say.
    assert_eq!(stop_session::poll(&mut stop_call, Some(&mut slot)), Ok(Batch::Empty));
    assert!(slot.is_running());
    assert_eq!(slot.endpoint(), Some("http://127.0.0.1:4040"));
}
