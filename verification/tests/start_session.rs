use trace_control::cursor::InvocationCursor;
use trace_control::error::SessionError;
use trace_control::singleton::AgentSingleton;
use trace_control::start_session::{bind, poll, PARAMETER_COUNT};
use trace_control::status::{Batch, Status};

#[test]
fn start_declares_one_parameter() {
    assert_eq!(PARAMETER_COUNT, 1);
}

#[test]
fn bind_captures_the_url() {
    let bound = bind(&vec!["http://127.0.0.1:4040".to_string()]);
    match bound {
        Ok(data) => assert_eq!(data.url(), "http://127.0.0.1:4040"),
        Err(e) => panic!("unexpected {:?}", e),
    }
}

#[test]
fn bind_takes_the_first_parameter() {
    let bound = bind(&vec!["http://a".to_string(), "http://b".to_string()]);
    match bound {
        Ok(data) => assert_eq!(data.url(), "http://a"),
        Err(e) => panic!("unexpected {:?}", e),
    }
}

#[test]
fn bind_without_parameter_is_a_parameter_error() {
    match bind(&Vec::new()) {
        Err(e) => assert_eq!(e, SessionError::ParameterError),
        Ok(_) => panic!("nothing to bind"),
    }
}

#[test]
fn trace_start_on_empty_slot_reports_started() {
    let bound = bind(&vec!["http://127.0.0.1:4040".to_string()]).unwrap();
    let mut slot = AgentSingleton::new();
    let mut cursor = InvocationCursor::new();
    let polled = poll(&mut cursor, Some(&mut slot), &bound);
    assert_eq!(polled, Ok(Batch::Row(Status::Started)));
    assert_eq!(polled.unwrap().status().unwrap().text(), "Profiling started with Pyroscope");
    assert!(cursor.is_done());
    assert!(slot.is_running());
    assert_eq!(slot.endpoint(), Some("http://127.0.0.1:4040"));
}

#[test]
fn trace_start_polls_after_the_first_are_empty() {
    let bound = bind(&vec!["http://127.0.0.1:4040".to_string()]).unwrap();
    let mut slot = AgentSingleton::new();
    let mut cursor = InvocationCursor::new();
    assert_eq!(poll(&mut cursor, Some(&mut slot), &bound), Ok(Batch::Row(Status::Started)));
    for _ in 0..3 {
        let polled = poll(&mut cursor, Some(&mut slot), &bound);
        assert_eq!(polled, Ok(Batch::Empty));
        assert_eq!(polled.unwrap().len(), 0);
        assert!(cursor.is_done());
        assert_eq!(slot.endpoint(), Some("http://127.0.0.1:4040"));
    }
    assert_eq!(poll(&mut cursor, None, &bound), Ok(Batch::Empty));
}

#[test]
fn trace_start_twice_reports_already_running() {
    let first = bind(&vec!["http://127.0.0.1:4040".to_string()]).unwrap();
    let second = bind(&vec!["http://127.0.0.1:4041".to_string()]).unwrap();
    let mut slot = AgentSingleton::new();
    let mut one = InvocationCursor::new();
    let mut two = InvocationCursor::new();
    assert_eq!(poll(&mut one, Some(&mut slot), &first), Ok(Batch::Row(Status::Started)));
    let polled = poll(&mut two, Some(&mut slot), &second);
    assert_eq!(polled, Ok(Batch::Row(Status::AlreadyRunning)));
    assert_eq!(polled.unwrap().status().unwrap().text(), "Profiling already running");
    assert!(two.is_done());
    assert_eq!(slot.endpoint(), Some("http://127.0.0.1:4040"));
    assert_eq!(poll(&mut two, Some(&mut slot), &second), Ok(Batch::Empty));
}

#[test]
fn trace_start_without_the_lock_fails_once() {
    let bound = bind(&vec!["http://127.0.0.1:4040".to_string()]).unwrap();
    let mut cursor = InvocationCursor::new();
    assert_eq!(poll(&mut cursor, None, &bound), Err(SessionError::LockAcquisitionFailed));
    assert!(cursor.is_done());
    assert_eq!(poll(&mut cursor, None, &bound), Ok(Batch::Empty));
    let mut slot = AgentSingleton::new();
    assert_eq!(poll(&mut cursor, Some(&mut slot), &bound), Ok(Batch::Empty));
    assert!(!slot.is_running());
}

#[test]
fn trace_start_passes_the_client_failure_on() {
    let bound = bind(&vec!["http://127.0.0.1:4040".to_string()]).unwrap();
    let mut busy = AgentSingleton::new();
    assert_eq!(busy.try_start("http://127.0.0.1:4040"), Ok(()));
    let mut slot = AgentSingleton::new();
    let mut cursor = InvocationCursor::new();
    match poll(&mut cursor, Some(&mut slot), &bound) {
        Err(SessionError::AgentCreationFailed(detail)) => {
            let e = SessionError::AgentCreationFailed(detail);
            assert!(e.message().starts_with("Failed to create Pyroscope agent: "));
        }
        other => panic!("expected a creation failure, got {:?}", other),
    }
    assert!(cursor.is_done());
    assert!(!slot.is_running());
    assert_eq!(poll(&mut cursor, Some(&mut slot), &bound), Ok(Batch::Empty));
    assert!(!slot.is_running());
}

#[test]
fn racing_starts_first_caller_wins() {
    let a = bind(&vec!["http://127.0.0.1:4040".to_string()]).unwrap();
    let b = bind(&vec!["http://127.0.0.1:4041".to_string()]).unwrap();
    let mut slot = AgentSingleton::new();
    let mut call_a = InvocationCursor::new();
    let mut call_b = InvocationCursor::new();
    let polled_a = poll(&mut call_a, Some(&mut slot), &a);
    let polled_b = poll(&mut call_b, Some(&mut slot), &b);
    assert_eq!(polled_a, Ok(Batch::Row(Status::Started)));
    assert_eq!(polled_b, Ok(Batch::Row(Status::AlreadyRunning)));
    assert_eq!(slot.endpoint(), Some("http://127.0.0.1:4040"));
}

#[test]
fn racing_starts_other_caller_wins() {
    let a = bind(&vec!["http://127.0.0.1:4040".to_string()]).unwrap();
    let b = bind(&vec!["http://127.0.0.1:4041".to_string()]).unwrap();
    let mut slot = AgentSingleton::new();
    let mut call_a = InvocationCursor::new();
    let mut call_b = InvocationCursor::new();
    let polled_b = poll(&mut call_b, Some(&mut slot), &b);
    let polled_a = poll(&mut call_a, Some(&mut slot), &a);
    assert_eq!(polled_b, Ok(Batch::Row(Status::Started)));
    assert_eq!(polled_a, Ok(Batch::Row(Status::AlreadyRunning)));
    assert_eq!(slot.endpoint(), Some("http://127.0.0.1:4041"));
}
