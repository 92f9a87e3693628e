use deployer::errors::PipelineError;
use deployer::session::{
    exec_outcome, preferred_kex, ChannelEvent, Client, ExecTracker, Session, SessionState,
    INACTIVITY_TIMEOUT_SECS,
};

#[test]
fn exit_code_is_resolved_exactly() {
    let events = vec![
        ChannelEvent::Data(b"hi\n".to_vec()),
        ChannelEvent::ExitStatus(7),
    ];
    let mut sink = Vec::new();
    assert_eq!(exec_outcome(&events, &mut sink).unwrap(), 7);
    assert_eq!(sink, b"hi\n".to_vec());
}

#[test]
fn channel_without_exit_status_is_an_error() {
    let events = vec![ChannelEvent::Data(b"partial".to_vec()), ChannelEvent::Other];
    let mut sink = Vec::new();
    match exec_outcome(&events, &mut sink) {
        Err(PipelineError::RemoteExecution) => {}
        _ => panic!("a channel that closes without an exit status must fail"),
    }
    assert_eq!(sink, b"partial".to_vec());
}

#[test]
fn last_exit_status_wins() {
    let events = vec![ChannelEvent::ExitStatus(1), ChannelEvent::ExitStatus(0)];
    let mut sink = Vec::new();
    assert_eq!(exec_outcome(&events, &mut sink).unwrap(), 0);
    assert!(sink.is_empty());
}

#[test]
fn stdout_is_streamed_in_order() {
    let events = vec![
        ChannelEvent::Data(b"a".to_vec()),
        ChannelEvent::ExtendedData(b"ignored".to_vec()),
        ChannelEvent::Data(b"b".to_vec()),
        ChannelEvent::ExitStatus(0),
        ChannelEvent::Data(b"c".to_vec()),
    ];
    let mut sink = Vec::new();
    assert_eq!(exec_outcome(&events, &mut sink).unwrap(), 0);
    assert_eq!(sink, b"abc".to_vec());
}

#[test]
fn tracker_streams_incrementally() {
    let mut t = ExecTracker::new();
    let mut sink = Vec::new();
    t.feed(&ChannelEvent::Data(b"x".to_vec()), &mut sink);
    assert_eq!(sink, b"x".to_vec());
    t.feed(&ChannelEvent::ExitStatus(3), &mut sink);
    assert_eq!(sink, b"x".to_vec());
}

#[test]
fn rejected_credentials_are_an_authentication_error() {
    let mut s = Session::new();
    assert_eq!(s.state, SessionState::Disconnected);
    s.begin_connect();
    assert!(s.on_handshake(true, &String::new()).is_ok());
    match s.on_auth(false) {
        Err(PipelineError::Authentication) => {}
        _ => panic!("rejected credentials must be an authentication error"),
    }
    assert_eq!(s.state, SessionState::Failed);
}

#[test]
fn handshake_failure_is_a_transport_error() {
    let mut s = Session::new();
    s.begin_connect();
    match s.on_handshake(false, &"connection refused".to_string()) {
        Err(PipelineError::Transport(m)) => assert_eq!(m, "connection refused"),
        _ => panic!("a handshake failure must be a transport error"),
    }
    assert_eq!(s.state, SessionState::Failed);
}

#[test]
fn graceful_run_reaches_closed() {
    let mut s = Session::new();
    s.begin_connect();
    assert!(s.on_handshake(true, &String::new()).is_ok());
    assert!(s.on_auth(true).is_ok());
    assert_eq!(s.state, SessionState::Authenticated);
    s.begin_exec();
    let mut t = ExecTracker::new();
    let mut sink = Vec::new();
    t.feed(&ChannelEvent::ExitStatus(0), &mut sink);
    assert_eq!(s.end_exec(t).unwrap(), 0);
    assert_eq!(s.state, SessionState::Authenticated);
    assert!(s.close(true, &String::new()).is_ok());
    assert_eq!(s.state, SessionState::Closed);
}

#[test]
fn close_failure_is_reported_but_still_closes() {
    let mut s = Session::new();
    s.begin_connect();
    assert!(s.on_handshake(true, &String::new()).is_ok());
    assert!(s.on_auth(true).is_ok());
    match s.close(false, &"reset".to_string()) {
        Err(PipelineError::Transport(m)) => assert_eq!(m, "reset"),
        _ => panic!("a close failure must be reported"),
    }
    assert_eq!(s.state, SessionState::Closed);
}

#[test]
fn connection_parameters_are_fixed() {
    assert_eq!(INACTIVITY_TIMEOUT_SECS, 5);
    assert_eq!(preferred_kex(), "diffie-hellman-group14-sha256");
    assert!(Client {}.check_server_key());
}
