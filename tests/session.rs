use ufactory_studio::codec::DecodeError;
use ufactory_studio::session::{
    listener_step, DiscoverySession, ListenerAction, Phase, ReceiveOutcome, SessionError,
    SetupOutcome,
};

fn running() -> DiscoverySession {
    let mut s = DiscoverySession::new();
    s.start().unwrap();
    s.setup_finished(SetupOutcome::Ready).unwrap();
    s
}

#[test]
fn new_session_is_idle() {
    let s = DiscoverySession::new();
    assert_eq!(s.phase(), Phase::Idle);
    assert!(!s.is_running());
    assert!(!s.stop_requested());
}

#[test]
fn second_start_is_rejected_and_changes_nothing() {
    let mut s = running();
    assert_eq!(s.start(), Err(SessionError::AlreadyRunning));
    assert_eq!(s.phase(), Phase::Running);
    assert!(s.is_running());
}

#[test]
fn start_while_starting_is_rejected() {
    let mut s = DiscoverySession::new();
    s.start().unwrap();
    assert_eq!(s.start(), Err(SessionError::AlreadyRunning));
    assert_eq!(s.phase(), Phase::Starting);
}

#[test]
fn stop_when_idle_is_rejected() {
    let mut s = DiscoverySession::new();
    assert_eq!(s.stop(), Err(SessionError::NotRunning));
    assert_eq!(s.phase(), Phase::Idle);
}

#[test]
fn double_stop_is_rejected() {
    let mut s = running();
    s.stop().unwrap();
    s.listener_joined();
    assert_eq!(s.stop(), Err(SessionError::NotRunning));
    assert_eq!(s.phase(), Phase::Idle);
}

#[test]
fn stop_raises_flag_until_listener_joined() {
    let mut s = running();
    assert_eq!(s.stop(), Ok(()));
    assert!(s.stop_requested());
    assert_eq!(s.phase(), Phase::Stopping);
    assert_eq!(s.stop(), Err(SessionError::NotRunning));
    assert_eq!(s.start(), Err(SessionError::AlreadyRunning));
    s.listener_joined();
    assert_eq!(s.phase(), Phase::Idle);
    assert!(!s.stop_requested());
}

#[test]
fn session_restarts_after_stop() {
    let mut s = running();
    s.stop().unwrap();
    s.listener_joined();
    assert_eq!(s.start(), Ok(()));
    assert_eq!(s.setup_finished(SetupOutcome::Ready), Ok(()));
    assert_eq!(s.phase(), Phase::Running);
}

#[test]
fn failed_setup_leaves_session_idle() {
    let mut s = DiscoverySession::new();
    s.start().unwrap();
    assert_eq!(s.setup_finished(SetupOutcome::BindFailed), Err(SessionError::BindFailed));
    assert_eq!(s.phase(), Phase::Idle);
    s.start().unwrap();
    assert_eq!(s.setup_finished(SetupOutcome::SendFailed), Err(SessionError::SendFailed));
    assert_eq!(s.phase(), Phase::Idle);
}

#[test]
fn listener_delivers_good_reply() {
    let o = ReceiveOutcome::Datagram {
        data: "uf:4,6axis,SN123  ,SNabc ,v1.2.3:LOCAL".to_string(),
        sender: "127.0.0.1:5000".to_string(),
    };
    match listener_step(false, o) {
        ListenerAction::Deliver(a) => {
            assert_eq!(a.addr_type, "localhost");
            assert_eq!(a.arm_sn, "SN123");
        }
        _ => panic!("expected a delivery"),
    }
}

#[test]
fn listener_discards_bad_reply_and_goes_on() {
    let o = ReceiveOutcome::Datagram {
        data: "foo:1,2,3,4,5:LOCAL".to_string(),
        sender: "127.0.0.1:5000".to_string(),
    };
    assert!(matches!(
        listener_step(false, o),
        ListenerAction::Discard(DecodeError::UnrecognizedType)
    ));
}

#[test]
fn listener_waits_on_timeout() {
    assert!(matches!(listener_step(false, ReceiveOutcome::TimedOut), ListenerAction::Continue));
    assert!(matches!(listener_step(true, ReceiveOutcome::TimedOut), ListenerAction::Continue));
}

#[test]
fn listener_failure_is_quiet_when_stopping() {
    assert!(matches!(listener_step(true, ReceiveOutcome::Failed), ListenerAction::Exit));
    assert!(matches!(
        listener_step(false, ReceiveOutcome::Failed),
        ListenerAction::Abort(SessionError::ReceiveFailed)
    ));
}

#[test]
fn session_error_messages() {
    assert_eq!(SessionError::AlreadyRunning.message(), "UDP broadcast is already running");
    assert_eq!(SessionError::NotRunning.message(), "UDP broadcast is not running");
    assert_eq!(SessionError::BindFailed.message(), "Failed to bind UDP socket");
    assert_eq!(SessionError::SendFailed.message(), "Failed to send discovery probe");
    assert_eq!(SessionError::ReceiveFailed.message(), "Error receiving data");
}
