use oflow_ui::channel::{
    ChannelAction, ChannelEvent, IoOutcome, PROBE_TIMEOUT_MS, SEND_STEP_TIMEOUT_MS, SOCKET_PATH,
};
use oflow_ui::command::Command;
use oflow_ui::error::SocketError;
use oflow_ui::send::{run_send, send_result, send_step, start_send, SendState};

#[test]
fn invalid_command_is_refused_without_io() {
    let s = start_send("restart");
    assert!(s.action().is_none());
    match send_result(s) {
        Some(Err(SocketError::InvalidCommand(msg))) => {
            assert_eq!(msg, "Invalid command: restart. Must be 'start', 'stop', or 'toggle'");
        }
        other => panic!("unexpected outcome: {:?}", other),
    }
}

#[test]
fn invalid_command_ignores_the_environment() {
    let events = vec![
        ChannelEvent::EndpointChecked(true),
        ChannelEvent::Io(IoOutcome::Completed),
        ChannelEvent::Io(IoOutcome::Completed),
        ChannelEvent::Io(IoOutcome::Completed),
    ];
    let s = run_send("bogus", events);
    assert!(matches!(s, SendState::Failed(SocketError::InvalidCommand(_))));
}

#[test]
fn first_step_is_the_path_test_only() {
    let s = start_send("start");
    assert_eq!(s.action(), Some(ChannelAction::CheckEndpoint));
}

#[test]
fn missing_endpoint_is_backend_not_running() {
    let s = run_send("start", vec![ChannelEvent::EndpointChecked(false)]);
    assert!(s.action().is_none());
    match send_result(s) {
        Some(Err(SocketError::BackendNotRunning)) => {}
        other => panic!("unexpected outcome: {:?}", other),
    }
}

#[test]
fn connect_timeout_is_connection_failed() {
    let events = vec![ChannelEvent::EndpointChecked(true), ChannelEvent::Io(IoOutcome::TimedOut)];
    match send_result(run_send("stop", events)) {
        Some(Err(SocketError::ConnectionFailed(cause))) => {
            assert_eq!(cause, "Connection timeout");
        }
        other => panic!("unexpected outcome: {:?}", other),
    }
}

#[test]
fn connect_refusal_carries_the_cause() {
    let events = vec![
        ChannelEvent::EndpointChecked(true),
        ChannelEvent::Io(IoOutcome::Failed("connection refused".to_string())),
    ];
    match send_result(run_send("start", events)) {
        Some(Err(SocketError::ConnectionFailed(cause))) => {
            assert_eq!(cause, "connection refused");
        }
        other => panic!("unexpected outcome: {:?}", other),
    }
}

#[test]
fn write_error_is_send_failed() {
    let events = vec![
        ChannelEvent::EndpointChecked(true),
        ChannelEvent::Io(IoOutcome::Completed),
        ChannelEvent::Io(IoOutcome::Failed("broken pipe".to_string())),
    ];
    match send_result(run_send("start", events)) {
        Some(Err(SocketError::SendFailed(cause))) => {
            assert_eq!(cause, "broken pipe");
        }
        other => panic!("unexpected outcome: {:?}", other),
    }
}

#[test]
fn write_timeout_is_send_failed() {
    let events = vec![
        ChannelEvent::EndpointChecked(true),
        ChannelEvent::Io(IoOutcome::Completed),
        ChannelEvent::Io(IoOutcome::TimedOut),
    ];
    match send_result(run_send("start", events)) {
        Some(Err(SocketError::SendFailed(cause))) => {
            assert_eq!(cause, "Send timeout");
        }
        other => panic!("unexpected outcome: {:?}", other),
    }
}

#[test]
fn flush_timeout_is_send_failed() {
    let events = vec![
        ChannelEvent::EndpointChecked(true),
        ChannelEvent::Io(IoOutcome::Completed),
        ChannelEvent::Io(IoOutcome::Completed),
        ChannelEvent::Io(IoOutcome::TimedOut),
    ];
    match send_result(run_send("start", events)) {
        Some(Err(SocketError::SendFailed(cause))) => {
            assert_eq!(cause, "Flush timeout");
        }
        other => panic!("unexpected outcome: {:?}", other),
    }
}

#[test]
fn responsive_backend_delivers() {
    let events = vec![
        ChannelEvent::EndpointChecked(true),
        ChannelEvent::Io(IoOutcome::Completed),
        ChannelEvent::Io(IoOutcome::Completed),
        ChannelEvent::Io(IoOutcome::Completed),
    ];
    let s = run_send("start", events);
    assert!(matches!(s, SendState::Delivered));
    assert_eq!(send_result(s), Some(Ok(())));
}

#[test]
fn actions_follow_the_protocol_order() {
    let s0 = start_send("stop");
    assert_eq!(s0.action(), Some(ChannelAction::CheckEndpoint));
    let s1 = send_step(s0, ChannelEvent::EndpointChecked(true));
    assert_eq!(s1.action(), Some(ChannelAction::Connect { timeout_ms: SEND_STEP_TIMEOUT_MS }));
    let s2 = send_step(s1, ChannelEvent::Io(IoOutcome::Completed));
    assert_eq!(
        s2.action(),
        Some(ChannelAction::Write { command: Command::Stop, timeout_ms: SEND_STEP_TIMEOUT_MS })
    );
    let s3 = send_step(s2, ChannelEvent::Io(IoOutcome::Completed));
    assert_eq!(s3.action(), Some(ChannelAction::Flush { timeout_ms: SEND_STEP_TIMEOUT_MS }));
    let s4 = send_step(s3, ChannelEvent::Io(IoOutcome::Completed));
    assert_eq!(s4.action(), None);
    assert!(matches!(s4, SendState::Delivered));
}

#[test]
fn mismatched_observation_changes_nothing() {
    let s0 = start_send("start");
    let s1 = send_step(s0, ChannelEvent::Io(IoOutcome::Completed));
    assert_eq!(s1, start_send("start"));
}

#[test]
fn unfinished_attempt_has_no_result() {
    let s = start_send("toggle");
    assert_eq!(send_result(s), None);
}

#[test]
fn channel_constants() {
    assert_eq!(SOCKET_PATH, "/tmp/voice-dictation.sock");
    assert_eq!(SEND_STEP_TIMEOUT_MS, 2000);
    assert_eq!(PROBE_TIMEOUT_MS, 500);
}
