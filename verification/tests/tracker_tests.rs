use oflow_ui::channel::{ChannelEvent, IoOutcome};
use oflow_ui::command::Command;
use oflow_ui::error::SocketError;
use oflow_ui::send::{run_send, send_result};
use oflow_ui::tracker::RecordingTracker;

fn send_against_responsive_backend(command: Command) -> Result<(), SocketError> {
    let events = vec![
        ChannelEvent::EndpointChecked(true),
        ChannelEvent::Io(IoOutcome::Completed),
        ChannelEvent::Io(IoOutcome::Completed),
        ChannelEvent::Io(IoOutcome::Completed),
    ];
    send_result(run_send(command.token(), events)).unwrap()
}

#[test]
fn toggle_round_trip() {
    let mut t = RecordingTracker::new();
    assert_eq!(t.status(), false);

    assert_eq!(t.pending_command(), Command::Start);
    let first = t.complete_toggle(send_against_responsive_backend(t.pending_command()));
    assert_eq!(first, Ok(true));
    assert_eq!(t.status(), true);

    assert_eq!(t.pending_command(), Command::Stop);
    let second = t.complete_toggle(send_against_responsive_backend(t.pending_command()));
    assert_eq!(second, Ok(false));
    assert_eq!(t.status(), false);
}

#[test]
fn failed_send_leaves_belief_unchanged() {
    let mut t = RecordingTracker::new();
    // A backend that accepts the connection but then errors on the write.
    let events = vec![
        ChannelEvent::EndpointChecked(true),
        ChannelEvent::Io(IoOutcome::Completed),
        ChannelEvent::Io(IoOutcome::Failed("broken pipe".to_string())),
    ];
    let outcome = send_result(run_send(t.pending_command().token(), events)).unwrap();
    let r = t.complete_toggle(outcome);
    assert_eq!(r, Err(SocketError::SendFailed("broken pipe".to_string())));
    assert_eq!(t.status(), false);
    assert_eq!(t.pending_command(), Command::Start);
}

#[test]
fn missing_backend_leaves_belief_unchanged() {
    let mut t = RecordingTracker::new();
    let outcome =
        send_result(run_send(t.pending_command().token(), vec![ChannelEvent::EndpointChecked(
            false,
        )]))
        .unwrap();
    let r = t.complete_toggle(outcome);
    assert_eq!(r, Err(SocketError::BackendNotRunning));
    assert_eq!(t.status(), false);
}

#[test]
fn serialized_toggles_alternate_commands() {
    let mut t = RecordingTracker::new();
    let mut sent = Vec::new();
    for _ in 0..4 {
        let command = t.pending_command();
        sent.push(command);
        let r = t.complete_toggle(send_against_responsive_backend(command));
        assert!(r.is_ok());
    }
    assert_eq!(sent, vec![Command::Start, Command::Stop, Command::Start, Command::Stop]);
}

#[test]
fn default_tracker_believes_off() {
    let t = RecordingTracker::default();
    assert_eq!(t.status(), false);
}
