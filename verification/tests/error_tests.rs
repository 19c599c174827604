use oflow_ui::error::SocketError;

#[test]
fn messages_name_kind_and_cause() {
    assert_eq!(
        SocketError::ConnectionFailed("connection refused".to_string()).message(),
        "Failed to connect to backend: connection refused"
    );
    assert_eq!(
        SocketError::SendFailed("broken pipe".to_string()).message(),
        "Failed to send command: broken pipe"
    );
    assert_eq!(
        SocketError::ReadFailed("eof".to_string()).message(),
        "Failed to read response: eof"
    );
    assert_eq!(
        SocketError::BackendNotRunning.message(),
        "Backend is not running or not responding"
    );
    assert_eq!(
        SocketError::InvalidCommand("reboot".to_string()).message(),
        "Invalid command: reboot"
    );
}
