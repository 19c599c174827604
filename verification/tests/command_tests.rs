use oflow_ui::command::{parse_command, Command};

#[test]
fn parse_accepts_the_three_tokens() {
    assert_eq!(parse_command("start"), Some(Command::Start));
    assert_eq!(parse_command("stop"), Some(Command::Stop));
    assert_eq!(parse_command("toggle"), Some(Command::Toggle));
}

#[test]
fn parse_refuses_other_tokens() {
    assert_eq!(parse_command(""), None);
    assert_eq!(parse_command("Start"), None);
    assert_eq!(parse_command("restart"), None);
    assert_eq!(parse_command("start "), None);
    assert_eq!(parse_command("stop!"), None);
}

#[test]
fn tokens_are_the_wire_bytes() {
    assert_eq!(Command::Start.token(), "start");
    assert_eq!(Command::Stop.token(), "stop");
    assert_eq!(Command::Toggle.token(), "toggle");
}
