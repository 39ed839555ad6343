use wisp::debug_command::{parse_command, DebugCommand};

#[test]
fn parse_empty_returns_none() {
    assert_eq!(parse_command("   "), Ok(None));
}

#[test]
fn parse_close_command() {
    assert_eq!(parse_command("close 42"), Ok(Some(DebugCommand::Close(42))));
}

#[test]
fn parse_action_command() {
    assert_eq!(
        parse_command("action 7 open"),
        Ok(Some(DebugCommand::Action { id: 7, key: "open".to_string() }))
    );
}

#[test]
fn parse_simple_commands() {
    assert_eq!(parse_command("help"), Ok(Some(DebugCommand::Help)));
    assert_eq!(parse_command("  list  "), Ok(Some(DebugCommand::List)));
    assert_eq!(parse_command("quit"), Ok(Some(DebugCommand::Quit)));
    assert_eq!(parse_command("exit now"), Ok(Some(DebugCommand::Quit)));
    assert_eq!(parse_command("\tclose\t+9"), Ok(Some(DebugCommand::Close(9))));
}

#[test]
fn parse_command_errors() {
    assert_eq!(parse_command("close"), Err("usage: close <id>".to_string()));
    assert_eq!(parse_command("close x"), Err("id must be a positive integer".to_string()));
    assert_eq!(parse_command("close 4294967296"), Err("id must be a positive integer".to_string()));
    assert_eq!(parse_command("close -1"), Err("id must be a positive integer".to_string()));
    assert_eq!(parse_command("action"), Err("usage: action <id> <action-key>".to_string()));
    assert_eq!(parse_command("action 3"), Err("usage: action <id> <action-key>".to_string()));
    assert_eq!(parse_command("action x y"), Err("id must be a positive integer".to_string()));
    assert_eq!(
        parse_command("frobnicate"),
        Err("unknown command; use: help, list, close, action, quit".to_string())
    );
    assert_eq!(parse_command("close 4294967295"), Ok(Some(DebugCommand::Close(4294967295))));
}
