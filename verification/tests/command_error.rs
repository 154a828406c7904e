use qlty::tool::command_error::ToolCommandError;

fn command_error(stdout: &str, stderr: &str) -> ToolCommandError {
    ToolCommandError {
        command: vec!["npm".to_string(), "install".to_string()],
        exit_code: 1,
        stdout: stdout.to_string(),
        stderr: stderr.to_string(),
        failure: None,
    }
}

#[test]
fn display_includes_command_and_exit_code() {
    assert_eq!(
        command_error("", "").message(),
        r#"Command ["npm", "install"] exited with code 1"#
    );
}

#[test]
fn output_tail_prefers_stderr() {
    let error = command_error("out line", "err line");
    assert_eq!(error.output_tail(), "err line");
}

#[test]
fn output_tail_falls_back_to_stdout() {
    let error = command_error("out line", " \n");
    assert_eq!(error.output_tail(), "out line");
}

#[test]
fn output_tail_returns_last_lines() {
    let lines: Vec<String> = (1..=12).map(|n| format!("line {n}")).collect();
    let error = command_error("", &lines.join("\n"));

    assert_eq!(error.output_tail(), lines[2..].join("\n"));
}

#[test]
fn output_tail_skips_blank_lines() {
    let error = command_error("", "one\n\n  \ntwo");
    assert_eq!(error.output_tail(), "one\ntwo");
}

#[test]
fn message_shows_negative_exit_codes() {
    let mut error = command_error("", "");
    error.exit_code = -9;
    assert_eq!(
        error.message(),
        r#"Command ["npm", "install"] exited with code -9"#
    );
}

#[test]
fn output_tail_strips_trailing_space_and_carriage_returns() {
    let error = command_error("", "first  \r\nsecond\t\r\n");
    assert_eq!(error.output_tail(), "first\nsecond");
}
