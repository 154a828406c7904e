use qlty::tool::{
    after_failed_install, expected_version, indented_install_log, install_log_excerpts,
    installed_version, load_environment_vars, lock_error, setup_error_context, setup_step,
    validate, Interpolation, SetupAction,
    PluginEnvironment, ToolError, ToolType, VersionCommandOutput, DEFAULT_VERSION_REGEX,
};

fn output(stdout: &str, stderr: &str, success: bool, exit_code: i32) -> VersionCommandOutput {
    VersionCommandOutput {
        script: "echo 1.0.0".to_string(),
        stdout: stdout.to_string(),
        stderr: stderr.to_string(),
        success,
        exit_code,
    }
}

fn ctx() -> Interpolation {
    Interpolation {
        env: vec![
            ("PATH".to_string(), "/usr/bin:/bin".to_string()),
            ("HOME".to_string(), "/home/me".to_string()),
        ],
        linter: "/tools/eslint/1.0-abc".to_string(),
        cachedir: "/repo/.qlty/plugin_cachedir".to_string(),
        runtime: Some("/tools/node/20-def".to_string()),
    }
}

fn env(name: &str, value: &str) -> PluginEnvironment {
    PluginEnvironment {
        name: name.to_string(),
        list: vec![],
        value: value.to_string(),
    }
}

#[test]
fn test_tool_tool_type() {
    let t = ToolType::Runtime;
    assert_eq!(t, ToolType::Runtime);
    assert_ne!(t, ToolType::NullTool);
}

#[test]
fn expected_version_takes_the_first_group() {
    assert_eq!(
        expected_version(Some("1.0.0"), DEFAULT_VERSION_REGEX).unwrap(),
        Some("1.0.0".to_string())
    );
    assert_eq!(
        expected_version(Some("v2.13.4"), DEFAULT_VERSION_REGEX).unwrap(),
        Some("2.13.4".to_string())
    );
    assert_eq!(expected_version(Some("latest"), DEFAULT_VERSION_REGEX).unwrap(), None);
    assert_eq!(expected_version(None, DEFAULT_VERSION_REGEX).unwrap(), None);
}

#[test]
fn expected_version_rejects_an_invalid_pattern() {
    let e = expected_version(Some("1.0.0"), "v?(\\d+").unwrap_err();
    assert!(matches!(e, ToolError::InvalidRegex { .. }));
    assert_eq!(e.message(), "Invalid regex \"v?(\\\\d+\" for package");
}

#[test]
fn expected_version_without_a_captured_group_is_an_error() {
    let e = expected_version(Some("abc"), "a|(z)").unwrap_err();
    assert_eq!(
        e.message(),
        "No version captured from \"abc\" using regex \"a|(z)\""
    );
}

#[test]
fn test_tool_version() {
    let out = output("1.0.0\n", "", true, 0);
    assert_eq!(
        installed_version("test_tool", Some("echo 1.0.0"), Some(&out), DEFAULT_VERSION_REGEX)
            .unwrap(),
        "1.0.0"
    );
    let out = output("tool ", "version v3.2.1 (build 7)", true, 0);
    assert_eq!(
        installed_version("test_tool", Some("tool --version"), Some(&out), DEFAULT_VERSION_REGEX)
            .unwrap(),
        "3.2.1"
    );
}

#[test]
fn installed_version_of_a_failed_command_is_an_error() {
    let out = output("", "not found\n", false, 127);
    let e = installed_version("test_tool", Some("echo 1.0.0"), Some(&out), DEFAULT_VERSION_REGEX)
        .unwrap_err();
    assert_eq!(
        e.message(),
        "Failed to get version for package \"test_tool\": (command echo 1.0.0 exited with code 127)\n\nnot found"
    );
}

#[test]
fn installed_version_without_match_or_command_is_an_error() {
    let out = output("2.0.0", "", true, 0);
    let e = installed_version("test_tool", Some("echo 2.0.0"), Some(&out), "(\\d+)x")
        .unwrap_err();
    assert_eq!(
        e.message(),
        "Package version command Some(\"echo 2.0.0\") output \"2.0.0\" does not match regex \"(\\\\d+)x\""
    );
    let e = installed_version("test_tool", None, None, DEFAULT_VERSION_REGEX).unwrap_err();
    assert_eq!(e.message(), "No version command for package: \"test_tool\"");
}

#[test]
fn test_tool_validate() {
    let out = output("1.0.0\n", "", true, 0);
    let installed =
        installed_version("test_tool", Some("echo 1.0.0"), Some(&out), DEFAULT_VERSION_REGEX);
    let expected = expected_version(Some("1.0.0"), DEFAULT_VERSION_REGEX);
    assert!(validate(Some("echo 1.0.0"), installed, expected, DEFAULT_VERSION_REGEX).is_ok());
}

#[test]
fn test_tool_validate_incorrect_version() {
    let out = output("2.0.0\n", "", true, 0);
    let installed = installed_version("test_tool", Some("2.0.0"), Some(&out), DEFAULT_VERSION_REGEX);
    let expected = expected_version(Some("1.0.0"), DEFAULT_VERSION_REGEX);
    let e = validate(Some("2.0.0"), installed, expected, DEFAULT_VERSION_REGEX).unwrap_err();
    assert_eq!(
        e.message(),
        "Invalid tool version: 2.0.0: 2.0.0 does not match version \"1.0.0\" (extracted with regex \"v?(\\\\d+\\\\.\\\\d+\\\\.\\\\d+)\")"
    );
}

#[test]
fn validate_without_expected_version_passes() {
    let out = output("2.0.0\n", "", true, 0);
    let installed = installed_version("t", Some("x"), Some(&out), DEFAULT_VERSION_REGEX);
    let expected = expected_version(Some("latest"), DEFAULT_VERSION_REGEX);
    assert!(validate(Some("x"), installed, expected, DEFAULT_VERSION_REGEX).is_ok());
}

#[test]
fn test_tool_validate_no_version() {
    let installed = installed_version("test_tool", None, None, DEFAULT_VERSION_REGEX);
    let expected = expected_version(Some("1.0.0"), DEFAULT_VERSION_REGEX);
    assert!(validate(None, installed, expected, DEFAULT_VERSION_REGEX).is_ok());
}

#[test]
fn test_tool_install_with_retry_ok() {
    // No failure: nothing is retried, and the first failure of a tool
    // without retries gives up.
    assert_eq!(after_failed_install(0, 0), (1, false));
}

#[test]
fn test_tool_install_with_retry_errors() {
    // Three attempts: two retries after the first two failures.
    assert_eq!(after_failed_install(0, 3), (1, true));
    assert_eq!(after_failed_install(1, 3), (2, true));
    assert_eq!(after_failed_install(2, 3), (3, false));
}

#[test]
fn install_log_excerpts_keep_the_last_lines() {
    let log: String = (1..=60).map(|i| format!("line {i}\n")).collect();
    let (build, stderr) = install_log_excerpts(Some(&log));
    let expected_build: Vec<String> = (11..=60).map(|i| format!("line {i}")).collect();
    let expected_stderr: Vec<String> = (41..=60).map(|i| format!("line {i}")).collect();
    assert_eq!(build, expected_build.join("\n"));
    assert_eq!(stderr, expected_stderr.join("\n"));
    let (a, b) = install_log_excerpts(Some("only\nthree\nlines"));
    assert_eq!(a, "only\nthree\nlines");
    assert_eq!(b, "only\nthree\nlines");
    let (a, b) = install_log_excerpts(None);
    assert_eq!(a, "<failed to read log file>");
    assert_eq!(b, "<failed to read log file>");
}

#[test]
fn install_log_is_indented_for_the_user() {
    assert_eq!(indented_install_log("a\nb\r\n\nc"), "    a\n    b\n    \n    c");
    assert_eq!(indented_install_log(""), "");
}

#[test]
fn setup_errors_name_the_tool_and_the_log() {
    assert_eq!(
        setup_error_context("eslint", Some("8.0.0"), Some("/tools/eslint/8.0.0-abc-install.log")),
        "Error installing eslint@8.0.0.\n\n    See more: /tools/eslint/8.0.0-abc-install.log"
    );
    assert_eq!(setup_error_context("eslint", None, None), "Error installing eslint@.\n");
}

#[test]
fn test_load_environment_vars() {
    let plugin_env = vec![env("TEST", "value"), env("TEST2", ""), env("TEST3", "  ")];
    let vars = load_environment_vars(&ctx(), &plugin_env);
    assert_eq!(vars, vec![("TEST".to_string(), "value".to_string())]);
}

#[test]
fn environment_vars_are_interpolated_and_later_ones_win() {
    let plugin_env = vec![
        env("A", " ${env.HOME}/x "),
        env("PATH", "${linter}/bin"),
        env("B", "${linter}"),
        env("A", "${runtime}"),
    ];
    let vars = load_environment_vars(&ctx(), &plugin_env);
    assert_eq!(
        vars,
        vec![
            ("A".to_string(), "/tools/node/20-def".to_string()),
            ("B".to_string(), "/tools/eslint/1.0-abc".to_string()),
        ]
    );
}

#[test]
fn test_tool_interpolate_variables() {
    let c = ctx();
    assert_eq!(
        c.interpolate_variables("${linter} ${runtime} ${cachedir} ${env.PATH} ${env.UNKNOWN_VARIABLE}"),
        "/tools/eslint/1.0-abc /tools/node/20-def /repo/.qlty/plugin_cachedir /usr/bin:/bin "
    );
    let no_runtime = Interpolation { runtime: None, ..ctx() };
    assert_eq!(no_runtime.interpolate_variables("${runtime}"), "${runtime}");
}

#[test]
fn env_references_become_their_values_or_nothing() {
    let c = ctx();
    assert_eq!(c.interpolate_variables("a${env.HOME}b${env.NOPE}c"), "a/home/mebc");
    assert_eq!(c.interpolate_variables("${env.HOME"), "${env.HOME");
    assert_eq!(c.interpolate_variables("${env.}}"), "");
    assert_eq!(c.interpolate_variables("plain"), "plain");
}

#[test]
fn lock_error_message() {
    assert_eq!(lock_error(), "Failed to acquire lock for tool installation");
}

#[test]
fn setup_steps_follow_the_installation() {
    assert!(matches!(setup_step(true, None, "t", Some("1"), None), SetupAction::Done));
    assert!(matches!(setup_step(false, None, "t", Some("1"), None), SetupAction::Install));
    assert!(matches!(setup_step(false, Some(Ok(())), "t", Some("1"), None), SetupAction::WriteDoneFile));
    match setup_step(false, Some(Err("boom".to_string())), "t", Some("1"), Some("/tmp/log")) {
        SetupAction::Fail(context) => {
            assert_eq!(context, "Error installing t@1.\n\n    See more: /tmp/log")
        }
        _ => panic!("a failed installation fails the setup"),
    }
}
