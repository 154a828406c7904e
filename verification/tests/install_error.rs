use qlty::analysis::MessageLevel;
use qlty::executor::install_error::{install_error_message, ErrorReport};
use qlty::tool::command_error::ToolCommandError;
use qlty::tool::install_failure::{InstallFailure, InstallFailureKind, BUILD_SECRETS_URL};

const AUTH_FAILED_STDERR: &str = "npm ERR! code E401\nnpm ERR! 401 Unauthorized - GET https://npm.pkg.github.com/@marschattha%2feslint-config-qlty-demo - authentication token not provided";

fn command_error(stderr: &str, failure: Option<InstallFailure>) -> ToolCommandError {
    ToolCommandError {
        command: vec!["npm".to_string(), "install".to_string()],
        exit_code: 1,
        stdout: String::new(),
        stderr: stderr.to_string(),
        failure,
    }
}

/// The command error as the cause of an error with the given context.
fn wrapped(stderr: &str, failure: Option<InstallFailure>) -> ErrorReport {
    let error = command_error(stderr, failure);
    ErrorReport {
        causes: vec!["Error installing eslint@9.7.0.".to_string(), error.message()],
        command_error: Some(error),
    }
}

fn bare(error: ToolCommandError) -> ErrorReport {
    ErrorReport {
        causes: vec![error.message()],
        command_error: Some(error),
    }
}

#[test]
fn auth_failure_upgrades_message_and_ty() {
    let failure = InstallFailure {
        kind: InstallFailureKind::AuthenticationFailed,
        summary: format!("npm registry authentication failed (see {BUILD_SECRETS_URL})"),
    };

    let message = install_error_message("eslint", &wrapped(AUTH_FAILED_STDERR, Some(failure)));

    assert_eq!(
        message.message,
        format!(
            "Error installing tool eslint: npm registry authentication failed (see {BUILD_SECRETS_URL})"
        )
    );
    assert_eq!(message.ty, "executor.install.auth_error");
    assert!(message.details.contains("authentication token not provided"));
}

#[test]
fn maybe_private_failure_gets_not_found_ty() {
    let failure = InstallFailure {
        kind: InstallFailureKind::PackageMaybePrivate,
        summary: "npm package not found (it may be private)".to_string(),
    };

    let message = install_error_message("eslint", &wrapped("npm error code E404", Some(failure)));

    assert_eq!(
        message.message,
        "Error installing tool eslint: npm package not found (it may be private)"
    );
    assert_eq!(message.ty, "executor.install.package_not_found");
}

#[test]
fn unclassified_failure_stays_generic() {
    let message = install_error_message("clippy", &wrapped("error: linking failed", None));

    assert_eq!(message.message, "Error installing tool clippy");
    assert_eq!(message.ty, "executor.install.error");
}

#[test]
fn classified_ty_values_match_the_cli_filter_prefix() {
    for kind in [
        InstallFailureKind::AuthenticationFailed,
        InstallFailureKind::AccessDenied,
        InstallFailureKind::PackageMaybePrivate,
        InstallFailureKind::UnsupportedDependencyProtocol,
    ] {
        assert!(kind.message_ty().starts_with("executor.install."));
    }
}

#[test]
fn details_append_command_output() {
    let message = install_error_message("eslint", &wrapped(AUTH_FAILED_STDERR, None));

    assert!(message
        .details
        .starts_with("Error installing eslint@9.7.0.\n\nnpm ERR! code E401"));
}

#[test]
fn details_without_command_output() {
    let message = install_error_message("eslint", &bare(command_error("", None)));

    assert_eq!(
        message.details,
        r#"Command ["npm", "install"] exited with code 1"#
    );
}

#[test]
fn details_without_command_error_include_the_cause_chain() {
    let error = ErrorReport {
        causes: vec![
            "Error installing rubocop@bundled.".to_string(),
            "No package file provided".to_string(),
        ],
        command_error: None,
    };

    let message = install_error_message("rubocop", &error);

    assert_eq!(
        message.details,
        "Error installing rubocop@bundled.: No package file provided"
    );
}

#[test]
fn message_fields_without_command_error() {
    let error = ErrorReport {
        causes: vec!["boom".to_string()],
        command_error: None,
    };
    let message = install_error_message("eslint", &error);

    assert_eq!(message.ty, "executor.install.error");
    assert_eq!(message.level, MessageLevel::Error);
    assert_eq!(message.message, "Error installing tool eslint");
    assert_eq!(message.details, "boom");
    assert_eq!(message.module, "qlty_check::executor");
    assert!(message.timestamp.is_some());
}

#[test]
fn message_types_of_each_failure_kind() {
    assert_eq!(
        InstallFailureKind::AccessDenied.message_ty(),
        "executor.install.auth_error"
    );
    assert_eq!(
        InstallFailureKind::UnsupportedDependencyProtocol.message_ty(),
        "executor.install.unsupported_protocol"
    );
}
