use qlty::tool::command_error::ToolCommandError;
use qlty::tool::download::{Cpu, OperatingSystem};
use qlty::tool::install_failure::{InstallFailureKind, BUILD_SECRETS_URL};
use qlty::tool::node::{detect_npm_failure, mentions_scoped_package, NodeJS, NodePackage};
use qlty::tool::ToolType;

fn npm_command_error(stderr: &str) -> ToolCommandError {
    ToolCommandError {
        command: vec!["npm".to_string(), "install".to_string()],
        exit_code: 1,
        stdout: String::new(),
        stderr: stderr.to_string(),
        failure: None,
    }
}

const MISSING_TOKEN_STDERR: &str = "npm ERR! code E401\nnpm ERR! 401 Unauthorized - GET https://npm.pkg.github.com/@marschattha%2feslint-config-qlty-demo - authentication token not provided";
const BAD_TOKEN_STDERR: &str = "npm ERR! code E401\nnpm ERR! 401 Unauthorized - GET https://npm.pkg.github.com/@marschattha%2feslint-config-qlty-demo - unauthenticated: User cannot be authenticated with the token provided.";
const FORBIDDEN_STDERR: &str = "npm ERR! code E403\nnpm ERR! 403 403 Forbidden - GET https://npm.pkg.github.com/@marschattha%2feslint-config-qlty-demo";
const SCOPED_NOT_FOUND_STDERR: &str = "npm error code E404\nnpm error 404 Not Found - GET https://npm.pkg.github.com/@qltyverifydemo%2fdoes-not-exist\nnpm error 404  '@qltyverifydemo/does-not-exist@1.0.0' is not in this registry.";
const UNSCOPED_NOT_FOUND_STDERR: &str =
    "npm ERR! code E404\nnpm ERR! 404  'left-padd@1.0.0' is not in this registry.";

#[test]
fn test_classify_install_failure_missing_token() {
    let failure = detect_npm_failure(&npm_command_error(MISSING_TOKEN_STDERR)).unwrap();
    assert_eq!(
        failure.summary,
        format!("npm registry authentication failed (see {BUILD_SECRETS_URL})")
    );
    assert!(matches!(failure.kind, InstallFailureKind::AuthenticationFailed));
}

#[test]
fn test_detect_npm_failure_bad_token() {
    let failure = detect_npm_failure(&npm_command_error(BAD_TOKEN_STDERR)).unwrap();
    assert!(matches!(failure.kind, InstallFailureKind::AuthenticationFailed));
}

#[test]
fn test_detect_npm_failure_forbidden_scoped() {
    let failure = detect_npm_failure(&npm_command_error(FORBIDDEN_STDERR)).unwrap();
    assert_eq!(
        failure.summary,
        format!("npm registry access was denied (see {BUILD_SECRETS_URL})")
    );
    assert!(matches!(failure.kind, InstallFailureKind::AccessDenied));
}

#[test]
fn test_detect_npm_failure_ignores_forbidden_unscoped() {
    let stderr = "npm ERR! code E403\nnpm ERR! 403 403 Forbidden - GET https://registry.npmjs.org/left-pad - Package was removed for security reasons";
    assert!(detect_npm_failure(&npm_command_error(stderr)).is_none());
}

#[test]
fn test_detect_npm_failure_scoped_not_found() {
    let failure = detect_npm_failure(&npm_command_error(SCOPED_NOT_FOUND_STDERR)).unwrap();
    assert_eq!(
        failure.summary,
        format!("npm package not found (it may be private; see {BUILD_SECRETS_URL})")
    );
    assert!(matches!(failure.kind, InstallFailureKind::PackageMaybePrivate));
}

#[test]
fn test_detect_npm_failure_ignores_unscoped_not_found() {
    assert!(detect_npm_failure(&npm_command_error(UNSCOPED_NOT_FOUND_STDERR)).is_none());
}

#[test]
fn test_detect_npm_failure_ignores_unscoped_not_found_with_scoped_warning() {
    let stderr = "npm warn deprecated @babel/polyfill@7.12.1: This package has been deprecated\nnpm ERR! code E404\nnpm ERR! 404  'left-padd@1.0.0' is not in this registry.";
    assert!(detect_npm_failure(&npm_command_error(stderr)).is_none());
}

#[test]
fn test_detect_npm_failure_unsupported_protocol() {
    let stderr = "npm warn using --force Recommended protections disabled.\nnpm error code EUNSUPPORTEDPROTOCOL\nnpm error Unsupported URL Type \"workspace:\": workspace:*";
    let failure = detect_npm_failure(&npm_command_error(stderr)).unwrap();
    assert_eq!(
        failure.summary,
        "npm cannot install \"workspace:\" dependencies (pnpm/yarn workspace protocols are not supported)"
    );
    assert!(matches!(failure.kind, InstallFailureKind::UnsupportedDependencyProtocol));
}

#[test]
fn test_detect_npm_failure_unsupported_protocol_without_url_type_line() {
    let stderr = "npm error code EUNSUPPORTEDPROTOCOL";
    let failure = detect_npm_failure(&npm_command_error(stderr)).unwrap();
    assert_eq!(
        failure.summary,
        "npm cannot install this package file (it uses an unsupported dependency protocol)"
    );
}

#[test]
fn test_detect_npm_failure_ignores_other_output() {
    assert!(detect_npm_failure(&npm_command_error("error: linking failed")).is_none());
}

#[test]
fn npm_failures_are_found_in_standard_output_too() {
    let mut error = npm_command_error("");
    error.stdout = MISSING_TOKEN_STDERR.to_string();
    assert!(detect_npm_failure(&error).is_some());
}

#[test]
fn scoped_names_count_only_on_status_lines() {
    assert!(mentions_scoped_package("x 404 @a/b\n", "404"));
    assert!(mentions_scoped_package("x 404 @a%2Fb\n", "404"));
    assert!(!mentions_scoped_package("warn @a/b\nx 404 c\n", "404"));
}

#[test]
fn node_runtime_downloads_for_each_system() {
    let node = NodeJS { version: "20.1.0".to_string() };
    assert_eq!(node.name(), "node");
    assert_eq!(node.tool_type(), ToolType::Runtime);
    assert_eq!(node.version(), Some("20.1.0".to_string()));
    assert_eq!(node.version_command(), Some("node --version".to_string()));
    assert_eq!(node.install_max_retries(), 3);
    let d = node.download();
    assert_eq!(d.systems.len(), 6);
    assert_eq!(
        d.systems[2].url,
        "https://nodejs.org/dist/v${version}/node-v${version}-linux-x64.tar.gz"
    );
    assert_eq!(d.systems[2].cpu, Cpu::X86_64);
    assert_eq!(d.systems[2].os, OperatingSystem::Linux);
    assert_eq!(d.systems[5].os, OperatingSystem::Windows);
    assert_eq!(d.systems[5].cpu, Cpu::Aarch64);
}

#[test]
fn node_packages_are_installed_with_npm() {
    assert_eq!(
        NodePackage::package_install_arguments("eslint", "8.0.0"),
        vec!["install", "--force", "eslint@8.0.0"]
    );
    let paths = NodePackage::extra_env_paths("/t/eslint", vec!["/t/node/bin".to_string()]);
    assert_eq!(paths, vec!["/t/eslint/node_modules/.bin", "/t/node/bin"]);
    assert_eq!(
        NodePackage::node_path_var("/t/eslint"),
        ("NODE_PATH".to_string(), "/t/eslint/node_modules".to_string())
    );
}
