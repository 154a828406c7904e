use qlty::tool::installations::{
    finalize_installation_from_assets_fetch, finalize_installation_from_cmd_result,
    finalize_installation_from_download_result, initialize_installation, tool_type_name,
    CommandOutcome, InstallationFileWritter, ToolDescription, ToolInstallSummaryWritter,
};
use qlty::tool::ToolType;

fn description() -> ToolDescription {
    ToolDescription {
        name: "eslint".to_string(),
        version: Some("8.0.0".to_string()),
        tool_type: ToolType::RuntimePackage,
        directory: "/tools/eslint/8.0.0-abc".to_string(),
        runtime_name: Some("node".to_string()),
        fingerprint: "abc".to_string(),
        install_log_path: "/tools/eslint/8.0.0-abc-install.log".to_string(),
        env: vec![("PATH".to_string(), "/bin".to_string())],
    }
}

#[test]
fn installations_start_with_what_is_known_of_the_tool() {
    let i = initialize_installation(description(), "0.500.0");
    assert_eq!(i.tool_name, "eslint");
    assert_eq!(i.version, "8.0.0");
    assert_eq!(i.tool_type, "RuntimePackage");
    assert_eq!(i.directory, "/tools/eslint/8.0.0-abc-installation-debug-files");
    assert_eq!(i.runtime, "node");
    assert_eq!(i.qlty_cli_version, "0.500.0");
    assert!(i.started_at.is_some());
    assert!(i.finished_at.is_none());
    let mut bare = description();
    bare.version = None;
    bare.runtime_name = None;
    let j = initialize_installation(bare, "1");
    assert_eq!(j.version, "");
    assert_eq!(j.runtime, "");
}

#[test]
fn command_results_are_recorded_and_logged() {
    let mut i = initialize_installation(description(), "1");
    let log = finalize_installation_from_cmd_result(
        &mut i,
        CommandOutcome::Ran { stdout: "out\n".to_string(), stderr: "err\n".to_string(), exit_code: 2 },
        "npm install".to_string(),
    );
    assert_eq!(log, "out\nerr\n");
    assert_eq!(i.exit_code, Some(2));
    assert_eq!(i.script, Some("npm install".to_string()));
    assert!(i.finished_at.is_some());
    let mut j = initialize_installation(description(), "1");
    let log = finalize_installation_from_cmd_result(
        &mut j,
        CommandOutcome::Failed { description: "Err(NotFound)".to_string() },
        "x".to_string(),
    );
    assert_eq!(log, "Err(NotFound)");
    assert_eq!(j.stderr, Some("Err(NotFound)".to_string()));
    assert_eq!(j.exit_code, None);
}

#[test]
fn downloads_are_recorded() {
    let mut i = initialize_installation(description(), "1");
    finalize_installation_from_assets_fetch(&mut i, false, "https://api.github.com/x");
    assert_eq!(i.download_url, Some("https://api.github.com/x".to_string()));
    assert_eq!(i.download_success, Some(false));
    finalize_installation_from_download_result(
        &mut i,
        "https://example.org/t.zip".to_string(),
        "zip".to_string(),
        Some("t".to_string()),
        true,
    );
    assert_eq!(i.download_success, Some(true));
    assert_eq!(i.download_file_type, Some("zip".to_string()));
}

#[test]
fn records_are_written_next_to_the_tool() {
    let i = initialize_installation(description(), "1");
    let p = InstallationFileWritter::file_path(&i).unwrap();
    assert!(p.starts_with("/tools/eslint/8.0.0-abc-installation-debug-files/installation-"));
    assert!(p.ends_with(".yaml"));
    assert_eq!(p.len(), "/tools/eslint/8.0.0-abc-installation-debug-files/installation-".len() + 6 + 5);
    assert_eq!(
        ToolInstallSummaryWritter::file_path("/tools/eslint/8.0.0-abc"),
        "/tools/eslint/8.0.0-abc-install-debug.yaml"
    );
    assert_eq!(tool_type_name(ToolType::GitHubRelease), "GitHubRelease");
}
