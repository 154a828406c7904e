use qlty::executor::config_staging::{
    cached_download, config_operation_outcome, config_operation_step, download_status_error,
    fetch_directory, plan_config_operation, stage_file_action, ConfigOperationType,
    ConfigStagingOperation, ConfigStagingStep, PluginFetches, StageAction,
};
use qlty::planner::config_files::{ConfigCopyMode, PluginFetch};

fn op(kind: ConfigOperationType, source: &str, destination: &str) -> ConfigStagingOperation {
    ConfigStagingOperation {
        operation_type: kind,
        source_path: source.to_string(),
        destination_path: destination.to_string(),
    }
}

fn fetches() -> Vec<PluginFetches> {
    vec![
        PluginFetches {
            plugin_name: "eslint".to_string(),
            fetch: vec![PluginFetch {
                url: "https://example.com/a.json".to_string(),
                path: "a.json".to_string(),
            }],
        },
        PluginFetches {
            plugin_name: "rubocop".to_string(),
            fetch: vec![
                PluginFetch {
                    url: "https://example.com/other.yml".to_string(),
                    path: "other.yml".to_string(),
                },
                PluginFetch {
                    url: "https://example.com/rules.yml".to_string(),
                    path: "conf/rules.yml".to_string(),
                },
            ],
        },
    ]
}

#[test]
fn loads_go_to_the_destination_directory() {
    let step = plan_config_operation(
        &op(ConfigOperationType::CopyToStagingArea, "/repo/.eslintrc", "/stage/sub/.eslintrc"),
        &[],
    )
    .unwrap();
    match step {
        ConfigStagingStep::LoadFromRepository { source, directory } => {
            assert_eq!(source, "/repo/.eslintrc");
            assert_eq!(directory, "/stage/sub");
        }
        other => panic!("unexpected step {:?}", other),
    }
    let step = plan_config_operation(
        &op(ConfigOperationType::LoadFromQltyDir, ".rubocop.yml", "/stage/.rubocop.yml"),
        &[],
    )
    .unwrap();
    assert!(matches!(step, ConfigStagingStep::LoadFromQltyDir { ref name, ref directory }
        if name == ".rubocop.yml" && directory == "/stage"));
}

#[test]
fn copy_to_tool_install_creates_the_tool_directory() {
    let step = plan_config_operation(
        &op(ConfigOperationType::CopyToToolInstall, "/repo/c.yml", "/tools/ruff/c.yml"),
        &[],
    )
    .unwrap();
    match &step {
        ConfigStagingStep::CopyToToolInstall { tool_directory, source, destination } => {
            assert_eq!(tool_directory, "/tools/ruff");
            assert_eq!(source, "/repo/c.yml");
            assert_eq!(destination, "/tools/ruff/c.yml");
        }
        other => panic!("unexpected step {:?}", other),
    }
    assert_eq!(
        config_operation_outcome(&step, String::new()),
        Some("/tools/ruff/c.yml".to_string())
    );
}

#[test]
fn fetch_downloads_to_the_root_its_path_leads_back_to() {
    let step = plan_config_operation(
        &op(ConfigOperationType::FetchFile, "conf/rules.yml", "/work/stage/conf/rules.yml"),
        &fetches(),
    )
    .unwrap();
    match step {
        ConfigStagingStep::Fetch { plugin_name, url, path, directories, destination } => {
            assert_eq!(plugin_name, "rubocop");
            assert_eq!(url, "https://example.com/rules.yml");
            assert_eq!(path, "conf/rules.yml");
            assert_eq!(directories, vec!["/work/stage".to_string()]);
            assert_eq!(destination, "/work/stage/conf/rules.yml");
        }
        other => panic!("unexpected step {:?}", other),
    }
}

#[test]
fn fetch_without_directory_downloads_next_to_destination() {
    assert_eq!(fetch_directory("/work/stage", "a.json"), Ok("/work/stage".to_string()));
}

#[test]
fn fetch_not_found_is_an_error() {
    let result = plan_config_operation(
        &op(ConfigOperationType::FetchFile, "missing.json", "/stage/missing.json"),
        &fetches(),
    );
    assert_eq!(
        result.unwrap_err(),
        "Fetch configuration not found for path: \"missing.json\""
    );
}

#[test]
fn fetch_deeper_than_destination_is_an_error() {
    assert_eq!(
        fetch_directory("/", "a/b/c.json"),
        Err("Destination path / lacks ancestors for fetch path a/b".to_string())
    );
}

#[test]
fn fetch_destination_without_parent_is_an_error() {
    let result = plan_config_operation(&op(ConfigOperationType::FetchFile, "a.json", ""), &fetches());
    assert_eq!(result.unwrap_err(), "Fetch destination missing parent directory");
}

#[test]
fn non_fetch_without_parent_cannot_be_planned() {
    assert!(config_operation_step(&op(ConfigOperationType::CopyToStagingArea, "a", ""), &[]).is_none());
    assert!(config_operation_step(&op(ConfigOperationType::CopyToStagingArea, "a", "/x/a"), &[])
        .is_some());
}

#[test]
fn empty_loads_report_nothing() {
    let step = ConfigStagingStep::LoadFromSource {
        source: "a".to_string(),
        directory: "/d".to_string(),
    };
    assert_eq!(config_operation_outcome(&step, String::new()), None);
    assert_eq!(
        config_operation_outcome(&step, "/d/a".to_string()),
        Some("/d/a".to_string())
    );
}

#[test]
fn staging_a_file_depends_on_what_exists() {
    assert_eq!(stage_file_action(false, true, ConfigCopyMode::Copy), StageAction::Skip);
    assert_eq!(stage_file_action(true, true, ConfigCopyMode::Copy), StageAction::Existing);
    assert_eq!(stage_file_action(true, false, ConfigCopyMode::Symlink), StageAction::Link);
    assert_eq!(stage_file_action(true, false, ConfigCopyMode::Copy), StageAction::Copy);
}

#[test]
fn download_status_other_than_ok_is_an_error() {
    assert_eq!(download_status_error("https://x", 200), None);
    assert_eq!(
        download_status_error("https://x", 404),
        Some("Failed to download file: https://x, status: 404".to_string())
    );
}

#[test]
fn cached_downloads_are_found_by_url() {
    let cache = vec![
        ("https://a".to_string(), vec![1u8, 2]),
        ("https://b".to_string(), vec![3u8]),
    ];
    assert_eq!(cached_download(&cache, "https://b"), Some(vec![3u8]));
    assert_eq!(cached_download(&cache, "https://c"), None);
}
