use qlty::planner::config_files::file_name;
use qlty::pattern::{config_globset, exclude_globset};
use qlty::planner::config_files::{
    compute_config_staging_operations, plugin_configs, tool_install_config_operations,
    ActivePluginDef, ConfigCopyMode, ConfigOperation, ConfigSource, InvocationConfigTarget,
    PluginFetch, StagingPaths, WalkedFile,
};

const ROOT: &str = "/work/project";

fn strings(items: &[&str]) -> Vec<String> {
    items.iter().map(|s| s.to_string()).collect()
}

fn plugin(name: &str, config_files: &[&str], affects_cache: &[&str]) -> ActivePluginDef {
    ActivePluginDef {
        name: name.to_string(),
        config_files: strings(config_files),
        exported_config_paths: vec![],
        affects_cache: strings(affects_cache),
        fetch: vec![],
    }
}

fn walked(name: &str, contents: &str) -> WalkedFile {
    WalkedFile {
        path: format!("{}/{}", ROOT, name),
        file_name: name.to_string(),
        contents: Some(contents.to_string()),
    }
}

fn source_paths() -> StagingPaths {
    StagingPaths {
        root: ROOT.to_string(),
        staging: ROOT.to_string(),
        configs_dir: None,
    }
}

fn file_source(op: &ConfigOperation) -> Option<&str> {
    match &op.source {
        ConfigSource::File(p) => Some(p.as_str()),
        ConfigSource::Download(_) => None,
    }
}

fn base(path: &str) -> &str {
    path.rsplit('/').next().unwrap()
}

#[test]
fn test_config_globset_with_config_files_only() {
    let globset = config_globset(&strings(&[".eslintrc.js", "package.json"])).unwrap();

    assert!(globset.is_match(".eslintrc.js"));
    assert!(globset.is_match("package.json"));
    assert!(!globset.is_match("other.txt"));
}

#[test]
fn test_config_globset_with_affects_cache() {
    let globset =
        config_globset(&strings(&[".eslintrc.js", "package.json", "yarn.lock"])).unwrap();

    assert!(globset.is_match(".eslintrc.js"));
    assert!(globset.is_match("package.json"));
    assert!(globset.is_match("yarn.lock"));
    assert!(!globset.is_match("other.txt"));
}

#[test]
fn test_compute_config_staging_operations_empty_plugins() {
    let operations =
        compute_config_staging_operations(&source_paths(), &[], &[], &[], &[]).unwrap();
    assert!(operations.is_empty());
}

#[test]
fn test_compute_config_staging_operations_with_repository_configs() {
    let plugins = vec![plugin("eslint", &[".eslintrc.js"], &[])];
    let files = vec![walked(".eslintrc.js", "module.exports = {};")];
    let paths = source_paths();
    let operations = compute_config_staging_operations(&paths, &plugins, &[], &files, &[]).unwrap();

    let found_eslintrc = operations
        .iter()
        .filter(|op| op.destination.starts_with(&paths.staging))
        .any(|op| file_source(op).map(base) == Some(".eslintrc.js"));
    assert!(found_eslintrc, "Should find .eslintrc.js in repository");
    assert!(
        operations
            .iter()
            .filter(|op| op.destination.starts_with(&paths.root))
            .any(|op| op.mode == ConfigCopyMode::Symlink),
        "Should have qlty directory operations"
    );
}

#[test]
fn test_tool_install_config_operations_empty_invocations() {
    let operations = tool_install_config_operations(&[], &vec![]).unwrap();
    assert!(operations.is_empty());
}

#[test]
fn test_exclude_globset() {
    let globset = exclude_globset(&strings(&["node_modules/**", "*.tmp"])).unwrap();

    assert!(globset.is_match("node_modules/package/index.js"));
    assert!(globset.is_match("test.tmp"));
    assert!(!globset.is_match("src/main.js"));
}

#[test]
fn test_config_globset_invalid_patterns() {
    assert!(config_globset(&strings(&["[invalid-glob"])).is_err());
}

#[test]
fn test_exclude_globset_invalid_patterns() {
    let result = exclude_globset(&strings(&["[invalid-glob"]));
    assert_eq!(
        result.err(),
        Some("Failed to build glob for pattern: [invalid-glob".to_string())
    );
    let result = plugin_configs(&[], ROOT, &strings(&["[invalid-glob"]), &[]);
    assert_eq!(
        result.err(),
        Some("Failed to build glob for pattern: [invalid-glob".to_string())
    );
}

#[test]
fn test_compute_config_staging_operations_with_exported_configs() {
    let mut custom = plugin("custom_plugin", &[], &[]);
    custom.exported_config_paths = strings(&["custom.config"]);
    let paths = source_paths();
    let operations = compute_config_staging_operations(&paths, &[custom], &[], &[], &[]).unwrap();

    assert!(
        operations
            .iter()
            .filter(|op| op.destination.starts_with(&paths.root))
            .any(|op| op.mode == ConfigCopyMode::Symlink),
        "Should have workspace copy operations for exported configs"
    );
}

#[test]
fn test_compute_config_staging_operations_mixed_config_types() {
    let plugins = vec![plugin("eslint", &[".eslintrc.js"], &["package-lock.json"])];
    let files = vec![
        walked(".eslintrc.js", "module.exports = {};"),
        walked("package-lock.json", "{}"),
    ];
    let paths = source_paths();
    let operations = compute_config_staging_operations(&paths, &plugins, &[], &files, &[]).unwrap();

    let found_files: Vec<&str> = operations
        .iter()
        .filter(|op| op.destination.starts_with(&paths.staging))
        .filter_map(|op| file_source(op).map(base))
        .collect();
    assert!(found_files.contains(&".eslintrc.js"), "Should find config file");
    assert!(
        found_files.contains(&"package-lock.json"),
        "Should find affects_cache file"
    );
}

#[test]
fn test_tool_install_config_operations_with_copy_enabled() {
    let plugins = vec![plugin("test", &["test_config.yml"], &[])];
    let files = vec![walked("test_config.yml", "test: config")];
    let config_file_path = format!("{}/test_config.yml", ROOT);
    let configs = plugin_configs(&plugins, ROOT, &[], &files).unwrap();
    let invocations = vec![InvocationConfigTarget {
        plugin_name: "test".to_string(),
        copy_configs_into_tool_install: true,
        tool_directory: format!("{}/.qlty/tools/test", ROOT),
    }];

    let operations = tool_install_config_operations(&invocations, &configs).unwrap();

    let tool_install_ops: Vec<&ConfigOperation> = operations
        .iter()
        .filter(|op| file_source(op).is_some() && op.mode == ConfigCopyMode::Copy)
        .collect();
    assert!(!tool_install_ops.is_empty());
    assert_eq!(tool_install_ops.len(), 1);
    let op = tool_install_ops[0];
    assert_eq!(file_source(op), Some(config_file_path.as_str()));
    assert!(op.destination.contains("test_config.yml"));
    assert!(op.destination.contains(".qlty/tools/test"));
    assert_eq!(op.mode, ConfigCopyMode::Copy);
}

#[test]
fn test_plugin_configs_excludes_affects_cache() {
    let plugins = vec![plugin("eslint", &[".eslintrc.js"], &["package-lock.json"])];
    let files = vec![
        walked(".eslintrc.js", "module.exports = {};"),
        walked("package-lock.json", "{}"),
    ];
    let configs = plugin_configs(&plugins, ROOT, &[], &files).unwrap();
    let eslint_configs = &configs.iter().find(|(name, _)| name == "eslint").unwrap().1;

    let config_paths: Vec<&str> = eslint_configs.iter().map(|c| base(&c.path)).collect();
    assert!(config_paths.contains(&".eslintrc.js"), "Should include config file");
    assert!(
        !config_paths.contains(&"package-lock.json"),
        "Should not include affects_cache file as a config"
    );
}

#[test]
fn staging_operations_come_in_documented_order() {
    let mut eslint = plugin("eslint", &[".eslintrc.js"], &[]);
    eslint.exported_config_paths = strings(&["/plugins/eslint/base.json"]);
    eslint.fetch = vec![PluginFetch {
        url: "https://example.com/rules.json".to_string(),
        path: "rules.json".to_string(),
    }];
    let paths = StagingPaths {
        root: ROOT.to_string(),
        staging: "/tmp/stage".to_string(),
        configs_dir: Some(format!("{}/.qlty/configs", ROOT)),
    };
    let files = vec![walked(".eslintrc.js", "x")];
    let ops = compute_config_staging_operations(&paths, &[eslint], &[], &files, &[]).unwrap();
    let summary: Vec<(String, String)> = ops
        .iter()
        .map(|op| {
            let source = match &op.source {
                ConfigSource::File(p) => p.clone(),
                ConfigSource::Download(f) => f.url.clone(),
            };
            (source, op.destination.clone())
        })
        .collect();
    let expected: Vec<(String, String)> = vec![
        ("/work/project/.eslintrc.js", "/tmp/stage/.eslintrc.js"),
        ("/plugins/eslint/base.json", "/tmp/stage/base.json"),
        ("/plugins/eslint/base.json", "/work/project/base.json"),
        ("/work/project/.qlty/configs/.eslintrc.js", "/tmp/stage/.eslintrc.js"),
        ("/work/project/.qlty/configs/.eslintrc.js", "/work/project/.eslintrc.js"),
        ("https://example.com/rules.json", "/work/project/rules.json"),
        ("https://example.com/rules.json", "/tmp/stage/rules.json"),
    ]
    .into_iter()
    .map(|(a, b)| (a.to_string(), b.to_string()))
    .collect();
    assert_eq!(summary, expected);
    assert_eq!(ops[5].mode, ConfigCopyMode::Copy);
    assert_eq!(ops[0].mode, ConfigCopyMode::Symlink);
}

#[test]
fn exported_path_without_name_is_an_error() {
    let mut bad = plugin("bad", &[], &[]);
    bad.exported_config_paths = strings(&["/"]);
    assert!(compute_config_staging_operations(&source_paths(), &[bad], &[], &[], &[]).is_err());
}

#[test]
fn excluded_and_unreadable_files_are_not_configs() {
    let plugins = vec![plugin("eslint", &[".eslintrc.js"], &[])];
    let mut unreadable = walked(".eslintrc.js", "");
    unreadable.path = format!("{}/sub/.eslintrc.js", ROOT);
    unreadable.contents = None;
    let files = vec![walked(".eslintrc.js", "a"), unreadable];
    let excluded = plugin_configs(&plugins, ROOT, &strings(&["/work/project/.eslintrc.js"]), &files)
        .unwrap();
    let kept: usize = excluded.iter().map(|(_, v)| v.len()).sum();
    assert_eq!(kept, 0);
    let all = plugin_configs(&plugins, ROOT, &[], &files).unwrap();
    assert_eq!(all.len(), 1);
    assert_eq!(all[0].1.len(), 1);
    assert_eq!(all[0].1[0].contents, "a");
}

#[test]
fn file_names_are_read_by_components() {
    assert_eq!(file_name("config/"), Some("config".to_string()));
    assert_eq!(file_name("a/."), Some("a".to_string()));
    assert_eq!(file_name("dir/.eslintrc.js"), Some(".eslintrc.js".to_string()));
    assert_eq!(file_name("a/.."), None);
    assert_eq!(file_name("/"), None);
}

#[test]
fn the_first_pattern_that_fails_is_reported() {
    let result = exclude_globset(&strings(&["*.rs", "[first", "{second"]));
    assert_eq!(result.err().unwrap(), "Failed to build glob for pattern: [first");
    assert!(exclude_globset(&strings(&[])).is_ok());
    let matcher = config_globset(&strings(&["*.toml"])).unwrap();
    assert!(matcher.is_match("Cargo.toml"));
    assert!(!matcher.is_match("dir/Cargo.toml"));
}
