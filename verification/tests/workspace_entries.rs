use qlty::analysis::Timestamp;
use qlty::workspace_entries::{
    strip_root, ArgsSource, Exclude, ExcludeMatcher, WalkedPath, WorkspaceEntry,
    WorkspaceEntryKind,
};

fn entry(path: &str) -> WorkspaceEntry {
    WorkspaceEntry {
        path: path.to_string(),
        kind: WorkspaceEntryKind::File,
        content_modified: Timestamp { seconds: 1_700_000_000, nanos: 0 },
        contents_size: 100,
        language_name: None,
    }
}

fn matcher(patterns: &[&str], plugins: &[&str]) -> ExcludeMatcher {
    ExcludeMatcher::new(
        Exclude {
            file_patterns: patterns.iter().map(|s| s.to_string()).collect(),
            plugins: plugins.iter().map(|s| s.to_string()).collect(),
        },
        "/project".to_string(),
    )
    .unwrap()
}

#[test]
fn test_matches_excludes_file_for_specific_plugin() {
    let m = matcher(&["*.log"], &["test-plugin"]);
    assert!(m.matches(entry("/project/file.log"), "test-plugin").is_none());
}

#[test]
fn test_does_not_exclude_file_for_different_plugin() {
    let m = matcher(&["*.log"], &["other-plugin"]);
    assert!(m.matches(entry("/project/file.log"), "test-plugin").is_some());
}

#[test]
fn test_does_not_exclude_non_matching_file() {
    let m = matcher(&["*.log"], &["test-plugin"]);
    assert!(m.matches(entry("/project/file.txt"), "test-plugin").is_some());
}

#[test]
fn test_correctly_strips_root_prefix() {
    let m = matcher(&["src/*.log"], &["test-plugin"]);
    assert!(m.matches(entry("/project/src/file.log"), "test-plugin").is_none());
    assert!(m.matches(entry("/project/file.log"), "test-plugin").is_some());
}

#[test]
fn invalid_exclude_patterns_are_errors() {
    let r = ExcludeMatcher::new(
        Exclude { file_patterns: vec!["a[".to_string()], plugins: vec![] },
        "/project".to_string(),
    );
    assert!(r.is_err());
}

#[test]
fn paths_are_made_relative_to_the_root() {
    assert_eq!(strip_root("/project/a/b.rb", "/project"), Some("a/b.rb".to_string()));
    assert_eq!(strip_root("/project/a/b.rb", "/project/"), Some("a/b.rb".to_string()));
    assert_eq!(strip_root("/project", "/project"), Some(String::new()));
    assert_eq!(strip_root("/projectx/a", "/project"), None);
    assert_eq!(strip_root("/other/a", "/project"), None);
}

fn walked(path: &str, is_dir: bool, readable: bool) -> WalkedPath {
    WalkedPath {
        path: path.to_string(),
        absolute: Some(format!("/root/{path}")),
        is_dir,
        metadata: if readable {
            Some((Timestamp { seconds: 5, nanos: 6 }, 7))
        } else {
            None
        },
    }
}

#[test]
fn test_args_source_next() {
    let walk = vec![
        walked("lib/tasks/ops", true, true),
        walked("lib/tasks/ops/deploy.rb", false, true),
        walked("lib/tasks/ops/setup.rb", false, true),
        walked("lib/tasks/ops/broken.rb", false, false),
        walked("greetings.rb", false, true),
    ];
    let source = ArgsSource::new(
        "/root".to_string(),
        vec!["/root/lib/tasks/ops".to_string(), "/root/greetings.rb".to_string()],
        Ok(walk),
    );
    let mut paths: Vec<(String, WorkspaceEntryKind)> = source
        .entries()
        .unwrap()
        .iter()
        .map(|e| (e.path.clone(), e.kind))
        .collect();
    paths.sort_by(|a, b| a.0.cmp(&b.0));
    assert_eq!(
        paths,
        vec![
            ("greetings.rb".to_string(), WorkspaceEntryKind::File),
            ("lib/tasks/ops".to_string(), WorkspaceEntryKind::Directory),
            ("lib/tasks/ops/deploy.rb".to_string(), WorkspaceEntryKind::File),
            ("lib/tasks/ops/setup.rb".to_string(), WorkspaceEntryKind::File),
        ]
    );
    assert_eq!(source.entries().unwrap()[1].contents_size, 7);
}

#[test]
fn entries_outside_the_root_keep_their_path() {
    let w = WalkedPath {
        path: "../elsewhere/x.rb".to_string(),
        absolute: Some("/elsewhere/x.rb".to_string()),
        is_dir: false,
        metadata: Some((Timestamp { seconds: 0, nanos: 0 }, 0)),
    };
    let source = ArgsSource::new("/root".to_string(), vec![], Ok(vec![w]));
    assert_eq!(source.entries().unwrap()[0].path, "../elsewhere/x.rb");
    let failed = ArgsSource::new("/root".to_string(), vec![], Err("walk failed".to_string()));
    assert_eq!(failed.entries().unwrap_err(), "Failed to get entries: walk failed");
}

#[test]
fn stripping_the_root_goes_by_components() {
    assert_eq!(strip_root("/w//x", "/w"), Some("x".to_string()));
    assert_eq!(strip_root("/w/x/", "/w/"), Some("x".to_string()));
    assert_eq!(strip_root("/wx", "/w"), None);
}
