use qlty::tool::fingerprint::{
    debug_files_directory, directory, directory_name, donefile_path, fingerprint, fingerprint_input,
    install_log_path, lockfile_path, parent_directory, sort_by_name, FingerprintSource,
};
use qlty::tool::{ExtraPackage, PluginDef};
use sha2::{Digest, Sha256};

fn plugin(package: &str, extra: &[(&str, &str)], package_file: Option<&str>) -> PluginDef {
    PluginDef {
        package: Some(package.to_string()),
        version: Some("V".to_string()),
        version_command: None,
        version_regex: String::new(),
        package_file: package_file.map(|s| s.to_string()),
        package_filters: vec![],
        extra_packages: extra
            .iter()
            .map(|(n, v)| ExtraPackage { name: n.to_string(), version: v.to_string() })
            .collect(),
        environment: vec![],
    }
}

fn digest12(text: &str) -> String {
    let mut hasher = Sha256::new();
    hasher.update(text);
    format!("{:x}", hasher.finalize())[..12].to_string()
}

#[test]
fn test_tool_fingerprint() {
    let source = FingerprintSource {
        runtime: Some(Box::new(FingerprintSource {
            runtime: None,
            plugin: Some(plugin("[runtime_package]", &[], None)),
            package_file_contents: None,
        })),
        plugin: Some(plugin(
            "[package]",
            &[("[extra_package1]", "V"), ("[extra_package2]", "V")],
            Some("package.json"),
        )),
        package_file_contents: Some("[package_file]".to_string()),
    };
    let hash = "[runtime_package]V[package]V[extra_package1]V[extra_package2]V[package_file]";
    assert_eq!(fingerprint_input(&source), hash);
    assert_eq!(fingerprint(&source), digest12(hash));
}

#[test]
fn fingerprint_sorts_extra_packages_by_name() {
    let a = FingerprintSource {
        runtime: None,
        plugin: Some(plugin("p", &[("b", "2"), ("a", "1")], None)),
        package_file_contents: None,
    };
    let b = FingerprintSource {
        runtime: None,
        plugin: Some(plugin("p", &[("a", "1"), ("b", "2")], None)),
        package_file_contents: None,
    };
    assert_eq!(fingerprint_input(&a), "pVa1b2");
    assert_eq!(fingerprint(&a), fingerprint(&b));
    let sorted = sort_by_name(&[
        ExtraPackage { name: "b".to_string(), version: "1".to_string() },
        ExtraPackage { name: "a".to_string(), version: "2".to_string() },
        ExtraPackage { name: "b".to_string(), version: "0".to_string() },
        ExtraPackage { name: "ab".to_string(), version: "3".to_string() },
    ]);
    let order: Vec<(String, String)> =
        sorted.into_iter().map(|p| (p.name, p.version)).collect();
    assert_eq!(
        order,
        vec![
            ("a".to_string(), "2".to_string()),
            ("ab".to_string(), "3".to_string()),
            ("b".to_string(), "1".to_string()),
            ("b".to_string(), "0".to_string()),
        ]
    );
}

#[test]
fn a_tool_without_plugin_hashes_nothing() {
    let source = FingerprintSource { runtime: None, plugin: None, package_file_contents: None };
    assert_eq!(fingerprint_input(&source), "");
    assert_eq!(fingerprint(&source), digest12(""));
}

#[test]
fn installation_paths() {
    let name = directory_name(Some("1.2.3"), "abcdef012345");
    assert_eq!(name, "1.2.3-abcdef012345");
    assert_eq!(directory_name(None, "abc"), "generic-abc");
    let parent = parent_directory("/cache/tools", "eslint");
    assert_eq!(parent, "/cache/tools/eslint");
    let dir = directory(&parent, &name);
    assert_eq!(dir, "/cache/tools/eslint/1.2.3-abcdef012345");
    assert_eq!(donefile_path(&dir), "/cache/tools/eslint/1.2.3-abcdef012345.done");
    assert_eq!(lockfile_path(&dir), "/cache/tools/eslint/1.2.3-abcdef012345.lock");
    assert_eq!(
        debug_files_directory(&dir),
        "/cache/tools/eslint/1.2.3-abcdef012345-installation-debug-files"
    );
    assert_eq!(
        install_log_path(&parent, &name),
        "/cache/tools/eslint/1.2.3-abcdef012345-install.log"
    );
}
