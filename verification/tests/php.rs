use qlty::tool::php::{Php, PhpPackage, PhpProjectInstaller};
use qlty::tool::{ExtraPackage, InstallStep, PluginDef, ToolType};

fn plugin(package_file: Option<&str>) -> PluginDef {
    PluginDef {
        package: Some("vendor/test".to_string()),
        version: Some("1.0.0".to_string()),
        version_command: Some("test --version".to_string()),
        version_regex: "v?(\\d+\\.\\d+\\.\\d+)".to_string(),
        package_file: package_file.map(|s| s.to_string()),
        package_filters: vec![],
        extra_packages: vec![
            ExtraPackage { name: "a".to_string(), version: "1".to_string() },
            ExtraPackage { name: "b".to_string(), version: "2".to_string() },
        ],
        environment: vec![],
    }
}

#[test]
fn php_runtime() {
    let php = Php { version: "8.3".to_string() };
    assert_eq!(php.name(), "php");
    assert_eq!(php.tool_type(), ToolType::Runtime);
    assert_eq!(php.version(), Some("8.3".to_string()));
    assert_eq!(php.version_command(), None);
    assert!(php.verify_installation(true).is_ok());
    assert_eq!(php.verify_installation(false).unwrap_err(), "Ensure `php` is installed and in $PATH");
}

#[test]
fn php_packages_are_required_with_composer() {
    let pkg = PhpPackage {
        name: "tool".to_string(),
        plugin: plugin(None),
        runtime: Php { version: "8.3".to_string() },
    };
    assert_eq!(pkg.name(), "tool");
    assert_eq!(pkg.tool_type(), ToolType::RuntimePackage);
    assert_eq!(pkg.version(), Some("1.0.0".to_string()));
    assert_eq!(pkg.version_command(), Some("test --version".to_string()));
    assert_eq!(
        PhpPackage::package_install_arguments("/c/composer.phar", "vendor/test", "1.0.0"),
        vec!["/c/composer.phar", "require", "--no-interaction", "vendor/test:1.0.0"]
    );
    let env = PhpPackage::extra_env_vars("/tools/php/x");
    assert_eq!(env[0], ("COMPOSER_VENDOR_DIR".to_string(), "/tools/php/x/vendor".to_string()));
    assert_eq!(env[1], ("COMPOSER_HOME".to_string(), "/tools/php/x/.composer".to_string()));
    assert_eq!(env[2], ("COMPOSER_CACHE_DIR".to_string(), "/tools/php/x/.composer-cache".to_string()));
}

#[test]
fn php_project_installer_runs_in_workspace() {
    let pkg = PhpPackage {
        name: "tool".to_string(),
        plugin: plugin(Some("/repo/backend/composer.json")),
        runtime: Php { version: "8.3".to_string() },
    };
    assert_eq!(pkg.version_command(), None);
    let installer = PhpProjectInstaller::new(pkg);
    assert_eq!(installer.name(), "tool");
    assert_eq!(
        PhpProjectInstaller::install_arguments("/c/composer.phar"),
        vec!["/c/composer.phar", "install", "--no-interaction", "--ignore-platform-reqs"]
    );
    assert_eq!(PhpProjectInstaller::extra_env_paths("/repo/backend"), vec!["/repo/backend/vendor/bin"]);
}

#[test]
fn install_steps_follow_the_plugin() {
    let steps = plugin(None).install_steps();
    assert_eq!(steps.len(), 3);
    assert!(matches!(&steps[0], InstallStep::Package { name, version } if name == "vendor/test" && version == "1.0.0"));
    assert!(matches!(&steps[2], InstallStep::Package { name, version } if name == "b" && version == "2"));
    let with_file = plugin(Some("composer.json")).install_steps();
    assert_eq!(with_file.len(), 2);
    assert!(matches!(with_file[1], InstallStep::PackageFile));
    assert_eq!(qlty::tool::missing_plugin_error("ruff"), "Failed to install \"ruff\": missing plugin");
}
