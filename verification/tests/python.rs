use qlty::tool::download::{Cpu, OperatingSystem};
use qlty::tool::python::{version_numbers, PipVenvPackage, Python};
use qlty::tool::{PluginDef, ToolType};

#[test]
fn test_release_old_versions() {
    let cases = vec!["3.8.18", "3.9.18", "3.10.13", "3.11.7", "3.12.1"];
    for version in cases {
        let python = Python {
            version: version.to_string(),
        };
        let release = python.release();
        assert_eq!(release.tag, "20240107");
        assert_eq!(release.windows_suffix, "msvc-shared-install_only");
    }
}

#[test]
fn test_release_new_versions() {
    let cases = vec![
        "3.10.19", "3.11.14", "3.12.12", "3.13.12", "3.14.3", "3.15.0a6",
    ];
    for version in cases {
        let python = Python {
            version: version.to_string(),
        };
        let release = python.release();
        assert_eq!(release.tag, "20260211");
        assert_eq!(release.windows_suffix, "msvc-install_only");
    }
}

#[test]
fn test_release_unknown_version_defaults_to_new() {
    let python = Python {
        version: "3.16.0".to_string(),
    };
    let release = python.release();
    assert_eq!(release.tag, "20260211");
}

#[test]
fn version_numbers_of_various_forms() {
    assert_eq!(version_numbers("3.12.1"), (3, 12, 1));
    assert_eq!(version_numbers("3.15.0a6"), (3, 15, 0));
    assert_eq!(version_numbers("3.12.1rc2"), (3, 12, 1));
    assert_eq!(version_numbers("+3.12"), (3, 12, 0));
    assert_eq!(version_numbers("3"), (3, 0, 0));
    assert_eq!(version_numbers("x.y.z"), (0, 0, 0));
    assert_eq!(version_numbers("3.12.1.4"), (3, 12, 1));
    assert_eq!(version_numbers("99999999999.1.1"), (0, 1, 1));
}

#[test]
fn release_patch_suffix_keeps_the_old_build() {
    let python = Python {
        version: "3.12.1rc1".to_string(),
    };
    assert_eq!(python.release().tag, "20240107");
}

#[test]
fn python_downloads_the_standalone_build_of_its_release() {
    let python = Python {
        version: "3.11.7".to_string(),
    };
    let download = python.download();
    assert_eq!(download.systems.len(), 6);
    assert_eq!(
        download.systems[0].url,
        "https://github.com/indygreg/python-build-standalone/releases/download/20240107/cpython-${version}+20240107-x86_64-apple-darwin-install_only.tar.gz"
    );
    assert_eq!(download.systems[0].cpu, Cpu::X86_64);
    assert_eq!(download.systems[0].os, OperatingSystem::MacOS);
    assert_eq!(
        download.systems[5].url,
        "https://github.com/indygreg/python-build-standalone/releases/download/20240107/cpython-${version}+20240107-aarch64-pc-windows-msvc-shared-install_only.tar.gz"
    );
    let newer = Python {
        version: "3.13.1".to_string(),
    };
    assert_eq!(
        newer.download().systems[4].url,
        "https://github.com/indygreg/python-build-standalone/releases/download/20260211/cpython-${version}+20260211-x86_64-pc-windows-msvc-install_only.tar.gz"
    );
    assert_eq!(newer.version_command(), Some("python3 --version".to_string()));
    assert_eq!(newer.name(), "python");
    assert_eq!(newer.tool_type(), ToolType::Runtime);
}

#[test]
fn pip_package_commands() {
    let package = PipVenvPackage {
        name: "ruff".to_string(),
        plugin: PluginDef {
            package: None,
            version: Some("0.4.0".to_string()),
            version_command: Some("ruff --version".to_string()),
            version_regex: "(\\d+)".to_string(),
            package_file: Some("requirements.txt".to_string()),
            package_filters: vec![],
            extra_packages: vec![],
            environment: vec![],
        },
        runtime: Python {
            version: "3.12.1".to_string(),
        },
    };
    assert_eq!(package.name(), "ruff");
    assert_eq!(package.tool_type(), ToolType::RuntimePackage);
    assert_eq!(package.version(), Some("0.4.0".to_string()));
    assert_eq!(package.version_command(), Some("ruff --version".to_string()));
    assert_eq!(package.version_regex(), "(\\d+)");
    assert_eq!(
        PipVenvPackage::package_install_arguments("/tools/ruff", "ruff", "0.4.0"),
        vec!["-m", "pip", "install", "--prefix", "/tools/ruff", "ruff==0.4.0"]
    );
    assert_eq!(
        package.package_file_install_arguments("/tools/ruff"),
        vec!["-m", "pip", "install", "--prefix", "/tools/ruff", "-r", "requirements.txt"]
    );
    assert_eq!(
        PipVenvPackage::venv_command("/tools/python", "/tools/ruff"),
        (
            "/tools/python/bin/python3".to_string(),
            vec!["-m".to_string(), "venv".to_string(), "/tools/ruff".to_string()]
        )
    );
    assert_eq!(PipVenvPackage::extra_env_paths("/tools/ruff"), vec!["/tools/ruff/bin"]);
    assert_eq!(
        PipVenvPackage::virtual_env_var("/tools/ruff"),
        ("VIRTUAL_ENV".to_string(), "/tools/ruff".to_string())
    );
}
