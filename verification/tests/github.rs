use qlty::tool::download::{Cpu, OperatingSystem};
use qlty::tool::github::{DownloadFileType, GitHubRelease, GitHubReleaseAsset, ReleaseDef};

fn release() -> GitHubRelease {
    GitHubRelease::new(
        "v0.7.0".into(),
        ReleaseDef {
            binary_name: Some("tool".into()),
            github: "repo/tool".into(),
            download_type: DownloadFileType::Zip,
            strip_components: 0,
        },
    )
}

fn asset(name: &str, content_type: &str) -> GitHubReleaseAsset {
    GitHubReleaseAsset {
        name: name.into(),
        content_type: content_type.into(),
        browser_download_url: format!("https://example.org/{name}"),
    }
}

#[test]
fn test_windows_x86_64_asset() {
    let release = release();
    let tests = vec![
        ("tool-v0.7.0.windows.x86_64.zip", "application/zip", true),
        ("tool-v0.7.0_windows_armv6.zip", "application/zip", false),
        ("tool-v0.7.0_windows_armv7.zip", "application/zip", false),
        ("tool-v0.7.0_windows_arm64.zip", "application/zip", false),
        ("tool-v0.7.0_windows_386.zip", "application/zip", false),
        ("any_filename.ext", "application/x-msdownload", true),
        ("any_filename.ext", "application/x-ms-dos-executable", true),
        ("tool-v0.7.0.zip", "application/zip", true),
        ("tool-v0.7.0.tar.gz", "application/gzip", false),
        ("tool-v0.7.0.linux.zip", "application/zip", false),
        ("tool-v0.7.0.linux.x86_64.zip", "application/zip", false),
        ("tool-v0.7.0.linux.x86_64.tar.gz", "application/gzip", false),
        ("tool-v0.7.0.macos.x86_64.zip", "application/zip", false),
        ("tool-v0.7.0.aarch64.tar.gz", "application/gzip", false),
    ];
    for (name, content_type, matches) in tests {
        let asset = GitHubReleaseAsset {
            name: name.into(),
            content_type: content_type.into(),
            browser_download_url: "https://example.org".into(),
        };
        let result = if matches { Some(asset.clone()) } else { None };
        assert_eq!(release.windows_x86_64_asset(&[asset.clone()]), result);
    }
}

#[test]
fn each_system_gets_the_first_fitting_asset() {
    let release = release();
    let assets = vec![
        asset("tool_Linux_x86_64.tar.gz", "application/gzip"),
        asset("tool_linux_amd64.tar.gz", "application/gzip"),
        asset("tool_linux_arm64.tar.gz", "application/gzip"),
        asset("tool_Darwin_x86_64.tar.gz", "application/gzip"),
        asset("tool_windows_x86_64.zip", "application/zip"),
        asset("checksums.txt", "text/plain"),
        asset("tool_windows_arm64.zip", "application/zip"),
    ];
    let d = release.download(&assets);
    assert_eq!(d.binary_name, Some("tool".to_string()));
    assert_eq!(d.strip_components, 0);
    let got: Vec<(String, Cpu, OperatingSystem)> =
        d.systems.iter().map(|s| (s.url.clone(), s.cpu, s.os)).collect();
    assert_eq!(
        got,
        vec![
            ("https://example.org/tool_Linux_x86_64.tar.gz".to_string(), Cpu::X86_64, OperatingSystem::Linux),
            ("https://example.org/tool_linux_arm64.tar.gz".to_string(), Cpu::Aarch64, OperatingSystem::Linux),
            ("https://example.org/tool_Darwin_x86_64.tar.gz".to_string(), Cpu::X86_64, OperatingSystem::MacOS),
            // No ARM build for macOS: the x86-64 one serves.
            ("https://example.org/tool_Darwin_x86_64.tar.gz".to_string(), Cpu::Aarch64, OperatingSystem::MacOS),
            ("https://example.org/tool_windows_x86_64.zip".to_string(), Cpu::X86_64, OperatingSystem::Windows),
            ("https://example.org/tool_windows_arm64.zip".to_string(), Cpu::Aarch64, OperatingSystem::Windows),
        ]
    );
}

#[test]
fn assets_of_other_content_types_are_not_candidates() {
    let release = release();
    let assets = vec![
        asset("tool_linux_x86_64.txt", "text/plain"),
        asset("tool_linux_x86_64.tar.xz", "application/x-xz"),
    ];
    let c = release.candidate_assets(&assets);
    assert_eq!(c, vec![assets[1].clone()]);
    assert_eq!(release.systems(&[assets[0].clone()]).len(), 0);
}

#[test]
fn name_classification() {
    let r = release();
    assert!(r.is_x86_64("TOOL-AMD64"));
    assert!(r.is_aarch64("tool-ARMv7"));
    assert!(r.is_32bit("tool_I386.zip"));
    assert!(!r.is_32bit("tool_x86_64.zip"));
    assert!(r.is_macos("tool-Darwin"));
    assert!(r.is_linux("tool-LINUX"));
    assert_eq!(r.allowed_content_types().len(), 7);
    assert_eq!(r.allowed_content_types_windows()[1], "application/x-msdownload");
}

#[test]
fn release_assets_are_looked_up_by_tag() {
    let r = GitHubRelease::new(
        "1.2.3".into(),
        ReleaseDef {
            binary_name: None,
            github: "owner/tool".into(),
            download_type: DownloadFileType::Targz,
            strip_components: 1,
        },
    );
    let (a, b) = r.tag_urls();
    assert_eq!(a, "https://api.github.com/repos/owner/tool/releases/tags/v1.2.3");
    assert_eq!(b, "https://api.github.com/repos/owner/tool/releases/tags/1.2.3");
}
