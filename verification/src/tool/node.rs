//! The Node.js runtime and npm installation failures.

pub mod package_json;

use crate::pattern::{captures_group, is_match, regex_captures_group, regex_matches};
use crate::text::{
    chars_contain, chars_of, contains, join_path, joined_path, lines, lines_of, push_str,
    string_from_chars, str_eq,
};
use crate::tool::command_error::ToolCommandError;
use crate::tool::download::{Cpu, DownloadDef, OperatingSystem, System};
use crate::tool::install_failure::{BUILD_SECRETS_URL, InstallFailure, InstallFailureKind};
use crate::tool::ToolType;
use vstd::prelude::*;

verus! {

/// The Node.js runtime of a given version.
#[derive(Debug, Clone)]
pub struct NodeJS {
    pub version: String,
}

/// The download URL templates of Node.js, with the system of each.
pub open spec fn node_download_systems() -> Seq<(Seq<char>, Cpu, OperatingSystem)> {
    seq![
        ("https://nodejs.org/dist/v${version}/node-v${version}-darwin-x64.tar.gz"@, Cpu::X86_64, OperatingSystem::MacOS),
        ("https://nodejs.org/dist/v${version}/node-v${version}-darwin-arm64.tar.gz"@, Cpu::Aarch64, OperatingSystem::MacOS),
        ("https://nodejs.org/dist/v${version}/node-v${version}-linux-x64.tar.gz"@, Cpu::X86_64, OperatingSystem::Linux),
        ("https://nodejs.org/dist/v${version}/node-v${version}-linux-arm64.tar.gz"@, Cpu::Aarch64, OperatingSystem::Linux),
        ("https://nodejs.org/dist/v${version}/node-v${version}-win-x64.zip"@, Cpu::X86_64, OperatingSystem::Windows),
        ("https://nodejs.org/dist/v${version}/node-v${version}-win-arm64.zip"@, Cpu::Aarch64, OperatingSystem::Windows),
    ]
}

fn system(url: &str, cpu: Cpu, os: OperatingSystem) -> (s: System)
    ensures
        s.url@ == url@,
        s.cpu == cpu,
        s.os == os,
{
    System { url: url.to_string(), cpu, os }
}

impl NodeJS {
    /// The runtime's name.
    pub fn name(&self) -> (r: String)
        ensures
            r@ == "node"@,
    {
        "node".to_string()
    }

    /// A runtime.
    pub fn tool_type(&self) -> (r: ToolType)
        ensures
            r == ToolType::Runtime,
    {
        ToolType::Runtime
    }

    /// The runtime's version.
    pub fn version(&self) -> (r: Option<String>)
        ensures
            r is Some && r->0@ == self.version@,
    {
        Some(self.version.clone())
    }

    /// The command that prints the installed version.
    pub fn version_command(&self) -> (r: Option<String>)
        ensures
            r is Some && r->0@ == "node --version"@,
    {
        Some("node --version".to_string())
    }

    /// Node.js downloads fail now and then: an installation is tried three
    /// times.
    pub fn install_max_retries(&self) -> (r: u32)
        ensures
            r == 3,
    {
        3
    }

    /// Where Node.js is downloaded from: an archive for each of macOS, Linux
    /// and Windows on x86-64 and on ARM64.
    pub fn download(&self) -> (d: DownloadDef)
        ensures
            d.binary_name is None,
            d.strip_components == 0,
            d.systems@.len() == node_download_systems().len(),
            forall|i: int|
                0 <= i < d.systems@.len() ==> (#[trigger] d.systems@[i]).url@
                    == node_download_systems()[i].0 && d.systems@[i].cpu
                    == node_download_systems()[i].1 && d.systems@[i].os
                    == node_download_systems()[i].2,
    {
        let mut systems: Vec<System> = Vec::new();
        systems.push(
            system(
                "https://nodejs.org/dist/v${version}/node-v${version}-darwin-x64.tar.gz",
                Cpu::X86_64,
                OperatingSystem::MacOS,
            ),
        );
        systems.push(
            system(
                "https://nodejs.org/dist/v${version}/node-v${version}-darwin-arm64.tar.gz",
                Cpu::Aarch64,
                OperatingSystem::MacOS,
            ),
        );
        systems.push(
            system(
                "https://nodejs.org/dist/v${version}/node-v${version}-linux-x64.tar.gz",
                Cpu::X86_64,
                OperatingSystem::Linux,
            ),
        );
        systems.push(
            system(
                "https://nodejs.org/dist/v${version}/node-v${version}-linux-arm64.tar.gz",
                Cpu::Aarch64,
                OperatingSystem::Linux,
            ),
        );
        systems.push(
            system(
                "https://nodejs.org/dist/v${version}/node-v${version}-win-x64.zip",
                Cpu::X86_64,
                OperatingSystem::Windows,
            ),
        );
        systems.push(
            system(
                "https://nodejs.org/dist/v${version}/node-v${version}-win-arm64.zip",
                Cpu::Aarch64,
                OperatingSystem::Windows,
            ),
        );
        DownloadDef { binary_name: None, strip_components: 0, systems }
    }
}

/// The npm error code of a failed install, from its output.
pub const NPM_CODE_PATTERN: &'static str =
    "npm (?:ERR!|error) code (E401|E403|E404|EUNSUPPORTEDPROTOCOL)";

/// The protocol of a dependency npm cannot install, from its output.
pub const URL_TYPE_PATTERN: &'static str = "Unsupported URL Type \"([^\"]+)\"";

/// A scoped package name, `@owner/name`, plain or URL-encoded.
pub const SCOPED_PACKAGE_PATTERN: &'static str = "@[\\w.-]+(/|%2[fF])[\\w.-]+";

/// What npm printed: its standard output, a newline, its standard error.
pub open spec fn npm_output(stdout: Seq<char>, stderr: Seq<char>) -> Seq<char> {
    stdout + "\n"@ + stderr
}

/// Whether a line of `output` that holds `status` names a scoped package.
/// Only the failing status lines count, not scoped names elsewhere.
pub open spec fn mentions_scoped(output: Seq<char>, status: Seq<char>) -> bool {
    exists|k: int|
        0 <= k < lines(output).len() && contains(#[trigger] lines(output)[k], status)
            && regex_matches(SCOPED_PACKAGE_PATTERN@, lines(output)[k])
}

/// The summary of an unsupported dependency protocol failure: the protocol
/// when the output names it.
pub open spec fn unsupported_protocol_text(output: Seq<char>) -> Seq<char> {
    match regex_captures_group(URL_TYPE_PATTERN@, output, 1) {
        Some(Some(p)) => "npm cannot install \""@ + p
            + "\" dependencies (pnpm/yarn workspace protocols are not supported)"@,
        _ => "npm cannot install this package file (it uses an unsupported dependency protocol)"@,
    }
}

/// The recognised failure of an npm install that printed `stdout` and
/// `stderr`: authentication failures, denied access and missing packages
/// on scoped (possibly private) packages, and unsupported protocols.
pub open spec fn npm_failure(stdout: Seq<char>, stderr: Seq<char>) -> Option<
    (InstallFailureKind, Seq<char>),
> {
    let output = npm_output(stdout, stderr);
    match regex_captures_group(NPM_CODE_PATTERN@, output, 1) {
        Some(Some(code)) => if code == "E401"@ {
            Some(
                (
                    InstallFailureKind::AuthenticationFailed,
                    "npm registry authentication failed (see "@ + BUILD_SECRETS_URL@ + ")"@,
                ),
            )
        } else if code == "EUNSUPPORTEDPROTOCOL"@ {
            Some((InstallFailureKind::UnsupportedDependencyProtocol, unsupported_protocol_text(output)))
        } else if code == "E403"@ && mentions_scoped(output, "403"@) {
            Some(
                (
                    InstallFailureKind::AccessDenied,
                    "npm registry access was denied (see "@ + BUILD_SECRETS_URL@ + ")"@,
                ),
            )
        } else if code == "E404"@ && mentions_scoped(output, "404"@) {
            Some(
                (
                    InstallFailureKind::PackageMaybePrivate,
                    "npm package not found (it may be private; see "@ + BUILD_SECRETS_URL@ + ")"@,
                ),
            )
        } else {
            None
        },
        _ => None,
    }
}

/// Whether a line of `output` holding `status` names a scoped package.
pub fn mentions_scoped_package(output: &str, status: &str) -> (r: bool)
    ensures
        r == mentions_scoped(output@, status@),
{
    let cs = chars_of(output);
    let ls = lines_of(cs.as_slice());
    let st = chars_of(status);
    let ghost all = lines(output@);
    let mut i: usize = 0;
    while i < ls.len()
        invariant
            i <= ls@.len(),
            ls@.len() == all.len(),
            all == lines(output@),
            st@ == status@,
            forall|k: int| 0 <= k < ls@.len() ==> #[trigger] ls@[k]@ == all[k],
            forall|k: int|
                0 <= k < i ==> !(contains(#[trigger] all[k], status@) && regex_matches(
                    SCOPED_PACKAGE_PATTERN@,
                    all[k],
                )),
        decreases ls@.len() - i,
    {
        if chars_contain(ls[i].as_slice(), st.as_slice()) {
            let line = string_from_chars(ls[i].as_slice());
            if is_match(SCOPED_PACKAGE_PATTERN, line.as_str()) {
                return true;
            }
        }
        i = i + 1;
    }
    false
}

/// The summary of an unsupported dependency protocol failure.
pub fn unsupported_protocol_summary(output: &str) -> (r: String)
    ensures
        r@ == unsupported_protocol_text(output@),
{
    match captures_group(URL_TYPE_PATTERN, output, 1) {
        Some(Some(p)) => {
            let mut out = chars_of("npm cannot install \"");
            push_str(&mut out, p.as_str());
            push_str(&mut out, "\" dependencies (pnpm/yarn workspace protocols are not supported)");
            string_from_chars(out.as_slice())
        },
        _ => "npm cannot install this package file (it uses an unsupported dependency protocol)".to_string(),
    }
}

/// The recognised failure of a failed npm install, if any.
pub fn detect_npm_failure(error: &ToolCommandError) -> (r: Option<InstallFailure>)
    ensures
        match r {
            None => npm_failure(error.stdout@, error.stderr@) is None,
            Some(f) => npm_failure(error.stdout@, error.stderr@) == Some((f.kind, f.summary@)),
        },
{
    let mut out = chars_of(error.stdout.as_str());
    push_str(&mut out, "\n");
    push_str(&mut out, error.stderr.as_str());
    let output = string_from_chars(out.as_slice());
    let code = match captures_group(NPM_CODE_PATTERN, output.as_str(), 1) {
        Some(Some(c)) => c,
        _ => {
            return None;
        },
    };
    if str_eq(code.as_str(), "E401") {
        let mut s = chars_of("npm registry authentication failed (see ");
        push_str(&mut s, BUILD_SECRETS_URL);
        push_str(&mut s, ")");
        Some(
            InstallFailure {
                kind: InstallFailureKind::AuthenticationFailed,
                summary: string_from_chars(s.as_slice()),
            },
        )
    } else if str_eq(code.as_str(), "EUNSUPPORTEDPROTOCOL") {
        Some(
            InstallFailure {
                kind: InstallFailureKind::UnsupportedDependencyProtocol,
                summary: unsupported_protocol_summary(output.as_str()),
            },
        )
    } else if str_eq(code.as_str(), "E403") && mentions_scoped_package(output.as_str(), "403") {
        let mut s = chars_of("npm registry access was denied (see ");
        push_str(&mut s, BUILD_SECRETS_URL);
        push_str(&mut s, ")");
        Some(InstallFailure { kind: InstallFailureKind::AccessDenied, summary: string_from_chars(s.as_slice()) })
    } else if str_eq(code.as_str(), "E404") && mentions_scoped_package(output.as_str(), "404") {
        let mut s = chars_of("npm package not found (it may be private; see ");
        push_str(&mut s, BUILD_SECRETS_URL);
        push_str(&mut s, ")");
        Some(
            InstallFailure {
                kind: InstallFailureKind::PackageMaybePrivate,
                summary: string_from_chars(s.as_slice()),
            },
        )
    } else {
        None
    }
}

/// An npm package of a plugin, run with a Node.js runtime.
#[derive(Debug)]
pub struct NodePackage {
    pub name: String,
    pub plugin: crate::tool::PluginDef,
    pub runtime: NodeJS,
}

impl NodePackage {
    /// The package's name.
    pub fn name(&self) -> (r: String)
        ensures
            r@ == self.name@,
    {
        self.name.clone()
    }

    /// A package of a runtime.
    pub fn tool_type(&self) -> (r: ToolType)
        ensures
            r == ToolType::RuntimePackage,
    {
        ToolType::RuntimePackage
    }

    /// The plugin's version command, unless it installs from a package file.
    pub fn version_command(&self) -> (r: Option<String>)
        ensures
            self.plugin.package_file is Some ==> r is None,
            self.plugin.package_file is None ==> crate::tool::opt_view(r) == crate::tool::opt_view(
                self.plugin.version_command,
            ),
    {
        self.plugin.package_version_command()
    }

    /// The arguments of npm that install `name` at `version`.
    pub fn package_install_arguments(name: &str, version: &str) -> (r: Vec<String>)
        ensures
            r@.len() == 3,
            r@[0]@ == "install"@,
            r@[1]@ == "--force"@,
            r@[2]@ == name@ + "@"@ + version@,
    {
        let mut spec = chars_of(name);
        push_str(&mut spec, "@");
        push_str(&mut spec, version);
        vec!["install".to_string(), "--force".to_string(), string_from_chars(spec.as_slice())]
    }

    /// The directories the package's commands are looked up in: its
    /// `node_modules/.bin` in `directory`, then the runtime's.
    pub fn extra_env_paths(directory: &str, runtime_paths: Vec<String>) -> (r: Vec<String>)
        ensures
            r@.len() == runtime_paths@.len() + 1,
            r@[0]@ == joined_path(joined_path(directory@, "node_modules"@), ".bin"@),
            forall|k: int| 0 <= k < runtime_paths@.len() ==> #[trigger] r@[k + 1] == runtime_paths@[k],
    {
        let mut paths = runtime_paths;
        let m = join_path(directory, "node_modules");
        paths.insert(0, join_path(m.as_str(), ".bin"));
        paths
    }

    /// The variable that points Node.js at the package's modules in
    /// `directory`.
    pub fn node_path_var(directory: &str) -> (r: (String, String))
        ensures
            r.0@ == "NODE_PATH"@,
            r.1@ == joined_path(directory@, "node_modules"@),
    {
        ("NODE_PATH".to_string(), join_path(directory, "node_modules"))
    }
}

} // verus!
