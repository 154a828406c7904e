//! The record of a tool installation, kept for debugging.

use crate::analysis::{Timestamp, now_timestamp};
use crate::text::{chars_of, join_path, joined_path, push_str, string_from_chars};
use crate::tool::ToolType;
use crate::utils::generate_random_id;
use vstd::prelude::*;

verus! {

/// What happened while a tool was installed.
#[derive(Debug)]
pub struct Installation {
    pub tool_name: String,
    pub version: String,
    pub tool_type: String,
    pub directory: String,
    pub runtime: String,
    pub fingerprint: String,
    pub qlty_cli_version: String,
    pub log_file_path: String,
    pub started_at: Option<Timestamp>,
    pub env: Vec<(String, String)>,
    pub script: Option<String>,
    pub stdout: Option<String>,
    pub stderr: Option<String>,
    pub exit_code: Option<i64>,
    pub download_url: Option<String>,
    pub download_success: Option<bool>,
    pub download_file_type: Option<String>,
    pub download_binary_name: Option<String>,
    pub finished_at: Option<Timestamp>,
}

/// The name `Debug` gives a tool type.
pub open spec fn tool_type_text(t: ToolType) -> Seq<char> {
    match t {
        ToolType::Runtime => "Runtime"@,
        ToolType::Download => "Download"@,
        ToolType::RuntimePackage => "RuntimePackage"@,
        ToolType::GitHubRelease => "GitHubRelease"@,
        ToolType::NullTool => "NullTool"@,
    }
}

/// The name of a tool type.
pub fn tool_type_name(t: ToolType) -> (r: &'static str)
    ensures
        r@ == tool_type_text(t),
{
    match t {
        ToolType::Runtime => "Runtime",
        ToolType::Download => "Download",
        ToolType::RuntimePackage => "RuntimePackage",
        ToolType::GitHubRelease => "GitHubRelease",
        ToolType::NullTool => "NullTool",
    }
}

/// What is known of a tool when its installation starts.
#[derive(Debug)]
pub struct ToolDescription {
    pub name: String,
    pub version: Option<String>,
    pub tool_type: ToolType,
    pub directory: String,
    pub runtime_name: Option<String>,
    pub fingerprint: String,
    pub install_log_path: String,
    pub env: Vec<(String, String)>,
}

/// The record of an installation of `tool` that starts at `started_at`,
/// by the command line of version `cli_version`.
pub open spec fn initial_installation(tool: ToolDescription, cli_version: Seq<char>, started_at: Timestamp, i: Installation) -> bool {
    &&& i.tool_name == tool.name
    &&& i.version@ == match tool.version {
        Some(v) => v@,
        None => seq![],
    }
    &&& i.tool_type@ == tool_type_text(tool.tool_type)
    &&& i.directory@ == tool.directory@ + "-installation-debug-files"@
    &&& i.runtime@ == match tool.runtime_name {
        Some(r) => r@,
        None => seq![],
    }
    &&& i.fingerprint == tool.fingerprint
    &&& i.qlty_cli_version@ == cli_version
    &&& i.log_file_path == tool.install_log_path
    &&& i.started_at == Some(started_at)
    &&& i.env == tool.env
    &&& i.script is None && i.stdout is None && i.stderr is None && i.exit_code is None
    &&& i.download_url is None && i.download_success is None
    &&& i.download_file_type is None && i.download_binary_name is None
    &&& i.finished_at is None
}

/// The record of an installation of `tool` starting now.
pub fn initialize_installation(tool: ToolDescription, cli_version: &str) -> (r: Installation)
    ensures
        r.started_at is Some,
        initial_installation(tool, cli_version@, r.started_at->0, r),
{
    let mut dir = chars_of(tool.directory.as_str());
    push_str(&mut dir, "-installation-debug-files");
    let started = now_timestamp();
    Installation {
        tool_name: tool.name,
        version: match tool.version {
            Some(v) => v,
            None => String::new(),
        },
        tool_type: tool_type_name(tool.tool_type).to_string(),
        directory: string_from_chars(dir.as_slice()),
        runtime: match tool.runtime_name {
            Some(r) => r,
            None => String::new(),
        },
        fingerprint: tool.fingerprint,
        qlty_cli_version: cli_version.to_string(),
        log_file_path: tool.install_log_path,
        started_at: Some(started),
        env: tool.env,
        script: None,
        stdout: None,
        stderr: None,
        exit_code: None,
        download_url: None,
        download_success: None,
        download_file_type: None,
        download_binary_name: None,
        finished_at: None,
    }
}

/// Records the end of a fetch of release assets from `url`.
pub fn finalize_installation_from_assets_fetch(installation: &mut Installation, success: bool, url: &str)
    ensures
        final(installation).download_url matches Some(u) && u@ == url@,
        final(installation).download_success == Some(success),
        final(installation).finished_at is Some,
        final(installation).tool_name == old(installation).tool_name,
        final(installation).directory == old(installation).directory,
        final(installation).stdout == old(installation).stdout,
        final(installation).stderr == old(installation).stderr,
{
    installation.download_url = Some(url.to_string());
    installation.download_success = Some(success);
    installation.finished_at = Some(now_timestamp());
}

/// How an installation command ended: what it printed and its exit code,
/// or the description of why it could not be run.
#[derive(Debug)]
pub enum CommandOutcome {
    Ran { stdout: String, stderr: String, exit_code: i64 },
    Failed { description: String },
}

/// Records the end of the installation command `script`; gives what goes
/// to the install log: what the command printed on standard output, then
/// on standard error.
pub fn finalize_installation_from_cmd_result(
    installation: &mut Installation,
    outcome: CommandOutcome,
    script: String,
) -> (log: String)
    ensures
        final(installation).script == Some(script),
        final(installation).finished_at is Some,
        final(installation).tool_name == old(installation).tool_name,
        final(installation).directory == old(installation).directory,
        match outcome {
            CommandOutcome::Ran { stdout, stderr, exit_code } => final(installation).stdout == Some(stdout)
                && final(installation).stderr == Some(stderr) && final(installation).exit_code == Some(exit_code)
                && log@ == stdout@ + stderr@,
            CommandOutcome::Failed { description } => final(installation).stdout == old(installation).stdout
                && final(installation).stderr == Some(description) && final(installation).exit_code == old(installation).exit_code
                && log@ == match old(installation).stdout {
                    Some(s) => s@,
                    None => seq![],
                } + description@,
        },
{
    installation.script = Some(script);
    match outcome {
        CommandOutcome::Ran { stdout, stderr, exit_code } => {
            installation.stdout = Some(stdout);
            installation.stderr = Some(stderr);
            installation.exit_code = Some(exit_code);
        },
        CommandOutcome::Failed { description } => {
            installation.stderr = Some(description);
        },
    }
    let mut log: Vec<char> = Vec::new();
    match &installation.stdout {
        Some(s) => push_str(&mut log, s.as_str()),
        None => {},
    }
    match &installation.stderr {
        Some(s) => push_str(&mut log, s.as_str()),
        None => {},
    }
    installation.finished_at = Some(now_timestamp());
    string_from_chars(log.as_slice())
}

/// Records the end of a download from `url` of a file of type `file_type`.
pub fn finalize_installation_from_download_result(
    installation: &mut Installation,
    url: String,
    file_type: String,
    binary_name: Option<String>,
    success: bool,
)
    ensures
        final(installation).download_url == Some(url),
        final(installation).download_file_type == Some(file_type),
        final(installation).download_binary_name == binary_name,
        final(installation).download_success == Some(success),
        final(installation).finished_at is Some,
        final(installation).tool_name == old(installation).tool_name,
        final(installation).directory == old(installation).directory,
{
    installation.download_url = Some(url);
    installation.download_file_type = Some(file_type);
    installation.download_binary_name = binary_name;
    installation.download_success = Some(success);
    installation.finished_at = Some(now_timestamp());
}

/// Where installation records are written.
pub struct InstallationFileWritter {}

/// The file an installation record named by `id` goes to, in the record's
/// directory.
pub open spec fn installation_file_path(directory: Seq<char>, id: Seq<char>) -> Seq<char> {
    joined_path(directory, "installation-"@ + id + ".yaml"@)
}

impl InstallationFileWritter {
    /// The file a record of `installation` is written to: a new file with a
    /// random six-character name in its directory; nothing when no random
    /// name could be drawn.
    pub fn file_path(installation: &Installation) -> (r: Option<String>)
        ensures
            r matches Some(p) ==> exists|id: Seq<char>|
                id.len() == 6 && (forall|i: int| 0 <= i < id.len() ==> crate::utils::is_id_char(#[trigger] id[i]))
                    && #[trigger] installation_file_path(installation.directory@, id) == p@,
    {
        match generate_random_id(6) {
            Some(id) => {
                let mut name = chars_of("installation-");
                push_str(&mut name, id.as_str());
                push_str(&mut name, ".yaml");
                let n = string_from_chars(name.as_slice());
                let p = join_path(installation.directory.as_str(), n.as_str());
                assert(installation_file_path(installation.directory@, id@) == p@);
                Some(p)
            },
            None => None,
        }
    }
}

/// Where install summaries are written.
pub struct ToolInstallSummaryWritter {}

impl ToolInstallSummaryWritter {
    /// The file the install summary of a tool whose directory is
    /// `directory` is written to.
    pub fn file_path(directory: &str) -> (r: String)
        ensures
            r@ == directory@ + "-install-debug.yaml"@,
    {
        let mut p = chars_of(directory);
        push_str(&mut p, "-install-debug.yaml");
        string_from_chars(p.as_slice())
    }
}

} // verus!
