//! Tool installation: versions, retries, failures, command errors and
//! runtime releases.

pub mod command_error;
pub mod install_failure;
pub mod python;
pub mod download;
pub mod node;
pub mod github;
pub mod installations;
pub mod php;
pub mod fingerprint;
pub mod environment;

use crate::pattern::{
    captures_group, env_references_replaced, is_valid_regex, pairs_view, regex_captures_group,
    regex_compiles, replace_env_references,
};
use crate::text::{
    chars_of, debug_str, debug_text, decimal_text, i64_to_decimal, join, last_lines,
    last_lines_joined, lines, lines_of, push_str, replace_str, replaced, string_from_chars, str_eq,
    trim, trim_chars, append_chars,
};
use vstd::prelude::*;

verus! {

/// How a tool is obtained.
#[derive(Debug, Clone, Copy, PartialEq, Eq, Structural)]
pub enum ToolType {
    Runtime,
    Download,
    RuntimePackage,
    GitHubRelease,
    NullTool,
}

/// The pattern a tool's version is taken from unless the tool names another:
/// the first group is the version number.
pub const DEFAULT_VERSION_REGEX: &'static str = "v?(\\d+\\.\\d+\\.\\d+)";

/// Why a tool's version could not be established or checked.
#[derive(Debug)]
pub enum ToolError {
    /// The version pattern is not a valid regular expression.
    InvalidRegex { regex: String },
    /// The pattern matched but its first group took no part in the match.
    NoVersionCaptured { input: String, regex: String },
    /// The version command failed.
    VersionCommandFailed { name: String, script: String, exit_code: i32, output: String },
    /// The version command's output does not match the pattern.
    OutputDoesNotMatch { version_command: Option<String>, output: String, regex: String },
    /// The tool has no version command.
    NoVersionCommand { name: String },
    /// The installed version is not the expected one.
    VersionMismatch { version_command: String, installed: String, expected: String, regex: String },
}

/// The abstract value of a [`ToolError`].
pub enum ToolErrorView {
    InvalidRegex { regex: Seq<char> },
    NoVersionCaptured { input: Seq<char>, regex: Seq<char> },
    VersionCommandFailed { name: Seq<char>, script: Seq<char>, exit_code: i32, output: Seq<char> },
    OutputDoesNotMatch { version_command: Option<Seq<char>>, output: Seq<char>, regex: Seq<char> },
    NoVersionCommand { name: Seq<char> },
    VersionMismatch {
        version_command: Seq<char>,
        installed: Seq<char>,
        expected: Seq<char>,
        regex: Seq<char>,
    },
}

/// The abstract value of an optional string.
pub open spec fn opt_view(s: Option<String>) -> Option<Seq<char>> {
    match s {
        Some(x) => Some(x@),
        None => None,
    }
}

impl View for ToolError {
    type V = ToolErrorView;

    open spec fn view(&self) -> ToolErrorView {
        match self {
            ToolError::InvalidRegex { regex } => ToolErrorView::InvalidRegex { regex: regex@ },
            ToolError::NoVersionCaptured { input, regex } => ToolErrorView::NoVersionCaptured {
                input: input@,
                regex: regex@,
            },
            ToolError::VersionCommandFailed { name, script, exit_code, output } => {
                ToolErrorView::VersionCommandFailed {
                    name: name@,
                    script: script@,
                    exit_code: *exit_code,
                    output: output@,
                }
            },
            ToolError::OutputDoesNotMatch { version_command, output, regex } => {
                ToolErrorView::OutputDoesNotMatch {
                    version_command: opt_view(*version_command),
                    output: output@,
                    regex: regex@,
                }
            },
            ToolError::NoVersionCommand { name } => ToolErrorView::NoVersionCommand { name: name@ },
            ToolError::VersionMismatch { version_command, installed, expected, regex } => {
                ToolErrorView::VersionMismatch {
                    version_command: version_command@,
                    installed: installed@,
                    expected: expected@,
                    regex: regex@,
                }
            },
        }
    }
}

/// The text `Debug` gives for an optional string.
pub open spec fn debug_option_text(s: Option<Seq<char>>) -> Seq<char> {
    match s {
        Some(x) => "Some("@ + debug_text(x) + ")"@,
        None => "None"@,
    }
}

/// The message of an error, as the tool reports it.
pub open spec fn tool_error_text(e: ToolErrorView) -> Seq<char> {
    match e {
        ToolErrorView::InvalidRegex { regex } => "Invalid regex "@ + debug_text(regex)
            + " for package"@,
        ToolErrorView::NoVersionCaptured { input, regex } => "No version captured from "@
            + debug_text(input) + " using regex "@ + debug_text(regex),
        ToolErrorView::VersionCommandFailed { name, script, exit_code, output } =>
            "Failed to get version for package "@ + debug_text(name) + ": (command "@ + script
            + " exited with code "@ + decimal_text(exit_code as int) + ")\n\n"@ + output,
        ToolErrorView::OutputDoesNotMatch { version_command, output, regex } =>
            "Package version command "@ + debug_option_text(version_command) + " output "@
            + debug_text(output) + " does not match regex "@ + debug_text(regex),
        ToolErrorView::NoVersionCommand { name } => "No version command for package: "@
            + debug_text(name),
        ToolErrorView::VersionMismatch { version_command, installed, expected, regex } =>
            "Invalid tool version: "@ + version_command + ": "@ + installed
            + " does not match version "@ + debug_text(expected) + " (extracted with regex "@
            + debug_text(regex) + ")"@,
    }
}

impl ToolError {
    /// The message of the error.
    pub fn message(&self) -> (m: String)
        ensures
            m@ == tool_error_text(self@),
    {
        let mut out: Vec<char> = Vec::new();
        match self {
            ToolError::InvalidRegex { regex } => {
                push_str(&mut out, "Invalid regex ");
                push_str(&mut out, debug_str(regex.as_str()).as_str());
                push_str(&mut out, " for package");
            },
            ToolError::NoVersionCaptured { input, regex } => {
                push_str(&mut out, "No version captured from ");
                push_str(&mut out, debug_str(input.as_str()).as_str());
                push_str(&mut out, " using regex ");
                push_str(&mut out, debug_str(regex.as_str()).as_str());
            },
            ToolError::VersionCommandFailed { name, script, exit_code, output } => {
                push_str(&mut out, "Failed to get version for package ");
                push_str(&mut out, debug_str(name.as_str()).as_str());
                push_str(&mut out, ": (command ");
                push_str(&mut out, script.as_str());
                push_str(&mut out, " exited with code ");
                let code = i64_to_decimal(*exit_code as i64);
                append_chars(&mut out, code.as_slice());
                push_str(&mut out, ")\n\n");
                push_str(&mut out, output.as_str());
            },
            ToolError::OutputDoesNotMatch { version_command, output, regex } => {
                push_str(&mut out, "Package version command ");
                match version_command {
                    Some(c) => {
                        push_str(&mut out, "Some(");
                        push_str(&mut out, debug_str(c.as_str()).as_str());
                        push_str(&mut out, ")");
                    },
                    None => {
                        push_str(&mut out, "None");
                    },
                }
                push_str(&mut out, " output ");
                push_str(&mut out, debug_str(output.as_str()).as_str());
                push_str(&mut out, " does not match regex ");
                push_str(&mut out, debug_str(regex.as_str()).as_str());
            },
            ToolError::NoVersionCommand { name } => {
                push_str(&mut out, "No version command for package: ");
                push_str(&mut out, debug_str(name.as_str()).as_str());
            },
            ToolError::VersionMismatch { version_command, installed, expected, regex } => {
                push_str(&mut out, "Invalid tool version: ");
                push_str(&mut out, version_command.as_str());
                push_str(&mut out, ": ");
                push_str(&mut out, installed.as_str());
                push_str(&mut out, " does not match version ");
                push_str(&mut out, debug_str(expected.as_str()).as_str());
                push_str(&mut out, " (extracted with regex ");
                push_str(&mut out, debug_str(regex.as_str()).as_str());
                push_str(&mut out, ")");
            },
        }
        string_from_chars(out.as_slice())
    }
}

/// The version a tool is expected to have: the first group of the version
/// pattern's match in the declared version, if it matches.
pub open spec fn expected_version_spec(version: Option<Seq<char>>, regex: Seq<char>) -> Result<
    Option<Seq<char>>,
    ToolErrorView,
> {
    if !regex_compiles(regex) {
        Err(ToolErrorView::InvalidRegex { regex })
    } else {
        match version {
            None => Ok(None),
            Some(v) => match regex_captures_group(regex, v, 1) {
                None => Ok(None),
                Some(None) => Err(ToolErrorView::NoVersionCaptured { input: v, regex }),
                Some(Some(s)) => Ok(Some(s)),
            },
        }
    }
}

/// The abstract value of a version result.
pub open spec fn version_result_view(r: Result<Option<String>, ToolError>) -> Result<
    Option<Seq<char>>,
    ToolErrorView,
> {
    match r {
        Ok(v) => Ok(opt_view(v)),
        Err(e) => Err(e@),
    }
}

/// The version expected of a tool declared with `version`: the first group
/// of `version_regex` matched in it. No declared version, or one the
/// pattern does not match, expects nothing.
pub fn expected_version(version: Option<&str>, version_regex: &str) -> (r: Result<
    Option<String>,
    ToolError,
>)
    ensures
        version_result_view(r) == expected_version_spec(
            match version {
                Some(v) => Some(v@),
                None => None,
            },
            version_regex@,
        ),
{
    if !is_valid_regex(version_regex) {
        return Err(ToolError::InvalidRegex { regex: version_regex.to_string() });
    }
    match version {
        None => Ok(None),
        Some(declared) => match captures_group(version_regex, declared, 1) {
            None => Ok(None),
            Some(None) => Err(
                ToolError::NoVersionCaptured {
                    input: declared.to_string(),
                    regex: version_regex.to_string(),
                },
            ),
            Some(Some(s)) => Ok(Some(s)),
        },
    }
}

/// What a tool's version command gave.
#[derive(Debug)]
pub struct VersionCommandOutput {
    /// The command line, as it was run.
    pub script: String,
    pub stdout: String,
    pub stderr: String,
    pub success: bool,
    pub exit_code: i32,
}

/// The version text of a command's output: standard output, a space and
/// standard error, trimmed.
pub open spec fn version_output_text(stdout: Seq<char>, stderr: Seq<char>) -> Seq<char> {
    trim(stdout + " "@ + stderr)
}

/// The installed version of a tool as its version command reports it.
pub open spec fn installed_version_spec(
    name: Seq<char>,
    version_command: Option<Seq<char>>,
    script: Seq<char>,
    stdout: Seq<char>,
    stderr: Seq<char>,
    success: bool,
    exit_code: i32,
    regex: Seq<char>,
) -> Result<Seq<char>, ToolErrorView> {
    let out = version_output_text(stdout, stderr);
    if version_command is None {
        Err(ToolErrorView::NoVersionCommand { name })
    } else if !success {
        Err(ToolErrorView::VersionCommandFailed { name, script, exit_code, output: out })
    } else if !regex_compiles(regex) {
        Err(ToolErrorView::InvalidRegex { regex })
    } else {
        match regex_captures_group(regex, out, 1) {
            None => Err(ToolErrorView::OutputDoesNotMatch { version_command, output: out, regex }),
            Some(None) => Err(ToolErrorView::NoVersionCaptured { input: out, regex }),
            Some(Some(s)) => Ok(s),
        }
    }
}

/// The installed version of the tool `name`, taken from what its version
/// command printed with the first group of `version_regex`. A tool without
/// a version command has no output to read.
pub fn installed_version(
    name: &str,
    version_command: Option<&str>,
    output: Option<&VersionCommandOutput>,
    version_regex: &str,
) -> (r: Result<String, ToolError>)
    requires
        version_command is Some <==> output is Some,
    ensures
        match (r, output) {
            (Ok(v), Some(o)) => installed_version_spec(
                name@,
                Some(version_command->0@),
                o.script@,
                o.stdout@,
                o.stderr@,
                o.success,
                o.exit_code,
                version_regex@,
            ) == Ok::<Seq<char>, ToolErrorView>(v@),
            (Err(e), Some(o)) => installed_version_spec(
                name@,
                Some(version_command->0@),
                o.script@,
                o.stdout@,
                o.stderr@,
                o.success,
                o.exit_code,
                version_regex@,
            ) == Err::<Seq<char>, ToolErrorView>(e@),
            (Err(e), None) => e@ == ToolErrorView::NoVersionCommand { name: name@ },
            (Ok(_), None) => false,
        },
{
    let o = match output {
        None => {
            return Err(ToolError::NoVersionCommand { name: name.to_string() });
        },
        Some(o) => o,
    };
    let mut joined = chars_of(o.stdout.as_str());
    push_str(&mut joined, " ");
    push_str(&mut joined, o.stderr.as_str());
    let trimmed = trim_chars(joined.as_slice());
    let version_string = string_from_chars(trimmed.as_slice());
    if !o.success {
        return Err(
            ToolError::VersionCommandFailed {
                name: name.to_string(),
                script: o.script.clone(),
                exit_code: o.exit_code,
                output: version_string,
            },
        );
    }
    if !is_valid_regex(version_regex) {
        return Err(ToolError::InvalidRegex { regex: version_regex.to_string() });
    }
    match captures_group(version_regex, version_string.as_str(), 1) {
        None => Err(
            ToolError::OutputDoesNotMatch {
                version_command: Some(version_command.unwrap().to_string()),
                output: version_string,
                regex: version_regex.to_string(),
            },
        ),
        Some(None) => Err(
            ToolError::NoVersionCaptured { input: version_string, regex: version_regex.to_string() },
        ),
        Some(Some(s)) => Ok(s),
    }
}

/// The outcome of checking an installed tool against its expected version:
/// a tool without a version command passes without either being looked at.
pub open spec fn validate_spec(
    version_command: Option<Seq<char>>,
    installed: Result<Seq<char>, ToolErrorView>,
    expected: Result<Option<Seq<char>>, ToolErrorView>,
    regex: Seq<char>,
) -> Result<(), ToolErrorView> {
    match version_command {
        None => Ok(()),
        Some(command) => match installed {
            Err(e) => Err(e),
            Ok(i) => match expected {
                Err(e) => Err(e),
                Ok(None) => Ok(()),
                Ok(Some(x)) => if i == x {
                    Ok(())
                } else {
                    Err(
                        ToolErrorView::VersionMismatch {
                            version_command: command,
                            installed: i,
                            expected: x,
                            regex,
                        },
                    )
                },
            },
        },
    }
}

/// With a version command and both versions read, a tool passes exactly
/// when its installed version is the expected one, the very same text:
/// any other installed version, a longer one beginning with the expected
/// one included, is a mismatch that reports the command, both versions
/// and the pattern.
pub proof fn law_validate_compares_whole_versions(
    command: Seq<char>,
    installed: Seq<char>,
    expected: Seq<char>,
    regex: Seq<char>,
)
    ensures
        (validate_spec(Some(command), Ok(installed), Ok(Some(expected)), regex) is Ok) <==> installed
            == expected,
        installed != expected ==> validate_spec(Some(command), Ok(installed), Ok(Some(expected)), regex)
            == Err::<(), ToolErrorView>(
            ToolErrorView::VersionMismatch { version_command: command, installed, expected, regex },
        ),
        validate_spec(Some(command), Ok(installed), Ok(None), regex) is Ok,
        validate_spec(None, Ok(installed), Ok(Some(expected)), regex) is Ok,
{
}

/// Checks a tool: one without a version command passes; for one with a
/// version command the installed version must be the expected one, when
/// one is expected. Errors in establishing either version come back as
/// they are, the installed version's first.
pub fn validate(
    version_command: Option<&str>,
    installed: Result<String, ToolError>,
    expected: Result<Option<String>, ToolError>,
    version_regex: &str,
) -> (r: Result<(), ToolError>)
    ensures
        version_command is None ==> r is Ok,
        (version_command is Some && installed is Ok && expected is Ok && expected->Ok_0 is Some) ==> (r
            is Ok <==> installed->Ok_0@ == expected->Ok_0->0@),
        match r {
            Ok(()) => validate_spec(
                match version_command {
                    Some(c) => Some(c@),
                    None => None,
                },
                match installed {
                    Ok(i) => Ok(i@),
                    Err(e) => Err(e@),
                },
                version_result_view(expected),
                version_regex@,
            ) == Ok::<(), ToolErrorView>(()),
            Err(e) => validate_spec(
                match version_command {
                    Some(c) => Some(c@),
                    None => None,
                },
                match installed {
                    Ok(i) => Ok(i@),
                    Err(e) => Err(e@),
                },
                version_result_view(expected),
                version_regex@,
            ) == Err::<(), ToolErrorView>(e@),
        },
{
    let command = match version_command {
        None => {
            return Ok(());
        },
        Some(c) => c,
    };
    let installed_version = match installed {
        Err(e) => {
            return Err(e);
        },
        Ok(i) => i,
    };
    match expected {
        Err(e) => Err(e),
        Ok(None) => Ok(()),
        Ok(Some(expected_version)) => {
            let a = chars_of(installed_version.as_str());
            let b = chars_of(expected_version.as_str());
            if crate::text::chars_equal(a.as_slice(), b.as_slice()) {
                Ok(())
            } else {
                Err(
                    ToolError::VersionMismatch {
                        version_command: command.to_string(),
                        installed: installed_version,
                        expected: expected_version,
                        regex: version_regex.to_string(),
                    },
                )
            }
        },
    }
}

/// The number of failed installation attempts after which installing gives
/// up, counting from `attempts` failures so far.
pub open spec fn failures_until_giving_up(attempts: nat, max_attempts: nat) -> nat
    decreases max_attempts - attempts,
{
    if attempts + 1 >= max_attempts {
        attempts + 1
    } else {
        failures_until_giving_up(attempts + 1, max_attempts)
    }
}

/// After a failed installation attempt, with `attempts` failures before it:
/// the count of failures, and whether to try again. Installation tries
/// again while fewer than `max_attempts` attempts have failed.
pub fn after_failed_install(attempts: u32, max_attempts: u32) -> (r: (u32, bool))
    requires
        attempts == 0 || attempts < max_attempts,
    ensures
        r.0 == attempts + 1,
        r.1 == (attempts + 1 < max_attempts),
{
    let failed = attempts + 1;
    (failed, failed < max_attempts)
}

/// An installation is tried at least once, and `max_attempts` times when
/// that is more: it gives up after exactly that many failures.
pub proof fn law_install_attempts(max_attempts: u32)
    ensures
        failures_until_giving_up(0, max_attempts as nat) == if max_attempts == 0 {
            1
        } else {
            max_attempts as nat
        },
{
    lemma_failures_until_giving_up(0, max_attempts as nat);
}

proof fn lemma_failures_until_giving_up(attempts: nat, max_attempts: nat)
    requires
        attempts == 0 || attempts < max_attempts,
    ensures
        failures_until_giving_up(attempts, max_attempts) == if max_attempts <= attempts + 1 {
            attempts + 1
        } else {
            max_attempts
        },
    decreases max_attempts - attempts,
{
    if attempts + 1 < max_attempts {
        lemma_failures_until_giving_up(attempts + 1, max_attempts);
    }
}

/// At most this many lines of an install log go to the tool's log.
pub const BUILD_LOG_LINES_LIMIT: usize = 50;

/// At most this many lines of an install log are shown to the user.
pub const STDERR_LOG_LINES_LIMIT: usize = 20;

/// What stands for an install log that could not be read.
pub const UNREADABLE_LOG: &'static str = "<failed to read log file>";

/// The excerpts of an install log reported when a setup fails: its last
/// lines for the tool's log and its last lines for the user.
pub open spec fn install_log_excerpts_spec(contents: Option<Seq<char>>) -> (Seq<char>, Seq<char>) {
    match contents {
        Some(c) => (
            last_lines(lines(c), BUILD_LOG_LINES_LIMIT as nat),
            last_lines(lines(c), STDERR_LOG_LINES_LIMIT as nat),
        ),
        None => (UNREADABLE_LOG@, UNREADABLE_LOG@),
    }
}

/// The excerpts of the install log with contents `contents` (`None` when
/// it could not be read): the last 50 lines, and the last 20 lines.
pub fn install_log_excerpts(contents: Option<&str>) -> (r: (String, String))
    ensures
        (r.0@, r.1@) == install_log_excerpts_spec(
            match contents {
                Some(c) => Some(c@),
                None => None,
            },
        ),
{
    match contents {
        Some(c) => {
            let cs = chars_of(c);
            let ls = lines_of(cs.as_slice());
            proof {
                assert(ls@.map_values(|v: Vec<char>| v@) =~= lines(c@));
            }
            let build = last_lines_joined(ls.as_slice(), BUILD_LOG_LINES_LIMIT);
            let stderr = last_lines_joined(ls.as_slice(), STDERR_LOG_LINES_LIMIT);
            (string_from_chars(build.as_slice()), string_from_chars(stderr.as_slice()))
        },
        None => (UNREADABLE_LOG.to_string(), UNREADABLE_LOG.to_string()),
    }
}

/// The lines of `log`, each indented by four spaces, joined by newlines.
pub open spec fn indented_log_text(log: Seq<char>) -> Seq<char> {
    join(lines(log).map_values(|l: Seq<char>| "    "@ + l), "\n"@)
}

/// The install log as it is shown to the user: each line indented.
pub fn indented_install_log(log: &str) -> (r: String)
    ensures
        r@ == indented_log_text(log@),
{
    let cs = chars_of(log);
    let ls = lines_of(cs.as_slice());
    let ghost all = lines(log@);
    let mut indented: Vec<Vec<char>> = Vec::new();
    let mut i: usize = 0;
    while i < ls.len()
        invariant
            i <= ls@.len(),
            ls@.len() == all.len(),
            forall|k: int| 0 <= k < ls@.len() ==> #[trigger] ls@[k]@ == all[k],
            indented@.len() == i,
            forall|k: int| 0 <= k < i ==> #[trigger] indented@[k]@ == "    "@ + all[k],
        decreases ls@.len() - i,
    {
        let mut line = chars_of("    ");
        append_chars(&mut line, ls[i].as_slice());
        indented.push(line);
        i = i + 1;
    }
    let sep = chars_of("\n");
    let joined = crate::text::join_chars(indented.as_slice(), sep.as_slice());
    proof {
        assert(indented@.map_values(|v: Vec<char>| v@) =~= all.map_values(
            |l: Seq<char>| "    "@ + l,
        ));
    }
    string_from_chars(joined.as_slice())
}

/// The message of the error given when the lock on a tool's installation
/// command cannot be taken.
pub fn lock_error() -> (r: String)
    ensures
        r@ == "Failed to acquire lock for tool installation"@,
{
    "Failed to acquire lock for tool installation".to_string()
}

/// What setting up a tool does next.
pub enum SetupAction {
    /// The tool is installed already: there is nothing to do.
    Done,
    /// Install and validate the tool.
    Install,
    /// The installation succeeded: write the file that marks it done.
    WriteDoneFile,
    /// The installation failed: its error is reported under this context.
    Fail(String),
}

/// The next step of setting up the tool `name` at `version`, once its lock
/// is held: nothing when it is installed already; otherwise install it,
/// unless that was done (`install`), in which case mark it done when it
/// succeeded, or fail under the context of `setup_error_context` with the
/// install log `log_path` when it failed.
pub fn setup_step(
    already_installed: bool,
    install: Option<Result<(), String>>,
    name: &str,
    version: Option<&str>,
    log_path: Option<&str>,
) -> (r: SetupAction)
    ensures
        already_installed ==> r is Done,
        !already_installed && install is None ==> r is Install,
        (!already_installed && install == Some(Ok::<(), String>(()))) ==> r is WriteDoneFile,
        (!already_installed && install is Some && install->0 is Err) ==> (r matches SetupAction::Fail(ctx)
            && ctx@ == setup_error_context_text(
            name@,
            match version {
                Some(v) => Some(v@),
                None => None,
            },
            match log_path {
                Some(p) => Some(p@),
                None => None,
            },
        )),
{
    if already_installed {
        return SetupAction::Done;
    }
    match install {
        None => SetupAction::Install,
        Some(Ok(())) => SetupAction::WriteDoneFile,
        Some(Err(_)) => SetupAction::Fail(setup_error_context(name, version, log_path)),
    }
}

/// The context a failed setup is reported under: the tool and version,
/// and where its install log is when there is one.
pub open spec fn setup_error_context_text(
    name: Seq<char>,
    version: Option<Seq<char>>,
    log_path: Option<Seq<char>>,
) -> Seq<char> {
    let v = match version {
        Some(x) => x,
        None => seq![],
    };
    match log_path {
        Some(p) => "Error installing "@ + name + "@"@ + v + ".\n\n    See more: "@ + p,
        None => "Error installing "@ + name + "@"@ + v + ".\n"@,
    }
}

/// The context a failed setup of `name` at `version` is reported under;
/// `log_path` is the install log when it exists.
pub fn setup_error_context(name: &str, version: Option<&str>, log_path: Option<&str>) -> (r: String)
    ensures
        r@ == setup_error_context_text(
            name@,
            match version {
                Some(v) => Some(v@),
                None => None,
            },
            match log_path {
                Some(p) => Some(p@),
                None => None,
            },
        ),
{
    let mut out = chars_of("Error installing ");
    push_str(&mut out, name);
    push_str(&mut out, "@");
    match version {
        Some(v) => push_str(&mut out, v),
        None => {},
    }
    match log_path {
        Some(p) => {
            push_str(&mut out, ".\n\n    See more: ");
            push_str(&mut out, p);
        },
        None => push_str(&mut out, ".\n"),
    }
    string_from_chars(out.as_slice())
}

/// What the variables of a plugin setting stand for: the environment
/// (pairs of a name and a value), the tool's directory, the plugin cache
/// directory and, for a tool with a runtime, the runtime's directory.
pub struct Interpolation {
    pub env: Vec<(String, String)>,
    pub linter: String,
    pub cachedir: String,
    pub runtime: Option<String>,
}

impl Interpolation {
    /// `value` with its variables replaced: `${env.NAME}` by the variable
    /// of the environment, then `${linter}`, `${cachedir}` and, with a
    /// runtime, `${runtime}` by their directories.
    pub open spec fn interpolated(self, value: Seq<char>) -> Seq<char> {
        let a = env_references_replaced(value, pairs_view(self.env@));
        let b = replaced(a, "${linter}"@, self.linter@);
        let c = replaced(b, "${cachedir}"@, self.cachedir@);
        match self.runtime {
            Some(r) => replaced(c, "${runtime}"@, r@),
            None => c,
        }
    }

    /// `value` with its variables replaced.
    pub fn interpolate_variables(&self, value: &str) -> (r: String)
        ensures
            r@ == self.interpolated(value@),
    {
        proof {
            reveal_strlit("${linter}");
            reveal_strlit("${cachedir}");
            reveal_strlit("${runtime}");
        }
        let a = replace_env_references(value, self.env.as_slice());
        let b = replace_str(a.as_str(), "${linter}", self.linter.as_str());
        let c = replace_str(b.as_str(), "${cachedir}", self.cachedir.as_str());
        match &self.runtime {
            Some(r) => replace_str(c.as_str(), "${runtime}", r.as_str()),
            None => c,
        }
    }
}

/// An environment variable a plugin sets: a value, or for `PATH` a list of
/// directories as well.
#[derive(Debug, Clone)]
pub struct PluginEnvironment {
    pub name: String,
    pub list: Vec<String>,
    pub value: String,
}

/// The map that name and value pairs stand for, later pairs winning.
pub open spec fn pairs_map(p: Seq<(String, String)>) -> Map<Seq<char>, Seq<char>>
    decreases p.len(),
{
    if p.len() == 0 {
        Map::empty()
    } else {
        pairs_map(p.drop_last()).insert(p.last().0@, p.last().1@)
    }
}

/// Whether no two pairs have the same name.
pub open spec fn distinct_names(p: Seq<(String, String)>) -> bool {
    forall|i: int, j: int| 0 <= i < j < p.len() ==> p[i].0@ != p[j].0@
}

/// The variables a plugin's environment sets, besides `PATH`: each value
/// interpolated and trimmed, blank ones left out, later settings winning.
pub open spec fn environment_vars(ctx: Interpolation, envs: Seq<PluginEnvironment>) -> Map<
    Seq<char>,
    Seq<char>,
>
    decreases envs.len(),
{
    if envs.len() == 0 {
        Map::empty()
    } else {
        let m = environment_vars(ctx, envs.drop_last());
        let e = envs.last();
        let v = trim(ctx.interpolated(e.value@));
        if e.name@ == "PATH"@ || v.len() == 0 {
            m
        } else {
            m.insert(e.name@, v)
        }
    }
}

proof fn lemma_pairs_map_update(p: Seq<(String, String)>, j: int, v: String)
    requires
        distinct_names(p),
        0 <= j < p.len(),
    ensures
        pairs_map(p.update(j, (p[j].0, v))) == pairs_map(p).insert(p[j].0@, v@),
    decreases p.len(),
{
    let q = p.update(j, (p[j].0, v));
    if j == p.len() - 1 {
        assert(q.drop_last() == p.drop_last());
        assert(pairs_map(q) =~= pairs_map(p).insert(p[j].0@, v@));
    } else {
        assert(q.drop_last() == p.drop_last().update(j, (p[j].0, v)));
        lemma_pairs_map_update(p.drop_last(), j, v);
        assert(p.last().0@ != p[j].0@);
        assert(pairs_map(q) =~= pairs_map(p).insert(p[j].0@, v@));
    }
}

/// Sets `name` to `value` in the pairs `env`, in place when it is there.
pub(crate) fn set_pair(env: &mut Vec<(String, String)>, name: String, value: String)
    requires
        distinct_names(old(env)@),
    ensures
        distinct_names(final(env)@),
        pairs_map(final(env)@) == pairs_map(old(env)@).insert(name@, value@),
{
    let mut i: usize = 0;
    while i < env.len()
        invariant
            i <= env@.len(),
            env@ == old(env)@,
            distinct_names(env@),
            forall|k: int| 0 <= k < i ==> env@[k].0@ != name@,
        decreases env@.len() - i,
    {
        if str_eq(env[i].0.as_str(), name.as_str()) {
            let ghost before = env@;
            let n = env[i].0.clone();
            env.set(i, (n, value));
            proof {
                assert(env@ == before.update(i as int, (before[i as int].0, value)));
                lemma_pairs_map_update(before, i as int, value);
                assert(distinct_names(env@)) by {
                    assert forall|a: int, b: int| 0 <= a < b < env@.len() implies env@[a].0@
                        != env@[b].0@ by {
                        assert(env@[a].0@ == before[a].0@ && env@[b].0@ == before[b].0@);
                    }
                }
            }
            return;
        }
        i = i + 1;
    }
    let ghost before = env@;
    env.push((name, value));
    assert(env@.drop_last() == before);
    assert(distinct_names(env@)) by {
        assert forall|a: int, b: int| 0 <= a < b < env@.len() implies env@[a].0@ != env@[b].0@ by {
            if b == env@.len() - 1 {
                assert(env@[a] == before[a]);
            } else {
                assert(env@[a] == before[a] && env@[b] == before[b]);
            }
        }
    }
}

/// The variables the plugin environment `envs` sets besides `PATH`, as
/// pairs with distinct names.
pub fn load_environment_vars(ctx: &Interpolation, envs: &[PluginEnvironment]) -> (r: Vec<
    (String, String),
>)
    ensures
        distinct_names(r@),
        pairs_map(r@) == environment_vars(*ctx, envs@),
{
    proof {
        reveal_strlit("PATH");
    }
    let mut env: Vec<(String, String)> = Vec::new();
    let mut i: usize = 0;
    while i < envs.len()
        invariant
            i <= envs@.len(),
            distinct_names(env@),
            pairs_map(env@) == environment_vars(*ctx, envs@.take(i as int)),
        decreases envs@.len() - i,
    {
        assert(envs@.take(i + 1).drop_last() == envs@.take(i as int));
        let e = &envs[i];
        if !str_eq(e.name.as_str(), "PATH") {
            let value = ctx.interpolate_variables(e.value.as_str());
            let cs = chars_of(value.as_str());
            let t = trim_chars(cs.as_slice());
            if t.len() > 0 {
                set_pair(&mut env, e.name.clone(), string_from_chars(t.as_slice()));
            }
        }
        i = i + 1;
    }
    assert(envs@.take(envs@.len() as int) == envs@);
    env
}

/// A package a plugin installs besides its own.
#[derive(Debug, Clone)]
pub struct ExtraPackage {
    pub name: String,
    pub version: String,
}

/// How a plugin is installed and checked: its package and version, the
/// command and pattern its version is checked with, a package file to
/// install its dependencies from (with filters narrowing them), extra
/// packages, and the environment it runs in.
#[derive(Debug)]
pub struct PluginDef {
    pub package: Option<String>,
    pub version: Option<String>,
    pub version_command: Option<String>,
    pub version_regex: String,
    pub package_file: Option<String>,
    pub package_filters: Vec<String>,
    pub extra_packages: Vec<ExtraPackage>,
    pub environment: Vec<PluginEnvironment>,
}

/// One step of installing a plugin's packages.
#[derive(Debug)]
pub enum InstallStep {
    /// Install a package at a version.
    Package { name: String, version: String },
    /// Install the dependencies of the plugin's package file.
    PackageFile,
}

/// Whether `s` is the step installing `name` at `version`.
pub open spec fn is_package_step(s: InstallStep, name: Seq<char>, version: Seq<char>) -> bool {
    s matches InstallStep::Package { name: n, version: v } && n@ == name && v@ == version
}

impl PluginDef {
    /// The command a package's version is checked with: none when it is
    /// installed from a package file.
    pub fn package_version_command(&self) -> (r: Option<String>)
        ensures
            self.package_file is Some ==> r is None,
            self.package_file is None ==> opt_view(r) == opt_view(self.version_command),
    {
        match &self.package_file {
            Some(_) => None,
            None => match &self.version_command {
                Some(c) => Some(c.clone()),
                None => None,
            },
        }
    }

    /// The steps that install the plugin: its package at its version, then
    /// its package file when it has one, else its extra packages in order.
    pub fn install_steps(&self) -> (r: Vec<InstallStep>)
        requires
            self.package is Some,
            self.version is Some,
        ensures
            r@.len() >= 1,
            is_package_step(r@[0], self.package->0@, self.version->0@),
            self.package_file is Some ==> r@.len() == 2 && r@[1] is PackageFile,
            self.package_file is None ==> r@.len() == 1 + self.extra_packages@.len() && forall|k: int|
                0 <= k < self.extra_packages@.len() ==> is_package_step(
                    #[trigger] r@[k + 1],
                    self.extra_packages@[k].name@,
                    self.extra_packages@[k].version@,
                ),
    {
        let mut steps: Vec<InstallStep> = Vec::new();
        let name = match &self.package {
            Some(p) => p.clone(),
            None => String::new(),
        };
        let version = match &self.version {
            Some(v) => v.clone(),
            None => String::new(),
        };
        steps.push(InstallStep::Package { name, version });
        if self.package_file.is_some() {
            steps.push(InstallStep::PackageFile);
        } else {
            let mut k: usize = 0;
            while k < self.extra_packages.len()
                invariant
                    k <= self.extra_packages@.len(),
                    steps@.len() == 1 + k,
                    is_package_step(steps@[0], self.package->0@, self.version->0@),
                    forall|j: int|
                        0 <= j < k ==> is_package_step(
                            #[trigger] steps@[j + 1],
                            self.extra_packages@[j].name@,
                            self.extra_packages@[j].version@,
                        ),
                decreases self.extra_packages@.len() - k,
            {
                let p = &self.extra_packages[k];
                let ghost before = steps@;
                steps.push(InstallStep::Package { name: p.name.clone(), version: p.version.clone() });
                proof {
                    assert forall|j: int|
                        0 <= j < k + 1 implies is_package_step(
                            #[trigger] steps@[j + 1],
                            self.extra_packages@[j].name@,
                            self.extra_packages@[j].version@,
                        ) by {
                        if j < k {
                            assert(steps@[j + 1] == before[j + 1]);
                        }
                    }
                }
                k = k + 1;
            }
        }
        steps
    }
}

/// The error of a tool without a plugin to install from.
pub open spec fn missing_plugin_text(name: Seq<char>) -> Seq<char> {
    "Failed to install "@ + debug_text(name) + ": missing plugin"@
}

/// The error of installing the tool `name`, which has no plugin.
pub fn missing_plugin_error(name: &str) -> (r: String)
    ensures
        r@ == missing_plugin_text(name@),
{
    let mut out = chars_of("Failed to install ");
    push_str(&mut out, debug_str(name).as_str());
    push_str(&mut out, ": missing plugin");
    string_from_chars(out.as_slice())
}

} // verus!
