//! Carrying out the staging of configuration files: which step each
//! staging operation takes, where a fetched file is downloaded to, and what
//! a finished operation reports.

use crate::paths::{path_components, path_components_of};
use crate::planner::config_files::{ConfigCopyMode, PluginFetch};
use crate::text::{
    append_chars, chars_of, debug_str, debug_text, decimal_digits, push_str, string_from_chars,
    str_eq, u64_to_decimal,
};
use vstd::prelude::*;

verus! {

/// What a staging operation does with its file.
#[derive(Debug, Clone, Copy, PartialEq, Eq, Structural)]
pub enum ConfigOperationType {
    CopyToStagingArea,
    CopyToWorkspaceRoot,
    LoadFromQltyDir,
    CopyToToolInstall,
    FetchFile,
}

/// A staging operation: its kind, and the paths it reads and writes.
#[derive(Debug)]
pub struct ConfigStagingOperation {
    pub operation_type: ConfigOperationType,
    pub source_path: String,
    pub destination_path: String,
}

/// The files that the plugin of an invocation fetches.
#[derive(Debug)]
pub struct PluginFetches {
    pub plugin_name: String,
    pub fetch: Vec<PluginFetch>,
}

/// The step that carries out a staging operation.
#[derive(Debug)]
pub enum ConfigStagingStep {
    /// Load `source` from the repository into `directory`.
    LoadFromRepository { source: String, directory: String },
    /// Load `source` from the plugin sources into `directory`.
    LoadFromSource { source: String, directory: String },
    /// Load the file `name` of the project's settings into `directory`.
    LoadFromQltyDir { name: String, directory: String },
    /// Create `tool_directory` when missing, then copy `source` to
    /// `destination`.
    CopyToToolInstall { tool_directory: String, source: String, destination: String },
    /// Download `url` for `plugin_name` to `path` under each of
    /// `directories`; the file then stands at `destination`.
    Fetch {
        plugin_name: String,
        url: String,
        path: String,
        directories: Vec<String>,
        destination: String,
    },
}

/// The parent of the path `p` as `std::path::Path::parent` gives it.
pub uninterp spec fn path_parent_of(p: Seq<char>) -> Option<Seq<char>>;

/// Trusted: `std::path::Path::parent` of `p`, named as a function of `p`.
#[verifier::external_body]
fn path_parent(p: &str) -> (r: Option<String>)
    ensures
        match r {
            Some(s) => path_parent_of(p@) == Some(s@),
            None => path_parent_of(p@) is None,
        },
{
    std::path::Path::new(p).parent().map(|q| q.to_string_lossy().to_string())
}

/// The ancestor `n` levels above the path `p`, when there is one.
pub open spec fn ancestor(p: Seq<char>, n: nat) -> Option<Seq<char>>
    decreases n,
{
    if n == 0 {
        Some(p)
    } else {
        match ancestor(p, (n - 1) as nat) {
            Some(a) => path_parent_of(a),
            None => None,
        }
    }
}

/// The first of `fetch` that downloads to `path`.
pub open spec fn first_fetch_to(fetch: Seq<PluginFetch>, path: Seq<char>) -> Option<PluginFetch>
    decreases fetch.len(),
{
    if fetch.len() == 0 {
        None
    } else if fetch[0].path@ == path {
        Some(fetch[0])
    } else {
        first_fetch_to(fetch.drop_first(), path)
    }
}

/// The first fetch that downloads to `path`, plugin after plugin, with the
/// name of its plugin.
pub open spec fn find_fetch(fetches: Seq<PluginFetches>, path: Seq<char>) -> Option<(Seq<char>, PluginFetch)>
    decreases fetches.len(),
{
    if fetches.len() == 0 {
        None
    } else {
        match first_fetch_to(fetches[0].fetch@, path) {
            Some(f) => Some((fetches[0].plugin_name@, f)),
            None => find_fetch(fetches.drop_first(), path),
        }
    }
}

/// The message when no fetch downloads to `path`.
pub open spec fn fetch_not_found_text(path: Seq<char>) -> Seq<char> {
    "Fetch configuration not found for path: "@ + debug_text(path)
}

/// The message when a fetch destination has no parent.
pub open spec fn missing_parent_text() -> Seq<char> {
    "Fetch destination missing parent directory"@
}

/// The message when the destination directory `dir` has fewer ancestors
/// than the fetch path's directory `relative` has components.
pub open spec fn lacks_ancestors_text(dir: Seq<char>, relative: Seq<char>) -> Seq<char> {
    "Destination path "@ + dir + " lacks ancestors for fetch path "@ + relative
}

/// The directories to download the fetch `path` to, so that it lands in
/// `dest_parent`: the ancestor of `dest_parent` as many levels up as the
/// fetch path's own directory is deep.
pub open spec fn fetch_directories(dest_parent: Seq<char>, path: Seq<char>) -> Result<Seq<char>, Seq<char>> {
    match path_parent_of(path) {
        None => Ok(dest_parent),
        Some(relative) => match ancestor(dest_parent, path_components_of(relative).len()) {
            Some(root) => Ok(root),
            None => Err(lacks_ancestors_text(dest_parent, relative)),
        },
    }
}

/// Whether `step` loads `source` into the directory `directory` in the
/// way `kind` asks.
pub open spec fn is_load_step(
    step: ConfigStagingStep,
    kind: ConfigOperationType,
    source: Seq<char>,
    directory: Seq<char>,
) -> bool {
    match kind {
        ConfigOperationType::CopyToStagingArea => step matches ConfigStagingStep::LoadFromRepository {
            source: s,
            directory: d,
        } && s@ == source && d@ == directory,
        ConfigOperationType::CopyToWorkspaceRoot => step matches ConfigStagingStep::LoadFromSource {
            source: s,
            directory: d,
        } && s@ == source && d@ == directory,
        ConfigOperationType::LoadFromQltyDir => step matches ConfigStagingStep::LoadFromQltyDir {
            name: s,
            directory: d,
        } && s@ == source && d@ == directory,
        _ => false,
    }
}

/// Whether `step` downloads the fetch `f` of `plugin` into `directory`,
/// landing at `destination`.
pub open spec fn is_fetch_step(
    step: ConfigStagingStep,
    plugin: Seq<char>,
    f: PluginFetch,
    directory: Seq<char>,
    destination: Seq<char>,
) -> bool {
    step matches ConfigStagingStep::Fetch { plugin_name, url, path, directories, destination: d }
        && plugin_name@ == plugin && url@ == f.url@ && path@ == f.path@ && directories@.len() == 1
        && directories@[0]@ == directory && d@ == destination
}

/// Whether the step of operation `op` can be planned without a panic: all
/// but fetches need the destination's parent directory.
pub open spec fn step_plannable(op: ConfigStagingOperation) -> bool {
    op.operation_type == ConfigOperationType::FetchFile || path_parent_of(op.destination_path@) is Some
}

/// Whether `r` is the outcome of planning `op` against the fetches of the
/// plan's invocations.
pub open spec fn planned_step(
    op: ConfigStagingOperation,
    fetches: Seq<PluginFetches>,
    r: Result<ConfigStagingStep, String>,
) -> bool {
    let dest = op.destination_path@;
    match op.operation_type {
        ConfigOperationType::CopyToToolInstall => r matches Ok(
            ConfigStagingStep::CopyToToolInstall { tool_directory, source, destination },
        ) && Some(tool_directory@) == path_parent_of(dest) && source@ == op.source_path@
            && destination@ == dest,
        ConfigOperationType::FetchFile => match find_fetch(fetches, op.source_path@) {
            None => r matches Err(e) && e@ == fetch_not_found_text(op.source_path@),
            Some((plugin, f)) => match path_parent_of(dest) {
                None => r matches Err(e) && e@ == missing_parent_text(),
                Some(dp) => match fetch_directories(dp, f.path@) {
                    Ok(dir) => r matches Ok(step) && is_fetch_step(step, plugin, f, dir, dest),
                    Err(m) => r matches Err(e) && e@ == m,
                },
            },
        },
        _ => r matches Ok(step) && Some(path_parent_of(dest)->0) == path_parent_of(dest)
            && is_load_step(step, op.operation_type, op.source_path@, path_parent_of(dest)->0),
    }
}

/// Copies a fetch.
fn copy_fetch(f: &PluginFetch) -> (r: PluginFetch)
    ensures
        r.url@ == f.url@,
        r.path@ == f.path@,
{
    PluginFetch { url: f.url.clone(), path: f.path.clone() }
}

/// The position of the first of `list` that downloads to `path`.
fn first_fetch_index(list: &[PluginFetch], path: &str) -> (r: Option<usize>)
    ensures
        match first_fetch_to(list@, path@) {
            None => r is None,
            Some(f) => r matches Some(k) && k < list@.len() && list@[k as int] == f,
        },
{
    let m = list.len();
    let mut j: usize = 0;
    assert(list@.subrange(0, m as int) =~= list@);
    while j < m
        invariant
            j <= m,
            m == list@.len(),
            first_fetch_to(list@, path@) == first_fetch_to(list@.subrange(j as int, m as int), path@),
        decreases m - j,
    {
        let ghost tail = list@.subrange(j as int, m as int);
        assert(tail.drop_first() =~= list@.subrange(j + 1, m as int));
        assert(tail[0] == list@[j as int]);
        if str_eq(list[j].path.as_str(), path) {
            return Some(j);
        }
        j = j + 1;
    }
    None
}

/// The first fetch of the plan's invocations that downloads to `path`,
/// with the name of its plugin.
fn lookup_fetch(fetches: &[PluginFetches], path: &str) -> (r: Option<(String, PluginFetch)>)
    ensures
        match find_fetch(fetches@, path@) {
            None => r is None,
            Some((plugin, f)) => r matches Some((p, g)) && p@ == plugin && g.url@ == f.url@ && g.path@
                == f.path@,
        },
{
    let n = fetches.len();
    let mut i: usize = 0;
    assert(fetches@.subrange(0, n as int) =~= fetches@);
    while i < n
        invariant
            i <= n,
            n == fetches@.len(),
            find_fetch(fetches@, path@) == find_fetch(fetches@.subrange(i as int, n as int), path@),
        decreases n - i,
    {
        let ghost rest = fetches@.subrange(i as int, n as int);
        assert(rest.drop_first() =~= fetches@.subrange(i + 1, n as int));
        assert(rest[0] == fetches@[i as int]);
        match first_fetch_index(fetches[i].fetch.as_slice(), path) {
            Some(k) => {
                return Some((fetches[i].plugin_name.clone(), copy_fetch(&fetches[i].fetch[k])));
            },
            None => {},
        }
        i = i + 1;
    }
    None
}

/// The ancestor `n` levels above `p`, when there is one.
fn ancestor_of(p: &str, n: usize) -> (r: Option<String>)
    ensures
        match ancestor(p@, n as nat) {
            Some(a) => r matches Some(s) && s@ == a,
            None => r is None,
        },
{
    let mut current = string_from_chars(chars_of(p).as_slice());
    let mut k: usize = 0;
    while k < n
        invariant
            k <= n,
            ancestor(p@, k as nat) == Some(current@),
        decreases n - k,
    {
        match path_parent(current.as_str()) {
            Some(parent) => {
                current = parent;
            },
            None => {
                assert(ancestor(p@, (k + 1) as nat) is None);
                assert forall|m: nat| k + 1 <= m implies #[trigger] ancestor(p@, m) is None by {
                    lemma_no_ancestor_above(p@, (k + 1) as nat, m);
                }
                return None;
            },
        }
        k = k + 1;
    }
    Some(current)
}

/// Once a path has no ancestor at some height, it has none higher up.
proof fn lemma_no_ancestor_above(p: Seq<char>, k: nat, m: nat)
    requires
        ancestor(p, k) is None,
        k <= m,
    ensures
        ancestor(p, m) is None,
    decreases m - k,
{
    if k < m {
        lemma_no_ancestor_above(p, k, (m - 1) as nat);
    }
}

/// The directory to download the fetch `path` to, for a destination
/// directory `dest_parent`.
pub fn fetch_directory(dest_parent: &str, path: &str) -> (r: Result<String, String>)
    ensures
        match fetch_directories(dest_parent@, path@) {
            Ok(d) => r matches Ok(s) && s@ == d,
            Err(m) => r matches Err(e) && e@ == m,
        },
{
    match path_parent(path) {
        None => Ok(string_from_chars(chars_of(dest_parent).as_slice())),
        Some(relative) => {
            let depth = path_components(relative.as_str()).len();
            match ancestor_of(dest_parent, depth) {
                Some(root) => Ok(root),
                None => {
                    let mut out: Vec<char> = Vec::new();
                    push_str(&mut out, "Destination path ");
                    push_str(&mut out, dest_parent);
                    push_str(&mut out, " lacks ancestors for fetch path ");
                    push_str(&mut out, relative.as_str());
                    proof {
                        reveal_strlit("Destination path ");
                        reveal_strlit(" lacks ancestors for fetch path ");
                    }
                    Err(string_from_chars(out.as_slice()))
                },
            }
        },
    }
}

/// The step that carries out `op`, whose destination has a parent unless
/// it is a fetch: loads and copies go to the destination's directory; a
/// fetch is looked up among the invocations' fetches by its path, and is
/// downloaded to the ancestor of the destination's directory that the
/// fetch path's own directory leads back to.
pub fn plan_config_operation(op: &ConfigStagingOperation, fetches: &[PluginFetches]) -> (r: Result<
    ConfigStagingStep,
    String,
>)
    requires
        step_plannable(*op),
    ensures
        planned_step(*op, fetches@, r),
{
    match op.operation_type {
        ConfigOperationType::FetchFile => {
            match lookup_fetch(fetches, op.source_path.as_str()) {
                None => {
                    let mut out: Vec<char> = Vec::new();
                    push_str(&mut out, "Fetch configuration not found for path: ");
                    let shown = debug_str(op.source_path.as_str());
                    push_str(&mut out, shown.as_str());
                    proof {
                        reveal_strlit("Fetch configuration not found for path: ");
                    }
                    Err(string_from_chars(out.as_slice()))
                },
                Some((plugin_name, f)) => {
                    match path_parent(op.destination_path.as_str()) {
                        None => {
                            let r = "Fetch destination missing parent directory".to_string();
                            Err(r)
                        },
                        Some(dest_parent) => {
                            match fetch_directory(dest_parent.as_str(), f.path.as_str()) {
                                Ok(dir) => {
                                    let mut directories: Vec<String> = Vec::new();
                                    directories.push(dir);
                                    Ok(
                                        ConfigStagingStep::Fetch {
                                            plugin_name,
                                            url: f.url,
                                            path: f.path,
                                            directories,
                                            destination: op.destination_path.clone(),
                                        },
                                    )
                                },
                                Err(e) => Err(e),
                            }
                        },
                    }
                },
            }
        },
        _ => {
            let directory = match path_parent(op.destination_path.as_str()) {
                Some(d) => d,
                None => {
                    return Err(String::new());
                },
            };
            let source = op.source_path.clone();
            match op.operation_type {
                ConfigOperationType::CopyToStagingArea => Ok(
                    ConfigStagingStep::LoadFromRepository { source, directory },
                ),
                ConfigOperationType::CopyToWorkspaceRoot => Ok(
                    ConfigStagingStep::LoadFromSource { source, directory },
                ),
                ConfigOperationType::LoadFromQltyDir => Ok(
                    ConfigStagingStep::LoadFromQltyDir { name: source, directory },
                ),
                _ => Ok(
                    ConfigStagingStep::CopyToToolInstall {
                        tool_directory: directory,
                        source,
                        destination: op.destination_path.clone(),
                    },
                ),
            }
        },
    }
}

/// The step that carries out `op`, or `None` when `op` is not a fetch and
/// its destination has no parent directory.
pub fn config_operation_step(op: &ConfigStagingOperation, fetches: &[PluginFetches]) -> (r: Option<
    Result<ConfigStagingStep, String>,
>)
    ensures
        match r {
            None => !step_plannable(*op),
            Some(s) => step_plannable(*op) && planned_step(*op, fetches@, s),
        },
{
    if op.operation_type != ConfigOperationType::FetchFile {
        if path_parent(op.destination_path.as_str()).is_none() {
            return None;
        }
    }
    Some(plan_config_operation(op, fetches))
}

/// What a finished step reports: the file a load produced, unless it is
/// empty, or the destination a copy or a download wrote.
pub fn config_operation_outcome(step: &ConfigStagingStep, loaded: String) -> (r: Option<String>)
    ensures
        match step {
            ConfigStagingStep::CopyToToolInstall { destination, .. } => r matches Some(s) && s@
                == destination@,
            ConfigStagingStep::Fetch { destination, .. } => r matches Some(s) && s@ == destination@,
            _ => if loaded@.len() == 0 {
                r is None
            } else {
                r matches Some(s) && s@ == loaded@
            },
        },
{
    match step {
        ConfigStagingStep::CopyToToolInstall { destination, .. } => Some(destination.clone()),
        ConfigStagingStep::Fetch { destination, .. } => Some(destination.clone()),
        _ => {
            if loaded.as_str().is_empty() {
                None
            } else {
                Some(loaded)
            }
        },
    }
}

/// What staging a file does, given whether its source and its destination
/// exist.
#[derive(Debug, Clone, Copy, PartialEq, Eq, Structural)]
pub enum StageAction {
    /// No source: nothing is staged.
    Skip,
    /// The destination is already there.
    Existing,
    /// Link the source to the destination.
    Link,
    /// Copy the source to the destination.
    Copy,
}

/// What staging a file does: nothing without a source, nothing new when
/// the destination exists, else a link or a copy as `mode` says.
pub fn stage_file_action(source_exists: bool, destination_exists: bool, mode: ConfigCopyMode) -> (r:
    StageAction)
    ensures
        !source_exists ==> r == StageAction::Skip,
        source_exists && destination_exists ==> r == StageAction::Existing,
        source_exists && !destination_exists ==> r == (match mode {
            ConfigCopyMode::Symlink => StageAction::Link,
            ConfigCopyMode::Copy => StageAction::Copy,
        }),
{
    if !source_exists {
        StageAction::Skip
    } else if destination_exists {
        StageAction::Existing
    } else {
        match mode {
            ConfigCopyMode::Symlink => StageAction::Link,
            ConfigCopyMode::Copy => StageAction::Copy,
        }
    }
}

/// The message of a download answered with `status` other than 200.
pub open spec fn download_status_text(url: Seq<char>, status: u16) -> Seq<char> {
    "Failed to download file: "@ + url + ", status: "@ + decimal_digits(status as nat)
}

/// The error of a download of `url` answered with `status`: none for 200.
pub fn download_status_error(url: &str, status: u16) -> (r: Option<String>)
    ensures
        status == 200 ==> r is None,
        status != 200 ==> (r matches Some(e) && e@ == download_status_text(url@, status)),
{
    if status == 200 {
        None
    } else {
        let mut out: Vec<char> = Vec::new();
        push_str(&mut out, "Failed to download file: ");
        push_str(&mut out, url);
        push_str(&mut out, ", status: ");
        let digits = u64_to_decimal(status as u64);
        append_chars(&mut out, digits.as_slice());
        proof {
            reveal_strlit("Failed to download file: ");
            reveal_strlit(", status: ");
        }
        Some(string_from_chars(out.as_slice()))
    }
}

/// The bytes downloaded before from `url`, if any: the first entry of
/// `cache` for it.
pub fn cached_download(cache: &[(String, Vec<u8>)], url: &str) -> (r: Option<Vec<u8>>)
    ensures
        match r {
            Some(b) => exists|i: int|
                0 <= i < cache@.len() && #[trigger] cache@[i].0@ == url@ && cache@[i].1@ == b@ && (
                forall|j: int| 0 <= j < i ==> cache@[j].0@ != url@),
            None => forall|i: int| 0 <= i < cache@.len() ==> #[trigger] cache@[i].0@ != url@,
        },
{
    let mut i: usize = 0;
    while i < cache.len()
        invariant
            i <= cache@.len(),
            forall|j: int| 0 <= j < i ==> #[trigger] cache@[j].0@ != url@,
        decreases cache@.len() - i,
    {
        if str_eq(cache[i].0.as_str(), url) {
            let bytes = cache[i].1.clone();
            assert(bytes@ == cache@[i as int].1@);
            return Some(bytes);
        }
        i = i + 1;
    }
    None
}

} // verus!
