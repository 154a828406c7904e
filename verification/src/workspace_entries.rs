//! The files and directories a check runs on.

use crate::analysis::Timestamp;
use crate::pattern::{config_globset, glob_is_match, globs_match, texts, GlobMatcher};
use crate::paths::{path_strip_prefix, path_stripped_of};
use crate::text::{chars_of, str_eq, string_from_chars};
use vstd::prelude::*;

verus! {

/// Whether an entry is a file or a directory.
#[derive(Debug, Clone, Copy, PartialEq, Eq, Structural)]
pub enum WorkspaceEntryKind {
    File,
    Directory,
}

/// A file or directory of the workspace: its path (relative to the root
/// when it lies under it), when its contents last changed, its size, its
/// kind and its language when known.
#[derive(Debug)]
pub struct WorkspaceEntry {
    pub path: String,
    pub content_modified: Timestamp,
    pub contents_size: u64,
    pub kind: WorkspaceEntryKind,
    pub language_name: Option<String>,
}

/// A path met while walking the paths of a check: as it was found, in its
/// absolute form when that could be computed, whether it is a directory,
/// and its metadata when that could be read.
#[derive(Debug)]
pub struct WalkedPath {
    pub path: String,
    pub absolute: Option<String>,
    pub is_dir: bool,
    pub metadata: Option<(Timestamp, u64)>,
}

/// `path` relative to `root` when it lies under it, component by component,
/// as `std::path::Path::strip_prefix` gives it.
pub open spec fn relative_to(path: Seq<char>, root: Seq<char>) -> Option<Seq<char>> {
    path_stripped_of(path, root)
}

/// `path` relative to `root`, when it lies under it.
pub fn strip_root(path: &str, root: &str) -> (r: Option<String>)
    ensures
        match r {
            Some(x) => relative_to(path@, root@) == Some(x@),
            None => relative_to(path@, root@) is None,
        },
{
    path_strip_prefix(path, root)
}

/// The path an entry is recorded under: its absolute form relative to the
/// root, or as it was found when either fails.
pub open spec fn clean_path(w: WalkedPath, root: Seq<char>) -> Seq<char> {
    match w.absolute {
        Some(a) => match relative_to(a@, root) {
            Some(r) => r,
            None => w.path@,
        },
        None => w.path@,
    }
}

/// The entry a walked path gives, if its metadata could be read.
pub open spec fn entry_of(w: WalkedPath, root: Seq<char>, e: WorkspaceEntry) -> bool {
    &&& w.metadata matches Some((modified, size))
    &&& e.path@ == clean_path(w, root)
    &&& e.content_modified == modified
    &&& e.contents_size == size
    &&& e.kind == if w.is_dir {
        WorkspaceEntryKind::Directory
    } else {
        WorkspaceEntryKind::File
    }
    &&& e.language_name is None
}

/// The walked paths whose metadata could be read.
pub open spec fn readable(walked: Seq<WalkedPath>) -> Seq<WalkedPath>
    decreases walked.len(),
{
    if walked.len() == 0 {
        seq![]
    } else {
        let rest = readable(walked.drop_last());
        if walked.last().metadata is Some {
            rest.push(walked.last())
        } else {
            rest
        }
    }
}

/// The entries of the paths given to a check, walked under a root.
#[derive(Debug)]
pub struct ArgsSource {
    pub root: String,
    pub paths: Vec<String>,
    pub entries: Result<Vec<WorkspaceEntry>, String>,
}

impl ArgsSource {
    /// The source of the paths `paths` under `root`, from what walking them
    /// met: an entry for each walked path whose metadata could be read,
    /// with its path made relative to the root; the walk's error otherwise.
    pub fn new(root: String, paths: Vec<String>, walked: Result<Vec<WalkedPath>, String>) -> (r: Self)
        ensures
            r.root == root,
            r.paths == paths,
            match (walked, r.entries) {
                (Ok(w), Ok(e)) => e@.len() == readable(w@).len() && forall|k: int|
                    0 <= k < e@.len() ==> entry_of(readable(w@)[k], root@, #[trigger] e@[k]),
                (Err(a), Err(b)) => a@ == b@,
                _ => false,
            },
    {
        let entries = match walked {
            Ok(w) => Ok(Self::build(root.as_str(), w)),
            Err(e) => Err(e),
        };
        ArgsSource { root, paths, entries }
    }

    fn build(root: &str, walked: Vec<WalkedPath>) -> (r: Vec<WorkspaceEntry>)
        ensures
            r@.len() == readable(walked@).len(),
            forall|k: int| 0 <= k < r@.len() ==> entry_of(readable(walked@)[k], root@, #[trigger] r@[k]),
    {
        let ghost w0 = walked@;
        let mut entries: Vec<WorkspaceEntry> = Vec::new();
        let mut i: usize = 0;
        while i < walked.len()
            invariant
                i <= walked@.len(),
                walked@ == w0,
                entries@.len() == readable(w0.take(i as int)).len(),
                forall|k: int| 0 <= k < entries@.len() ==> entry_of(readable(w0.take(i as int))[k], root@, #[trigger] entries@[k]),
            decreases walked@.len() - i,
        {
            assert(w0.take(i + 1).drop_last() == w0.take(i as int));
            assert(w0.take(i + 1).last() == w0[i as int]);
            let w = &walked[i];
            match w.metadata {
                Some((modified, size)) => {
                    let path = match &w.absolute {
                        Some(a) => match strip_root(a.as_str(), root) {
                            Some(rel) => rel,
                            None => w.path.clone(),
                        },
                        None => w.path.clone(),
                    };
                    let kind = if w.is_dir {
                        WorkspaceEntryKind::Directory
                    } else {
                        WorkspaceEntryKind::File
                    };
                    let ghost before = entries@;
                    entries.push(WorkspaceEntry { path, content_modified: modified, contents_size: size, kind, language_name: None });
                    proof {
                        assert forall|k: int| 0 <= k < entries@.len() implies entry_of(readable(w0.take(i + 1))[k], root@, #[trigger] entries@[k]) by {
                            if k < before.len() {
                                assert(entries@[k] == before[k]);
                            }
                        }
                    }
                },
                None => {},
            }
            i = i + 1;
        }
        assert(w0.take(i as int) == w0);
        entries
    }

    /// The entries, or the error the walk met.
    pub fn entries(&self) -> (r: Result<&Vec<WorkspaceEntry>, String>)
        ensures
            match (r, self.entries) {
                (Ok(a), Ok(b)) => *a == b,
                (Err(a), Err(b)) => a@ == "Failed to get entries: "@ + b@,
                _ => false,
            },
    {
        match &self.entries {
            Ok(e) => Ok(e),
            Err(e) => {
                let mut m = chars_of("Failed to get entries: ");
                crate::text::push_str(&mut m, e.as_str());
                Err(string_from_chars(m.as_slice()))
            },
        }
    }
}

/// Files left out of the check of some plugins: paths matching one of the
/// file patterns, for the plugins listed.
#[derive(Debug)]
pub struct Exclude {
    pub file_patterns: Vec<String>,
    pub plugins: Vec<String>,
}

/// Leaves out the entries an [`Exclude`] names, for its plugins.
pub struct ExcludeMatcher {
    pub exclude: Exclude,
    pub root: String,
    pub globs: GlobMatcher,
}

/// Whether one of `names` is `name`.
pub open spec fn lists(names: Seq<String>, name: Seq<char>) -> bool {
    exists|i: int| 0 <= i < names.len() && names[i]@ == name
}

impl ExcludeMatcher {
    /// The globs the matcher matches paths against.
    pub closed spec fn patterns(&self) -> Seq<Seq<char>> {
        self.globs.globs()
    }

    /// A matcher for `exclude` under `root`; the error of the file patterns
    /// when they do not build.
    pub fn new(exclude: Exclude, root: String) -> (r: Result<Self, String>)
        ensures
            match r {
                Ok(m) => m.exclude == exclude && m.root == root && m.patterns() == texts(exclude.file_patterns@),
                Err(_) => !crate::pattern::globs_compile(texts(exclude.file_patterns@)),
            },
    {
        match config_globset(exclude.file_patterns.as_slice()) {
            Ok(globs) => Ok(ExcludeMatcher { exclude, root, globs }),
            Err(e) => Err(e),
        }
    }

    /// The entry, unless it is excluded for the plugin `tool_name`: the
    /// plugin is listed and its path (relative to the root when under it)
    /// matches a file pattern.
    pub fn matches(&self, entry: WorkspaceEntry, tool_name: &str) -> (r: Option<WorkspaceEntry>)
        ensures
            ({
                let p = match relative_to(entry.path@, self.root@) {
                    Some(x) => x,
                    None => entry.path@,
                };
                if lists(self.exclude.plugins@, tool_name@) && globs_match(self.patterns(), p) {
                    r is None
                } else {
                    r == Some(entry)
                }
            }),
    {
        let path = match strip_root(entry.path.as_str(), self.root.as_str()) {
            Some(x) => x,
            None => entry.path.clone(),
        };
        let mut listed = false;
        let mut i: usize = 0;
        while i < self.exclude.plugins.len()
            invariant
                i <= self.exclude.plugins@.len(),
                listed <==> exists|j: int| 0 <= j < i && self.exclude.plugins@[j]@ == tool_name@,
            decreases self.exclude.plugins@.len() - i,
        {
            if str_eq(self.exclude.plugins[i].as_str(), tool_name) {
                listed = true;
            }
            i = i + 1;
        }
        if listed && glob_is_match(&self.globs, path.as_str()) {
            None
        } else {
            Some(entry)
        }
    }
}

} // verus!
