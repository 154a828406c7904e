//! Asking for fixes of issues: how many are asked for, and what comes back.

use crate::analysis::{Issue, IssueView, Suggestion, copy_issue, issues_view};
use crate::text::{chars_of, push_str, string_from_chars, str_eq, utf8_len, char_len_utf8};
use vstd::prelude::*;

verus! {

/// At most this many issues are sent for fixing in a run.
pub const MAX_FIXES: usize = 500;

/// At most this many batches of a file are sent for fixing.
pub const MAX_FIXES_PER_FILE: usize = 30;

/// Issues are sent for fixing in batches of at most this many.
pub const MAX_BATCH_SIZE: usize = 15;

/// The path of an issue: that of its location, if it has one.
pub open spec fn issue_path(i: IssueView) -> Option<Seq<char>> {
    match i.location {
        Some(l) => Some(l.path),
        None => None,
    }
}

/// The path of the first issue of `issues` that has one.
pub open spec fn common_path_of(issues: Seq<IssueView>) -> Option<Seq<char>>
    decreases issues.len(),
{
    if issues.len() == 0 {
        None
    } else if issue_path(issues[0]) is Some {
        issue_path(issues[0])
    } else {
        common_path_of(issues.drop_first())
    }
}

/// The abstract value of an optional path.
pub open spec fn path_view(p: Option<String>) -> Option<Seq<char>> {
    match p {
        Some(x) => Some(x@),
        None => None,
    }
}

/// Counts the issues sent for fixing, in all and by file, to keep within
/// [`MAX_FIXES`] and [`MAX_FIXES_PER_FILE`].
#[derive(Debug)]
pub struct Fixer {
    is_unsafe: bool,
    attempts_per_file: Vec<(Option<String>, usize)>,
    total_attempts: usize,
}

/// The counts of batches by file that pairs of a path and a count stand for.
pub open spec fn attempts_map(p: Seq<(Option<String>, usize)>) -> Map<Option<Seq<char>>, nat>
    decreases p.len(),
{
    if p.len() == 0 {
        Map::empty()
    } else {
        attempts_map(p.drop_last()).insert(path_view(p.last().0), p.last().1 as nat)
    }
}

/// Whether no two pairs have the same path.
pub open spec fn distinct_paths(p: Seq<(Option<String>, usize)>) -> bool {
    forall|i: int, j: int| 0 <= i < j < p.len() ==> path_view(p[i].0) != path_view(p[j].0)
}

proof fn lemma_attempts_map_update(p: Seq<(Option<String>, usize)>, j: int, key: Option<String>, v: usize)
    requires
        distinct_paths(p),
        0 <= j < p.len(),
        path_view(key) == path_view(p[j].0),
    ensures
        attempts_map(p.update(j, (key, v))) == attempts_map(p).insert(path_view(p[j].0), v as nat),
    decreases p.len(),
{
    let q = p.update(j, (key, v));
    if j == p.len() - 1 {
        assert(q.drop_last() == p.drop_last());
        assert(attempts_map(q) =~= attempts_map(p).insert(path_view(p[j].0), v as nat));
    } else {
        assert(q.drop_last() == p.drop_last().update(j, (key, v)));
        lemma_attempts_map_update(p.drop_last(), j, key, v);
        assert(path_view(p.last().0) != path_view(p[j].0));
        assert(attempts_map(q) =~= attempts_map(p).insert(path_view(p[j].0), v as nat));
    }
}

proof fn lemma_attempts_map_get(p: Seq<(Option<String>, usize)>, j: int)
    requires
        distinct_paths(p),
        0 <= j < p.len(),
    ensures
        attempts_map(p).contains_key(path_view(p[j].0)),
        attempts_map(p)[path_view(p[j].0)] == p[j].1 as nat,
    decreases p.len(),
{
    if j < p.len() - 1 {
        lemma_attempts_map_get(p.drop_last(), j);
    }
}

proof fn lemma_attempts_map_absent(p: Seq<(Option<String>, usize)>, k: Option<Seq<char>>)
    requires
        forall|i: int| 0 <= i < p.len() ==> path_view(#[trigger] p[i].0) != k,
    ensures
        !attempts_map(p).contains_key(k),
    decreases p.len(),
{
    if p.len() > 0 {
        lemma_attempts_map_absent(p.drop_last(), k);
    }
}

fn same_path(a: &Option<String>, b: &Option<String>) -> (r: bool)
    ensures
        r == (path_view(*a) == path_view(*b)),
{
    match (a, b) {
        (Some(x), Some(y)) => str_eq(x.as_str(), y.as_str()),
        (None, None) => true,
        _ => false,
    }
}

fn copy_path(p: &Option<String>) -> (r: Option<String>)
    ensures
        path_view(r) == path_view(*p),
{
    match p {
        Some(x) => Some(x.clone()),
        None => None,
    }
}

impl Fixer {
    /// The number of issues sent for fixing so far.
    pub closed spec fn total(&self) -> nat {
        self.total_attempts as nat
    }

    /// The number of batches sent for fixing so far, by file.
    pub closed spec fn per_file(&self) -> Map<Option<Seq<char>>, nat> {
        attempts_map(self.attempts_per_file@)
    }

    /// Whether fixes that may change behaviour are allowed.
    pub closed spec fn allows_unsafe(&self) -> bool {
        self.is_unsafe
    }

    /// No file is counted twice.
    #[verifier::type_invariant]
    spec fn wf(&self) -> bool {
        distinct_paths(self.attempts_per_file@)
    }

    /// A fixer that has sent nothing yet; `is_unsafe` allows fixes that
    /// may change behaviour.
    pub fn new(is_unsafe: bool) -> (r: Self)
        ensures
            r.allows_unsafe() == is_unsafe,
            r.total() == 0,
            r.per_file() == Map::<Option<Seq<char>>, nat>::empty(),
    {
        Fixer { is_unsafe, attempts_per_file: Vec::new(), total_attempts: 0 }
    }

    /// Whether fixes that may change behaviour are allowed.
    pub fn is_unsafe(&self) -> (r: bool)
        ensures
            r == self.allows_unsafe(),
    {
        self.is_unsafe
    }

    /// The path of the first issue that has one: the file a batch is about.
    pub fn common_path(&self, issues: &[Issue]) -> (r: Option<String>)
        ensures
            path_view(r) == common_path_of(issues_view(issues@)),
    {
        let ghost iv = issues_view(issues@);
        let mut i: usize = 0;
        assert(iv.skip(0) == iv);
        while i < issues.len()
            invariant
                i <= issues@.len(),
                iv == issues_view(issues@),
                common_path_of(iv) == common_path_of(iv.skip(i as int)),
            decreases issues@.len() - i,
        {
            assert(iv.skip(i as int).drop_first() == iv.skip(i + 1));
            assert(iv.skip(i as int)[0] == issues@[i as int]@);
            match &issues[i].location {
                Some(l) => {
                    return Some(l.path.clone());
                },
                None => {},
            }
            i = i + 1;
        }
        None
    }

    /// The position of the count of `path`, if there is one.
    fn find_path(&self, path: &Option<String>) -> (r: Option<usize>)
        ensures
            match r {
                Some(j) => j < self.attempts_per_file@.len() && path_view(
                    self.attempts_per_file@[j as int].0,
                ) == path_view(*path),
                None => forall|i: int|
                    0 <= i < self.attempts_per_file@.len() ==> path_view(
                        #[trigger] self.attempts_per_file@[i].0,
                    ) != path_view(*path),
            },
    {
        let mut j: usize = 0;
        while j < self.attempts_per_file.len()
            invariant
                j <= self.attempts_per_file@.len(),
                forall|i: int| 0 <= i < j ==> path_view(#[trigger] self.attempts_per_file@[i].0) != path_view(*path),
            decreases self.attempts_per_file@.len() - j,
        {
            if same_path(&self.attempts_per_file[j].0, path) {
                return Some(j);
            }
            j = j + 1;
        }
        None
    }

    /// Whether a batch of `issues` is over a limit: the issues sent in all
    /// would reach [`MAX_FIXES`], or its file already had
    /// [`MAX_FIXES_PER_FILE`] batches. Checking starts counting the file.
    pub fn reached_max_fixes(&mut self, issues: &[Issue]) -> (r: bool)
        ensures
            final(self).total() == old(self).total(),
            final(self).allows_unsafe() == old(self).allows_unsafe(),
            ({
                let p = common_path_of(issues_view(issues@));
                if old(self).total() + issues@.len() >= MAX_FIXES {
                    r && final(self).per_file() == old(self).per_file()
                } else {
                    let n = if old(self).per_file().contains_key(p) {
                        old(self).per_file()[p]
                    } else {
                        0
                    };
                    &&& r == (n >= MAX_FIXES_PER_FILE)
                    &&& final(self).per_file() == old(self).per_file().insert(p, n)
                }
            }),
    {
        proof {
            use_type_invariant(&*self);
        }
        if issues.len() >= MAX_FIXES || self.total_attempts >= MAX_FIXES - issues.len() {
            return true;
        }
        let path = self.common_path(issues);
        match self.find_path(&path) {
            Some(j) => {
                proof {
                    lemma_attempts_map_get(self.attempts_per_file@, j as int);
                    assert(self.per_file().insert(path_view(path), self.per_file()[path_view(path)]) =~= self.per_file());
                }
                self.attempts_per_file[j].1 >= MAX_FIXES_PER_FILE
            },
            None => {
                proof {
                    lemma_attempts_map_absent(self.attempts_per_file@, path_view(path));
                }
                let mut counts: Vec<(Option<String>, usize)> = Vec::new();
                std::mem::swap(&mut counts, &mut self.attempts_per_file);
                let ghost before = counts@;
                counts.push((path, 0));
                proof {
                    assert(counts@.drop_last() == before);
                    assert forall|a: int, b: int| 0 <= a < b < counts@.len() implies path_view(counts@[a].0) != path_view(counts@[b].0) by {
                        if b < before.len() {
                            assert(counts@[a] == before[a]);
                            assert(counts@[b] == before[b]);
                        } else {
                            assert(counts@[a] == before[a]);
                        }
                    }
                }
                self.attempts_per_file = counts;
                false
            },
        }
    }

    /// Counts a batch of `issues` that was sent: its issues in all, and a
    /// batch for its file when the file is counted.
    pub fn update_max_fixes(&mut self, issues: &[Issue])
        requires
            old(self).total() + issues@.len() <= usize::MAX,
            forall|p: Option<Seq<char>>| #[trigger] old(self).per_file().contains_key(p) ==> old(self).per_file()[p] < usize::MAX,
        ensures
            final(self).allows_unsafe() == old(self).allows_unsafe(),
            final(self).total() == old(self).total() + issues@.len(),
            ({
                let p = common_path_of(issues_view(issues@));
                if old(self).per_file().contains_key(p) {
                    final(self).per_file() == old(self).per_file().insert(p, old(self).per_file()[p] + 1)
                } else {
                    final(self).per_file() == old(self).per_file()
                }
            }),
    {
        proof {
            use_type_invariant(&*self);
        }
        self.total_attempts = self.total_attempts + issues.len();
        let path = self.common_path(issues);
        match self.find_path(&path) {
            Some(j) => {
                proof {
                    lemma_attempts_map_get(self.attempts_per_file@, j as int);
                }
                let ghost before = self.attempts_per_file@;
                let c = self.attempts_per_file[j].1;
                assert(self.per_file() == old(self).per_file());
                assert(old(self).per_file().contains_key(path_view(before[j as int].0)));
                let p = copy_path(&self.attempts_per_file[j].0);
                let mut counts: Vec<(Option<String>, usize)> = Vec::new();
                std::mem::swap(&mut counts, &mut self.attempts_per_file);
                counts.set(j, (p, c + 1));
                proof {
                    assert(counts@ == before.update(j as int, (p, (c + 1) as usize)));
                    lemma_attempts_map_update(before, j as int, p, (c + 1) as usize);
                    assert forall|a: int, b: int| 0 <= a < b < counts@.len() implies path_view(counts@[a].0) != path_view(counts@[b].0) by {
                        assert(path_view(counts@[a].0) == path_view(before[a].0));
                        assert(path_view(counts@[b].0) == path_view(before[b].0));
                    }
                }
                self.attempts_per_file = counts;
            },
            None => {
                proof {
                    lemma_attempts_map_absent(self.attempts_per_file@, path_view(path));
                }
            },
        }
    }
}

impl Fixer {
    /// The file a batch of fixes is asked for: the common path of its
    /// issues; a batch without one cannot be fixed.
    pub fn fix_request_path(&self, issues: &[Issue]) -> (r: Result<String, String>)
        ensures
            match r {
                Ok(p) => common_path_of(issues_view(issues@)) == Some(p@),
                Err(e) => common_path_of(issues_view(issues@)) is None && e@ == "Issues have no path"@,
            },
    {
        match self.common_path(issues) {
            Some(p) => Ok(p),
            None => Err("Issues have no path".to_string()),
        }
    }

    /// What a batch becomes once fixing was tried: the fixed issues, which
    /// are then counted, or nothing when fixing failed.
    pub fn after_fix_attempt(&mut self, fixed: Result<Vec<Issue>, String>) -> (r: Option<Vec<Issue>>)
        requires
            fixed matches Ok(f) ==> old(self).total() + f@.len() <= usize::MAX,
            forall|p: Option<Seq<char>>| #[trigger] old(self).per_file().contains_key(p) ==> old(self).per_file()[p] < usize::MAX,
        ensures
            match fixed {
                Ok(f) => r == Some(f) && final(self).total() == old(self).total() + f@.len(),
                Err(_) => r is None && final(self).total() == old(self).total() && final(self).per_file() == old(self).per_file(),
            },
    {
        match fixed {
            Ok(f) => {
                self.update_max_fixes(f.as_slice());
                Some(f)
            },
            Err(_) => None,
        }
    }
}

/// `issues` with the suggestions of `groups`, the first group for the
/// first issue and so on, as far as both go.
pub open spec fn with_suggestions_spec(issues: Seq<IssueView>, groups: Seq<Seq<crate::analysis::SuggestionView>>) -> Seq<IssueView> {
    let n = if issues.len() < groups.len() {
        issues.len()
    } else {
        groups.len()
    };
    Seq::new(
        n as nat,
        |k: int|
            IssueView {
                tool: issues[k].tool,
                rule_key: issues[k].rule_key,
                message: issues[k].message,
                level: issues[k].level,
                category: issues[k].category,
                documentation_url: issues[k].documentation_url,
                location: issues[k].location,
                suggestions: groups[k],
            },
    )
}

/// The abstract values of groups of suggestions.
pub open spec fn groups_view(g: Seq<Vec<Suggestion>>) -> Seq<Seq<crate::analysis::SuggestionView>> {
    g.map_values(|v: Vec<Suggestion>| v@.map_values(|s: Suggestion| s@))
}

/// The issues with the suggestions the fixing service answered, one group
/// per issue.
pub fn with_suggestions(issues: &[Issue], groups: Vec<Vec<Suggestion>>) -> (r: Vec<Issue>)
    ensures
        issues_view(r@) == with_suggestions_spec(issues_view(issues@), groups_view(groups@)),
{
    let ghost g0 = groups@;
    let n = if issues.len() < groups.len() {
        issues.len()
    } else {
        groups.len()
    };
    let mut out: Vec<Issue> = Vec::new();
    let mut rest = groups;
    let mut k: usize = 0;
    while k < n
        invariant
            k <= n,
            n <= issues@.len(),
            n <= g0.len(),
            k + rest@.len() == g0.len(),
            forall|j: int| 0 <= j < rest@.len() ==> #[trigger] rest@[j] == g0[k + j],
            out@.len() == k,
            forall|j: int| 0 <= j < k ==> #[trigger] issues_view(out@)[j] == with_suggestions_spec(issues_view(issues@), groups_view(g0))[j],
        decreases n - k,
    {
        let suggestions = rest.remove(0);
        let mut issue = copy_issue(&issues[k]);
        issue.suggestions = suggestions;
        let ghost before = out@;
        out.push(issue);
        proof {
            assert forall|j: int| 0 <= j < k + 1 implies #[trigger] issues_view(out@)[j] == with_suggestions_spec(issues_view(issues@), groups_view(g0))[j] by {
                if j < k {
                    assert(out@[j] == before[j]);
                    assert(issues_view(out@)[j] == issues_view(before)[j]);
                }
            }
        }
        k = k + 1;
    }
    proof {
        assert(issues_view(out@) =~= with_suggestions_spec(issues_view(issues@), groups_view(g0)));
    }
    out
}

/// Whether `b` bounds batch `k` of `n` issues: from `k` batches in, a
/// full batch or the rest.
pub open spec fn is_batch(b: (usize, usize), k: int, n: int) -> bool {
    &&& b.0 == k * MAX_BATCH_SIZE
    &&& b.1 == if (k + 1) * MAX_BATCH_SIZE <= n {
        (k + 1) * MAX_BATCH_SIZE
    } else {
        n
    }
}

/// The bounds of the batches of `n` issues: from the start, each of
/// [`MAX_BATCH_SIZE`] issues but the last, which holds the rest.
pub fn batch_bounds(n: usize) -> (r: Vec<(usize, usize)>)
    ensures
        r@.len() * MAX_BATCH_SIZE >= n,
        r@.len() == 0 || (r@.len() - 1) * MAX_BATCH_SIZE < n,
        forall|k: int| 0 <= k < r@.len() ==> is_batch(#[trigger] r@[k], k, n as int),
{
    let mut r: Vec<(usize, usize)> = Vec::new();
    let mut start: usize = 0;
    while start < n
        invariant
            start <= n,
            start == if r@.len() * MAX_BATCH_SIZE <= n {
                r@.len() * MAX_BATCH_SIZE
            } else {
                n as int
            },
            r@.len() == 0 || (r@.len() - 1) * MAX_BATCH_SIZE < n,
            start < n ==> start == r@.len() * MAX_BATCH_SIZE,
            forall|k: int| 0 <= k < r@.len() ==> is_batch(#[trigger] r@[k], k, n as int),
        decreases n - start,
    {
        let end = if n - start >= MAX_BATCH_SIZE {
            start + MAX_BATCH_SIZE
        } else {
            n
        };
        let ghost before = r@;
        r.push((start, end));
        proof {
            assert forall|k: int| 0 <= k < r@.len() implies is_batch(#[trigger] r@[k], k, n as int) by {
                if k < before.len() {
                    assert(r@[k] == before[k]);
                } else {
                    assert(k == before.len());
                    assert(r@[k] == (start, end));
                    assert(start == k * 15);
                    if n - start >= 15 {
                        assert(end == (k + 1) * 15);
                    } else {
                        assert(end == n);
                        assert((k + 1) * 15 > n);
                    }
                }
            }
        }
        start = end;
    }
    r
}

} // verus!
