use std::collections::HashSet;
use std::ops::RangeInclusive;
use crate::paths::{path_components, path_components_of, same_components};
use crate::pattern::texts;
use vstd::prelude::*;

verus! {

broadcast use vstd::std_specs::hash::group_hash_axioms;

/// Line numbers are one-based and fit in 32 bits.
pub type LineNumber = u32;

/// What is known of one file: whether it is new in full, and which of its
/// lines were touched.
pub struct FileInfo {
    pub new_file: bool,
    pub line_numbers: HashSet<LineNumber>,
}

/// The abstract value of a [`FileInfo`].
pub struct FileInfoView {
    pub new_file: bool,
    pub line_numbers: Set<LineNumber>,
}

impl View for FileInfo {
    type V = FileInfoView;

    open spec fn view(&self) -> FileInfoView {
        FileInfoView { new_file: self.new_file, line_numbers: self.line_numbers@ }
    }
}

impl FileInfo {
    /// Records `line_number` as touched.
    pub fn insert(&mut self, line_number: LineNumber)
        ensures
            final(self).new_file == old(self).new_file,
            final(self).line_numbers@ == old(self).line_numbers@.insert(line_number),
    {
        self.line_numbers.insert(line_number);
    }
}

/// A path as the index tells paths apart: the text of its components, so
/// that `a/b`, `a/b/`, `a//b` and `a/./b` are one path.
pub type PathKey = Seq<Seq<char>>;

/// An index from file paths to the lines of each file that matter.
pub struct FileIndex {
    inner: Vec<(Vec<String>, FileInfo)>,
}

/// Whether the paths of `entries` are pairwise distinct.
pub open spec fn distinct_paths(entries: Seq<(Vec<String>, FileInfo)>) -> bool {
    forall|i: int, j: int|
        0 <= i < entries.len() && 0 <= j < entries.len() && i != j ==> texts(entries[i].0@)
            != texts(entries[j].0@)
}

/// The map that `entries` stands for: each path to its information.
pub open spec fn entries_map(entries: Seq<(Vec<String>, FileInfo)>) -> Map<PathKey, FileInfoView>
    decreases entries.len(),
{
    if entries.len() == 0 {
        Map::empty()
    } else {
        entries_map(entries.drop_last()).insert(
            texts(entries.last().0@),
            entries.last().1@,
        )
    }
}

/// The index `m` after line `line` of `path` is recorded: a path not yet in
/// it enters as a file that is not new.
pub open spec fn with_line(m: Map<PathKey, FileInfoView>, path: PathKey, line: LineNumber) -> Map<
    PathKey,
    FileInfoView,
> {
    m.insert(
        path,
        if m.contains_key(path) {
            FileInfoView {
                new_file: m[path].new_file,
                line_numbers: m[path].line_numbers.insert(line),
            }
        } else {
            FileInfoView { new_file: false, line_numbers: set![line] }
        },
    )
}

/// The index `m` after `path` is recorded as a new file; a path already in
/// it is left as it is.
pub open spec fn with_file(m: Map<PathKey, FileInfoView>, path: PathKey) -> Map<
    PathKey,
    FileInfoView,
> {
    if m.contains_key(path) {
        m
    } else {
        m.insert(path, FileInfoView { new_file: true, line_numbers: Set::empty() })
    }
}

/// Whether the range `start..=end` of `path` overlaps the index `m`.
pub open spec fn index_matches(
    m: Map<PathKey, FileInfoView>,
    path: PathKey,
    start: LineNumber,
    end: LineNumber,
) -> bool {
    m.contains_key(path) && (m[path].new_file || range_overlaps(m[path].line_numbers, start, end))
}

/// Whether `n` lies in the inclusive range `start..=end`, where a range that
/// ends before it starts stands for its start line alone.
pub open spec fn in_range(n: LineNumber, start: LineNumber, end: LineNumber) -> bool {
    if end < start {
        n == start
    } else {
        start <= n <= end
    }
}

/// Whether the set `lines` holds a line of the inclusive range `start..=end`,
/// where a range that ends before it starts stands for its start line alone.
pub open spec fn range_overlaps(lines: Set<LineNumber>, start: LineNumber, end: LineNumber) -> bool {
    exists|n: LineNumber| in_range(n, start, end) && #[trigger] lines.contains(n)
}

/// Trusted: `RangeInclusive::start`, documented as returning the lower
/// bound of the range.
#[verifier::external_body]
fn range_start(r: &RangeInclusive<LineNumber>) -> (s: LineNumber)
    ensures
        s == r@.start,
{
    *r.start()
}

/// Trusted: `RangeInclusive::end`, documented as returning the upper
/// bound of the range.
#[verifier::external_body]
fn range_end(r: &RangeInclusive<LineNumber>) -> (e: LineNumber)
    ensures
        e == r@.end,
{
    *r.end()
}

proof fn lemma_entries_map_index(entries: Seq<(Vec<String>, FileInfo)>, i: int)
    requires
        distinct_paths(entries),
        0 <= i < entries.len(),
    ensures
        entries_map(entries).contains_key(texts(entries[i].0@)),
        entries_map(entries)[texts(entries[i].0@)] == entries[i].1@,
    decreases entries.len(),
{
    if i < entries.len() - 1 {
        lemma_entries_map_index(entries.drop_last(), i);
    }
}

proof fn lemma_entries_map_absent(entries: Seq<(Vec<String>, FileInfo)>, p: PathKey)
    requires
        forall|i: int| 0 <= i < entries.len() ==> texts(entries[i].0@) != p,
    ensures
        !entries_map(entries).contains_key(p),
    decreases entries.len(),
{
    if entries.len() > 0 {
        lemma_entries_map_absent(entries.drop_last(), p);
    }
}

proof fn lemma_entries_map_dom(entries: Seq<(Vec<String>, FileInfo)>, p: PathKey)
    requires
        entries_map(entries).contains_key(p),
    ensures
        exists|i: int| 0 <= i < entries.len() && texts(entries[i].0@) == p,
    decreases entries.len(),
{
    if entries.len() > 0 && texts(entries.last().0@) != p {
        lemma_entries_map_dom(entries.drop_last(), p);
        let i = choose|i: int| 0 <= i < entries.len() - 1 && texts(entries.drop_last()[i].0@) == p;
        assert(texts(entries[i].0@) == p);
    }
}

proof fn lemma_entries_map_update(
    entries: Seq<(Vec<String>, FileInfo)>,
    i: int,
    e: (Vec<String>, FileInfo),
)
    requires
        distinct_paths(entries),
        0 <= i < entries.len(),
        texts(e.0@) == texts(entries[i].0@),
    ensures
        distinct_paths(entries.update(i, e)),
        entries_map(entries.update(i, e)) == entries_map(entries).insert(texts(e.0@), e.1@),
    decreases entries.len(),
{
    let u = entries.update(i, e);
    if i == entries.len() - 1 {
        assert(u.drop_last() == entries.drop_last());
    } else {
        assert(u.drop_last() == entries.drop_last().update(i, e));
        lemma_entries_map_update(entries.drop_last(), i, e);
        assert(texts(entries.last().0@) != texts(e.0@));
    }
}

impl View for FileIndex {
    type V = Map<PathKey, FileInfoView>;

    closed spec fn view(&self) -> Map<PathKey, FileInfoView> {
        entries_map(self.inner@)
    }
}

proof fn lemma_push_distinct(before: Seq<(Vec<String>, FileInfo)>, e: (Vec<String>, FileInfo))
    requires
        distinct_paths(before),
        !entries_map(before).contains_key(texts(e.0@)),
    ensures
        distinct_paths(before.push(e)),
        entries_map(before.push(e)) == entries_map(before).insert(texts(e.0@), e.1@),
{
    let after = before.push(e);
    assert(after.drop_last() == before);
    assert forall|a: int, b: int|
        0 <= a < after.len() && 0 <= b < after.len() && a != b implies texts(after[a].0@)
        != texts(after[b].0@) by {
        if a < before.len() {
            lemma_entries_map_index(before, a);
        }
        if b < before.len() {
            lemma_entries_map_index(before, b);
        }
    }
}

impl FileIndex {
    /// No path occurs twice in the index.
    #[verifier::type_invariant]
    spec fn wf(&self) -> bool {
        distinct_paths(self.inner@)
    }

    /// An empty index.
    pub fn new() -> (index: Self)
        ensures
            index@ == Map::<PathKey, FileInfoView>::empty(),
    {
        FileIndex { inner: Vec::new() }
    }

    fn position(inner: &Vec<(Vec<String>, FileInfo)>, key: &Vec<String>) -> (r: Option<usize>)
        requires
            distinct_paths(inner@),
        ensures
            match r {
                Some(i) => i < inner@.len() && texts(inner@[i as int].0@) == texts(key@),
                None => !entries_map(inner@).contains_key(texts(key@)),
            },
            r is Some <==> entries_map(inner@).contains_key(texts(key@)),
    {
        let mut i: usize = 0;
        while i < inner.len()
            invariant
                i <= inner@.len(),
                distinct_paths(inner@),
                forall|j: int| 0 <= j < i ==> texts(inner@[j].0@) != texts(key@),
            decreases inner@.len() - i,
        {
            if same_components(&inner[i].0, key) {
                proof {
                    lemma_entries_map_index(inner@, i as int);
                }
                return Some(i);
            }
            i = i + 1;
        }
        proof {
            lemma_entries_map_absent(inner@, texts(key@));
        }
        None
    }

    /// Records that line `line_number` of `path` is touched; a path not yet
    /// in the index enters it as a file that is not new.
    pub fn insert_line(&mut self, path: &str, line_number: LineNumber)
        ensures
            final(self)@ == with_line(old(self)@, path_components_of(path@), line_number),
    {
        proof {
            use_type_invariant(&*self);
        }
        let key = path_components(path);
        let mut inner: Vec<(Vec<String>, FileInfo)> = Vec::new();
        std::mem::swap(&mut inner, &mut self.inner);
        let ghost before = inner@;
        match FileIndex::position(&inner, &key) {
            Some(i) => {
                proof {
                    lemma_entries_map_index(before, i as int);
                }
                let (k, mut info) = inner.remove(i);
                info.insert(line_number);
                inner.insert(i, (k, info));
                proof {
                    assert(inner@ == before.update(i as int, inner@[i as int]));
                    lemma_entries_map_update(before, i as int, inner@[i as int]);
                }
            },
            None => {
                let mut line_numbers = HashSet::new();
                line_numbers.insert(line_number);
                let e = (key, FileInfo { new_file: false, line_numbers });
                proof {
                    lemma_push_distinct(before, e);
                    assert(e.1@.line_numbers == set![line_number]);
                }
                inner.push(e);
            },
        }
        self.inner = inner;
    }

    /// Records `path` as a new file, all of whose lines matter; a path
    /// already in the index is left as it is.
    pub fn insert_file(&mut self, path: &str)
        ensures
            final(self)@ == with_file(old(self)@, path_components_of(path@)),
    {
        proof {
            use_type_invariant(&*self);
        }
        let key = path_components(path);
        if FileIndex::position(&self.inner, &key).is_none() {
            let mut inner: Vec<(Vec<String>, FileInfo)> = Vec::new();
            std::mem::swap(&mut inner, &mut self.inner);
            let ghost before = inner@;
            let e = (key, FileInfo { new_file: true, line_numbers: HashSet::new() });
            proof {
                lemma_push_distinct(before, e);
            }
            inner.push(e);
            self.inner = inner;
        }
    }

    /// Whether `path` is in the index.
    pub fn matches_path(&self, path: &str) -> (r: bool)
        ensures
            r == self@.contains_key(path_components_of(path@)),
    {
        proof {
            use_type_invariant(self);
        }
        let key = path_components(path);
        FileIndex::position(&self.inner, &key).is_some()
    }

    /// Whether the inclusive range `line_numbers` of `path` overlaps the
    /// index: true for a new file, and otherwise when one of its lines was
    /// touched. A range that ends before it starts stands for its start line.
    pub fn matches_line_range(&self, path: &str, line_numbers: RangeInclusive<LineNumber>) -> (r:
        bool)
        ensures
            r == index_matches(
                self@,
                path_components_of(path@),
                line_numbers@.start,
                line_numbers@.end,
            ),
    {
        proof {
            use_type_invariant(self);
        }
        let start = range_start(&line_numbers);
        let end0 = range_end(&line_numbers);
        let end = if end0 < start {
            start
        } else {
            end0
        };
        let key = path_components(path);
        match FileIndex::position(&self.inner, &key) {
            None => false,
            Some(i) => {
                proof {
                    lemma_entries_map_index(self.inner@, i as int);
                }
                let info = &self.inner[i].1;
                if info.new_file {
                    return true;
                }
                let mut n: LineNumber = start;
                loop
                    invariant
                        start <= n <= end,
                        texts(key@) == path_components_of(path@),
                        self@.contains_key(texts(key@)),
                        info@ == self@[texts(key@)],
                        !info.new_file,
                        start == line_numbers@.start,
                        end0 == line_numbers@.end,
                        end0 < start ==> end == start,
                        end0 >= start ==> end == end0,
                        forall|m: LineNumber| start <= m < n ==> !info.line_numbers@.contains(m),
                    decreases end - n,
                {
                    if info.line_numbers.contains(&n) {
                        assert(info.line_numbers@.contains(n));
                        assert(in_range(n, start, end0));
                        return true;
                    }
                    if n == end {
                        assert forall|m: LineNumber| in_range(m, start, end0) implies !info.line_numbers@.contains(m) by {}
                        return false;
                    }
                    n = n + 1;
                }
            },
        }
    }
}

/// A line recorded in the index is found again by every range that holds
/// it, and recording it changes nothing for the other paths.
pub proof fn law_inserted_line_matches(
    index: Map<PathKey, FileInfoView>,
    path: PathKey,
    line: LineNumber,
    other: PathKey,
    start: LineNumber,
    end: LineNumber,
)
    requires
        start <= line <= end,
    ensures
        index_matches(with_line(index, path, line), path, start, end),
        other != path ==> index_matches(with_line(index, path, line), other, start, end)
            == index_matches(index, other, start, end),
{
    assert(with_line(index, path, line)[path].line_numbers.contains(line));
    assert(in_range(line, start, end));
}

/// A file recorded as new matches every range, whatever was recorded of it
/// before or after.
pub proof fn law_new_file_matches_everything(
    index: Map<PathKey, FileInfoView>,
    path: PathKey,
    line: LineNumber,
    start: LineNumber,
    end: LineNumber,
)
    requires
        !index.contains_key(path),
    ensures
        index_matches(with_file(index, path), path, start, end),
        index_matches(with_line(with_file(index, path), path, line), path, start, end),
        with_file(with_file(index, path), path) == with_file(index, path),
{
}

/// Recording a line twice is recording it once, and recording two lines
/// gives the same index in either order.
pub proof fn law_insert_line_idempotent_and_commutative(
    index: Map<PathKey, FileInfoView>,
    p: PathKey,
    a: LineNumber,
    q: PathKey,
    b: LineNumber,
)
    ensures
        with_line(with_line(index, p, a), p, a) == with_line(index, p, a),
        with_line(with_line(index, p, a), q, b) == with_line(with_line(index, q, b), p, a),
{
    let once = with_line(index, p, a);
    assert(once[p].line_numbers.insert(a) =~= once[p].line_numbers);
    assert(with_line(once, p, a) =~= once);
    let pq = with_line(with_line(index, p, a), q, b);
    let qp = with_line(with_line(index, q, b), p, a);
    if p == q {
        if index.contains_key(p) {
            assert(pq[p].line_numbers =~= qp[p].line_numbers);
        } else {
            assert(pq[p].line_numbers =~= qp[p].line_numbers);
        }
    }
    assert(pq =~= qp);
}

/// One recording made on a file index.
pub enum IndexInsert {
    /// `insert_line` of a path and a line.
    Line(Seq<char>, LineNumber),
    /// `insert_file` of a path.
    File(Seq<char>),
}

/// The path that `op` records, as the index tells paths apart.
pub open spec fn insert_key(op: IndexInsert) -> PathKey {
    match op {
        IndexInsert::Line(p, _) => path_components_of(p),
        IndexInsert::File(p) => path_components_of(p),
    }
}

/// The index `m` after the recording `op`.
pub open spec fn apply_insert(m: Map<PathKey, FileInfoView>, op: IndexInsert) -> Map<
    PathKey,
    FileInfoView,
> {
    match op {
        IndexInsert::Line(p, l) => with_line(m, path_components_of(p), l),
        IndexInsert::File(p) => with_file(m, path_components_of(p)),
    }
}

/// The index after the recordings `ops`, in order, starting from `new`.
pub open spec fn index_after(ops: Seq<IndexInsert>) -> Map<PathKey, FileInfoView>
    decreases ops.len(),
{
    if ops.len() == 0 {
        Map::empty()
    } else {
        apply_insert(index_after(ops.drop_last()), ops.last())
    }
}

/// Each recording extends the history: the index after one more recording
/// is what `insert_line` or `insert_file` makes of the index before it, so
/// an index built by calls from `FileIndex::new` is `index_after` of them.
pub proof fn law_history_step(ops: Seq<IndexInsert>, op: IndexInsert)
    ensures
        index_after(Seq::empty()) == Map::<PathKey, FileInfoView>::empty(),
        index_after(ops.push(op)) == apply_insert(index_after(ops), op),
{
    assert(ops.push(op).drop_last() == ops);
}

/// Whether one of `ops` records the path `k`.
pub open spec fn names(ops: Seq<IndexInsert>, k: PathKey) -> bool {
    exists|i: int| 0 <= i < ops.len() && insert_key(#[trigger] ops[i]) == k
}

/// Whether the first of `ops` that records the path `k` is an `insert_file`.
pub open spec fn first_is_file(ops: Seq<IndexInsert>, k: PathKey) -> bool {
    exists|i: int|
        0 <= i < ops.len() && insert_key(#[trigger] ops[i]) == k && ops[i] is File && forall|j: int|
            0 <= j < i ==> insert_key(#[trigger] ops[j]) != k
}

/// Whether one of `ops` is an `insert_line` of the path `k` and the line
/// `l`.
pub open spec fn records_line(ops: Seq<IndexInsert>, k: PathKey, l: LineNumber) -> bool {
    exists|i: int|
        0 <= i < ops.len() && #[trigger] ops[i] == IndexInsert::Line(ops[i]->Line_0, l)
            && path_components_of(ops[i]->Line_0) == k
}

proof fn lemma_index_after(ops: Seq<IndexInsert>, k: PathKey)
    ensures
        index_after(ops).contains_key(k) == names(ops, k),
        names(ops, k) ==> index_after(ops)[k].new_file == first_is_file(ops, k),
        names(ops, k) ==> forall|l: LineNumber|
            #[trigger] index_after(ops)[k].line_numbers.contains(l) == records_line(ops, k, l),
    decreases ops.len(),
{
    if ops.len() > 0 {
        let prev = ops.drop_last();
        let op = ops.last();
        let n = ops.len() - 1;
        lemma_index_after(prev, k);
        assert forall|i: int| 0 <= i < prev.len() implies #[trigger] prev[i] == ops[i] by {}
        assert(ops[n] == op);
        if names(prev, k) {
            let w = choose|i: int| 0 <= i < prev.len() && insert_key(#[trigger] prev[i]) == k;
            assert(insert_key(ops[w]) == k);
        }
        if insert_key(op) == k {
            assert(insert_key(ops[n]) == k);
        }
        if names(ops, k) {
            let w = choose|i: int| 0 <= i < ops.len() && insert_key(#[trigger] ops[i]) == k;
            if w < n {
                assert(insert_key(prev[w]) == k);
            }
        }
        assert(names(ops, k) == (names(prev, k) || insert_key(op) == k));
        // which recording comes first
        if names(prev, k) {
            if first_is_file(prev, k) {
                let w = choose|i: int|
                    0 <= i < prev.len() && insert_key(#[trigger] prev[i]) == k && prev[i] is File
                        && forall|j: int| 0 <= j < i ==> insert_key(#[trigger] prev[j]) != k;
                assert(insert_key(ops[w]) == k && ops[w] is File);
                assert forall|j: int| 0 <= j < w implies insert_key(#[trigger] ops[j]) != k by {
                    assert(prev[j] == ops[j]);
                }
            }
            if first_is_file(ops, k) {
                let w = choose|i: int|
                    0 <= i < ops.len() && insert_key(#[trigger] ops[i]) == k && ops[i] is File
                        && forall|j: int| 0 <= j < i ==> insert_key(#[trigger] ops[j]) != k;
                let v = choose|i: int| 0 <= i < prev.len() && insert_key(#[trigger] prev[i]) == k;
                assert(insert_key(ops[v]) == k);
                assert(w <= v);
                assert(prev[w] == ops[w]);
                assert forall|j: int| 0 <= j < w implies insert_key(#[trigger] prev[j]) != k by {
                    assert(prev[j] == ops[j]);
                }
            }
            assert(first_is_file(ops, k) == first_is_file(prev, k));
        } else if insert_key(op) == k {
            assert forall|j: int| 0 <= j < n implies insert_key(#[trigger] ops[j]) != k by {
                assert(prev[j] == ops[j]);
            }
            if op is File {
                assert(first_is_file(ops, k));
            } else {
                assert(!first_is_file(ops, k));
            }
        }
        // which lines are recorded
        assert forall|l: LineNumber| #[trigger] records_line(ops, k, l) == (records_line(prev, k, l)
            || (op == IndexInsert::Line(op->Line_0, l) && path_components_of(op->Line_0) == k)) by {
            if records_line(prev, k, l) {
                let w = choose|i: int|
                    0 <= i < prev.len() && #[trigger] prev[i] == IndexInsert::Line(prev[i]->Line_0, l)
                        && path_components_of(prev[i]->Line_0) == k;
                assert(ops[w] == prev[w]);
            }
            if op == IndexInsert::Line(op->Line_0, l) && path_components_of(op->Line_0) == k {
                assert(ops[n] == op);
            }
            if records_line(ops, k, l) {
                let w = choose|i: int|
                    0 <= i < ops.len() && #[trigger] ops[i] == IndexInsert::Line(ops[i]->Line_0, l)
                        && path_components_of(ops[i]->Line_0) == k;
                if w < n {
                    assert(prev[w] == ops[w]);
                }
            }
        }
        if names(ops, k) && !names(prev, k) {
            assert forall|l: LineNumber| !records_line(prev, k, l) by {
                if records_line(prev, k, l) {
                    let w = choose|i: int|
                        0 <= i < prev.len() && #[trigger] prev[i] == IndexInsert::Line(prev[i]->Line_0, l)
                            && path_components_of(prev[i]->Line_0) == k;
                    assert(insert_key(prev[w]) == k);
                }
            }
        }
    }
}

/// Over any history of recordings made since `FileIndex::new`: a path is in
/// the index exactly when some recording named it, and a range of it
/// matches exactly when the first recording of that path was
/// `insert_file`, or some `insert_line` of that path falls in the range.
/// Paths are told apart by their components.
pub proof fn law_index_history(
    ops: Seq<IndexInsert>,
    path: Seq<char>,
    start: LineNumber,
    end: LineNumber,
)
    ensures
        index_after(ops).contains_key(path_components_of(path)) == names(
            ops,
            path_components_of(path),
        ),
        index_matches(index_after(ops), path_components_of(path), start, end) == (first_is_file(
            ops,
            path_components_of(path),
        ) || exists|l: LineNumber|
            in_range(l, start, end) && #[trigger] records_line(ops, path_components_of(path), l)),
{
    let k = path_components_of(path);
    lemma_index_after(ops, k);
    if first_is_file(ops, k) {
        let w = choose|i: int|
            0 <= i < ops.len() && insert_key(#[trigger] ops[i]) == k && ops[i] is File
                && forall|j: int| 0 <= j < i ==> insert_key(#[trigger] ops[j]) != k;
        assert(names(ops, k));
    }
    if exists|l: LineNumber| in_range(l, start, end) && #[trigger] records_line(ops, k, l) {
        let l = choose|l: LineNumber| in_range(l, start, end) && #[trigger] records_line(ops, k, l);
        let w = choose|i: int|
            0 <= i < ops.len() && #[trigger] ops[i] == IndexInsert::Line(ops[i]->Line_0, l)
                && path_components_of(ops[i]->Line_0) == k;
        assert(insert_key(ops[w]) == k);
        assert(index_after(ops)[k].line_numbers.contains(l));
    }
    if index_matches(index_after(ops), k, start, end) && !index_after(ops)[k].new_file {
        let l = choose|n: LineNumber| in_range(n, start, end) && #[trigger] index_after(ops)[k].line_numbers.contains(n);
        assert(records_line(ops, k, l));
    }
}

} // verus!
