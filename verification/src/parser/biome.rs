use crate::analysis::{
    issues_view, lint_issue, location_view, new_lint_issue, range_of, Issue, IssueView, Level,
    Location, LocationView, Range,
};
use crate::text::{chars_of, lines, lines_of, str_eq, to_string, utf8_len, utf8_len_u64};
use vstd::prelude::*;

verus! {

/// The JSON report of Biome.
#[derive(Debug, Clone)]
pub struct BiomeOutput {
    pub diagnostics: Vec<BiomeDiagnostic>,
}

/// One diagnostic of a Biome report.
#[derive(Debug, Clone)]
pub struct BiomeDiagnostic {
    pub category: String,
    pub severity: String,
    pub description: String,
    pub location: BiomeLocation,
}

/// Where a Biome diagnostic is: the file, the byte span and the source.
#[derive(Debug, Clone)]
pub struct BiomeLocation {
    pub path: BiomePath,
    pub span: Option<Vec<u64>>,
    pub source_code: Option<String>,
}

/// The file of a Biome diagnostic.
#[derive(Debug, Clone)]
pub struct BiomePath {
    pub file: String,
}

/// The parser of Biome reports.
#[derive(Debug, Clone)]
pub struct Biome {}

/// The byte offset at which line `k` of `ls` begins, each line counted with
/// one byte for its newline.
pub open spec fn line_offset(ls: Seq<Seq<char>>, k: int) -> int
    decreases k,
{
    if k <= 0 {
        0
    } else {
        line_offset(ls, k - 1) + utf8_len(ls[k - 1]) + 1
    }
}

/// Whether line `k` of `ls`, its newline included, holds byte `offset`.
pub open spec fn line_holds(ls: Seq<Seq<char>>, k: int, offset: int) -> bool {
    line_offset(ls, k) <= offset < line_offset(ls, k + 1)
}

/// The one-based line and column of byte `offset` among the lines `ls`:
/// the line whose bytes (its newline included) hold the offset, or
/// `(0, 0)` when none does.
pub open spec fn locate_offset(ls: Seq<Seq<char>>, offset: int) -> (u32, u32) {
    if exists|k: int| 0 <= k < ls.len() && #[trigger] line_holds(ls, k, offset) {
        let k = choose|k: int| 0 <= k < ls.len() && #[trigger] line_holds(ls, k, offset);
        ((k + 1) as u32, (offset - line_offset(ls, k) + 1) as u32)
    } else {
        (0, 0)
    }
}

/// The source positions of the byte offsets `start` and `end` in
/// `source_code`: start line, start column, end line, end column.
pub open spec fn line_and_column(source_code: Seq<char>, start: u64, end: u64) -> (u32, u32, u32, u32) {
    let ls = lines(source_code);
    let (sl, sc) = locate_offset(ls, start as int);
    let (el, ec) = locate_offset(ls, end as int);
    (sl, sc, el, ec)
}

/// Whether the line offsets of `source_code` fit the integer types that
/// hold them.
pub open spec fn offsets_fit(source_code: Seq<char>) -> bool {
    let ls = lines(source_code);
    ls.len() < u32::MAX && line_offset(ls, ls.len() as int) <= u64::MAX
}

proof fn lemma_line_offset_increasing(ls: Seq<Seq<char>>, a: int, b: int)
    requires
        0 <= a <= b,
    ensures
        line_offset(ls, a) <= line_offset(ls, b),
        a < b ==> line_offset(ls, a) < line_offset(ls, b),
    decreases b - a,
{
    if a < b {
        lemma_line_offset_increasing(ls, a, b - 1);
    }
}

proof fn lemma_locate_unique(ls: Seq<Seq<char>>, offset: int, k: int)
    requires
        0 <= k < ls.len(),
        line_offset(ls, k) <= offset < line_offset(ls, k + 1),
    ensures
        locate_offset(ls, offset) == ((k + 1) as u32, (offset - line_offset(ls, k) + 1) as u32),
{
    assert(line_holds(ls, k, offset));
    let w = choose|j: int| 0 <= j < ls.len() && #[trigger] line_holds(ls, j, offset);
    if w < k {
        lemma_line_offset_increasing(ls, w + 1, k);
    } else if w > k {
        lemma_line_offset_increasing(ls, k + 1, w);
    }
}

proof fn lemma_locate_none(ls: Seq<Seq<char>>, offset: int, n: int)
    requires
        0 <= n <= ls.len(),
        forall|k: int| 0 <= k < n ==> !#[trigger] line_holds(ls, k, offset),
        offset < line_offset(ls, n) || n == ls.len(),
    ensures
        n == ls.len() ==> locate_offset(ls, offset) == (0u32, 0u32),
{
    if n == ls.len() {
        assert(!exists|k: int| 0 <= k < ls.len() && #[trigger] line_holds(ls, k, offset));
    }
}

/// The source positions of the byte offsets `start_offset` and
/// `end_offset` in `source_code`.
pub fn calculate_line_and_column(source_code: &str, start_offset: u64, end_offset: u64) -> (r: (
    u32,
    u32,
    u32,
    u32,
))
    requires
        offsets_fit(source_code@),
    ensures
        r == line_and_column(source_code@, start_offset, end_offset),
{
    let chars = chars_of(source_code);
    let ls = lines_of(chars.as_slice());
    let ghost l = lines(source_code@);
    let mut current_offset: u64 = 0;
    let mut start: Option<(u32, u32)> = None;
    let mut end: Option<(u32, u32)> = None;
    let mut i: usize = 0;
    while i < ls.len()
        invariant
            i <= ls@.len(),
            ls@.len() == l.len(),
            l == lines(source_code@),
            offsets_fit(source_code@),
            forall|k: int| 0 <= k < ls@.len() ==> #[trigger] ls@[k]@ == l[k],
            current_offset == line_offset(l, i as int),
            match start {
                Some(p) => p == locate_offset(l, start_offset as int),
                None => forall|k: int| 0 <= k < i ==> !#[trigger] line_holds(l, k, start_offset as int),
            },
            match end {
                Some(p) => p == locate_offset(l, end_offset as int),
                None => forall|k: int| 0 <= k < i ==> !#[trigger] line_holds(l, k, end_offset as int),
            },
        ensures
            (start is None || end is None) ==> i == ls@.len(),
            match start {
                Some(p) => p == locate_offset(l, start_offset as int),
                None => forall|k: int| 0 <= k < i ==> !#[trigger] line_holds(l, k, start_offset as int),
            },
            match end {
                Some(p) => p == locate_offset(l, end_offset as int),
                None => forall|k: int| 0 <= k < i ==> !#[trigger] line_holds(l, k, end_offset as int),
            },
            i <= ls@.len(),
        decreases ls@.len() - i,
    {
        proof {
            lemma_line_offset_increasing(l, i + 1, l.len() as int);
        }
        let bytes = utf8_len_u64(ls[i].as_slice());
        let line_length: u64 = bytes + 1;
        if start.is_none() && current_offset <= start_offset && start_offset < current_offset
            + line_length {
            proof {
                lemma_locate_unique(l, start_offset as int, i as int);
            }
            start = Some(((i as u32) + 1, #[verifier::truncate] ((start_offset - current_offset + 1) as u32)));
        }
        if end.is_none() && current_offset <= end_offset && end_offset < current_offset
            + line_length {
            proof {
                lemma_locate_unique(l, end_offset as int, i as int);
            }
            end = Some(((i as u32) + 1, #[verifier::truncate] ((end_offset - current_offset + 1) as u32)));
        }
        current_offset = current_offset + line_length;
        i = i + 1;
        if start.is_some() && end.is_some() {
            break ;
        }
    }
    proof {
        if start is None {
            lemma_locate_none(l, start_offset as int, i as int);
        }
        if end is None {
            lemma_locate_none(l, end_offset as int, i as int);
        }
    }
    let (sl, sc) = match start {
        Some(p) => p,
        None => (0, 0),
    };
    let (el, ec) = match end {
        Some(p) => p,
        None => (0, 0),
    };
    (sl, sc, el, ec)
}

/// The level of a Biome severity: `error` is high, anything else medium.
pub open spec fn biome_level(severity: Seq<char>) -> Level {
    if severity == "warning"@ {
        Level::Medium
    } else if severity == "error"@ {
        Level::High
    } else {
        Level::Medium
    }
}

/// The level of a Biome severity.
pub fn severity_to_level(severity: String) -> (level: Level)
    ensures
        level == biome_level(severity@),
{
    if str_eq(severity.as_str(), "warning") {
        Level::Medium
    } else if str_eq(severity.as_str(), "error") {
        Level::High
    } else {
        Level::Medium
    }
}

/// The range of a Biome location: none without source code; from the first
/// two offsets of the span otherwise, all zero when the span has fewer.
pub open spec fn biome_range(loc: BiomeLocation) -> Option<Range> {
    match loc.source_code {
        None => None,
        Some(sc) => {
            let span = match loc.span {
                Some(v) => v@,
                None => seq![],
            };
            if span.len() >= 2 {
                let (a, b, c, d) = line_and_column(sc@, span[0], span[1]);
                Some(range_of(a, b, c, d))
            } else {
                Some(range_of(0, 0, 0, 0))
            }
        },
    }
}

/// The issue a Biome diagnostic stands for.
pub open spec fn biome_issue(d: BiomeDiagnostic) -> IssueView {
    lint_issue(
        "biome"@,
        d.category@,
        d.description@,
        biome_level(d.severity@),
        Some(LocationView { path: d.location.path.file@, range: biome_range(d.location) }),
    )
}

/// Whether a Biome diagnostic is about formatting, which is not reported.
pub open spec fn is_format(d: BiomeDiagnostic) -> bool {
    d.category@ == "format"@
}

/// The issues of a list of Biome diagnostics: one for each that is not
/// about formatting, in order.
pub open spec fn biome_issues(ds: Seq<BiomeDiagnostic>) -> Seq<IssueView>
    decreases ds.len(),
{
    if ds.len() == 0 {
        seq![]
    } else if is_format(ds.last()) {
        biome_issues(ds.drop_last())
    } else {
        biome_issues(ds.drop_last()).push(biome_issue(ds.last()))
    }
}

/// Whether the source code of every diagnostic fits the offset types.
pub open spec fn biome_sources_fit(ds: Seq<BiomeDiagnostic>) -> bool {
    forall|i: int|
        0 <= i < ds.len() ==> match (#[trigger] ds[i]).location.source_code {
            Some(sc) => offsets_fit(sc@),
            None => true,
        }
}

fn diagnostic_range(loc: &BiomeLocation) -> (r: Option<Range>)
    requires
        match loc.source_code {
            Some(sc) => offsets_fit(sc@),
            None => true,
        },
    ensures
        r == biome_range(*loc),
{
    match &loc.source_code {
        None => None,
        Some(source_code) => {
            let (a, b, c, d) = match &loc.span {
                Some(span) if span.len() >= 2 => calculate_line_and_column(
                    source_code.as_str(),
                    span[0],
                    span[1],
                ),
                _ => (0, 0, 0, 0),
            };
            Some(Range { start_line: a, start_column: b, end_line: c, end_column: d })
        },
    }
}

fn diagnostic_issue(d: &BiomeDiagnostic) -> (issue: Issue)
    requires
        match d.location.source_code {
            Some(sc) => offsets_fit(sc@),
            None => true,
        },
    ensures
        issue@ == biome_issue(*d),
{
    let range = diagnostic_range(&d.location);
    let location = Location { path: d.location.path.file.clone(), range };
    new_lint_issue(
        to_string("biome"),
        d.category.clone(),
        d.description.clone(),
        severity_to_level(d.severity.clone()),
        Some(location),
    )
}

impl Biome {
    /// The issues of a Biome report: every diagnostic but those about
    /// formatting, located by line and column in its source code.
    pub fn parse(&self, _plugin_name: &str, output: &BiomeOutput) -> (issues: Vec<Issue>)
        requires
            biome_sources_fit(output.diagnostics@),
        ensures
            issues_view(issues@) == biome_issues(output.diagnostics@),
    {
        let ghost ds = output.diagnostics@;
        let mut issues: Vec<Issue> = Vec::new();
        let mut i: usize = 0;
        while i < output.diagnostics.len()
            invariant
                i <= ds.len(),
                ds == output.diagnostics@,
                biome_sources_fit(ds),
                issues_view(issues@) == biome_issues(ds.take(i as int)),
            decreases ds.len() - i,
        {
            let d = &output.diagnostics[i];
            assert(ds.take(i + 1).drop_last() == ds.take(i as int));
            assert(ds.take(i + 1).last() == ds[i as int]);
            if !str_eq(d.category.as_str(), "format") {
                let issue = diagnostic_issue(d);
                let ghost before = issues@;
                issues.push(issue);
                assert(issues_view(issues@) =~= issues_view(before).push(issue@));
            }
            i = i + 1;
        }
        assert(ds.take(ds.len() as int) == ds);
        issues
    }
}

} // verus!
