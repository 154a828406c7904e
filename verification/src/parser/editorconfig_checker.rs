use crate::analysis::{
    issues_view, lint_issue, new_lint_issue, range_of, Issue, IssueView, Level, Location,
    LocationView, Range,
};
use crate::text::{chars_of, chars_start_with, starts_with, str_eq, to_string};
use vstd::prelude::*;

verus! {

/// One issue of editorconfig-checker's Code Climate output.
#[derive(Debug, Clone)]
pub struct CodeClimateIssue {
    pub description: String,
    pub severity: String,
    pub location: CodeClimateLocation,
}

/// The file and lines of an issue.
#[derive(Debug, Clone)]
pub struct CodeClimateLocation {
    pub path: String,
    pub lines: CodeClimateLines,
}

/// The first line of an issue, and how many more identical errors follow.
#[derive(Debug, Clone, Copy)]
pub struct CodeClimateLines {
    pub begin: i64,
    pub end: i64,
}

/// The parser of editorconfig-checker's output.
#[derive(Debug, Clone)]
pub struct EditorconfigChecker {}

/// The editorconfig property a description is about, by its beginning.
pub open spec fn rule_key_text(d: Seq<char>) -> Seq<char> {
    if starts_with(d, "Trailing whitespace"@) {
        "trim_trailing_whitespace"@
    } else if starts_with(d, "Wrong indent style"@) {
        "indent_style"@
    } else if starts_with(d, "Wrong amount of left-padding"@) {
        "indent_size"@
    } else if starts_with(d, "Final newline expected"@) || starts_with(
        d,
        "No final newline expected"@,
    ) {
        "insert_final_newline"@
    } else if starts_with(d, "Line too long"@) {
        "max_line_length"@
    } else if starts_with(d, "Wrong line endings"@) || starts_with(
        d,
        "Not all lines have the correct end of line"@,
    ) {
        "end_of_line"@
    } else if starts_with(d, "Wrong character encoding"@) {
        "charset"@
    } else {
        "unknown"@
    }
}

fn begins(d: &[char], p: &str) -> (r: bool)
    ensures
        r == starts_with(d@, p@),
{
    let pc = chars_of(p);
    chars_start_with(d, pc.as_slice())
}

/// The editorconfig property a description is about.
pub fn derive_rule_key(description: &str) -> (key: String)
    ensures
        key@ == rule_key_text(description@),
{
    let d = chars_of(description);
    let d = d.as_slice();
    if begins(d, "Trailing whitespace") {
        to_string("trim_trailing_whitespace")
    } else if begins(d, "Wrong indent style") {
        to_string("indent_style")
    } else if begins(d, "Wrong amount of left-padding") {
        to_string("indent_size")
    } else if begins(d, "Final newline expected") || begins(d, "No final newline expected") {
        to_string("insert_final_newline")
    } else if begins(d, "Line too long") {
        to_string("max_line_length")
    } else if begins(d, "Wrong line endings") || begins(
        d,
        "Not all lines have the correct end of line",
    ) {
        to_string("end_of_line")
    } else if begins(d, "Wrong character encoding") {
        to_string("charset")
    } else {
        to_string("unknown")
    }
}

/// The level of a Code Climate severity.
pub open spec fn editorconfig_level(severity: Seq<char>) -> Level {
    if severity == "blocker"@ || severity == "critical"@ {
        Level::High
    } else if severity == "major"@ {
        Level::Medium
    } else if severity == "info"@ || severity == "minor"@ {
        Level::Low
    } else {
        Level::Medium
    }
}

/// The level of a Code Climate severity.
pub fn severity_to_level(severity: &str) -> (level: Level)
    ensures
        level == editorconfig_level(severity@),
{
    if str_eq(severity, "blocker") || str_eq(severity, "critical") {
        Level::High
    } else if str_eq(severity, "major") {
        Level::Medium
    } else if str_eq(severity, "info") || str_eq(severity, "minor") {
        Level::Low
    } else {
        Level::Medium
    }
}

/// The first line of an issue: its `begin`, negative values (unknown
/// locations) clamped to zero.
pub open spec fn start_line_of(l: CodeClimateLines) -> u32 {
    (if l.begin > 0 {
        l.begin
    } else {
        0
    }) as u32
}

/// The last line of an issue: `end` counts the identical errors after the
/// first, so the last line is `begin + end`, clamped to zero; without such
/// errors it is the first line.
pub open spec fn end_line_of(l: CodeClimateLines) -> u32 {
    if l.end > 0 {
        (if l.begin + l.end > 0 {
            l.begin + l.end
        } else {
            0
        }) as u32
    } else {
        start_line_of(l)
    }
}

/// The issue a Code Climate issue stands for.
pub open spec fn editorconfig_issue(m: CodeClimateIssue) -> IssueView {
    lint_issue(
        "editorconfig-checker"@,
        rule_key_text(m.description@),
        m.description@,
        editorconfig_level(m.severity@),
        Some(
            LocationView {
                path: m.location.path@,
                range: Some(
                    range_of(start_line_of(m.location.lines), 0, end_line_of(m.location.lines), 0),
                ),
            },
        ),
    )
}

/// Whether the last line of an issue can be computed without overflow.
pub open spec fn lines_fit(l: CodeClimateLines) -> bool {
    l.end > 0 ==> i64::MIN <= l.begin + l.end <= i64::MAX
}

fn issue_of(m: &CodeClimateIssue) -> (issue: Issue)
    requires
        lines_fit(m.location.lines),
    ensures
        issue@ == editorconfig_issue(*m),
{
    let l = m.location.lines;
    let start_line = (if l.begin > 0 {
        l.begin
    } else {
        0
    }) as u32;
    let end_line = if l.end > 0 {
        let last = l.begin + l.end;
        (if last > 0 {
            last
        } else {
            0
        }) as u32
    } else {
        start_line
    };
    new_lint_issue(
        to_string("editorconfig-checker"),
        derive_rule_key(m.description.as_str()),
        m.description.clone(),
        severity_to_level(m.severity.as_str()),
        Some(
            Location {
                path: m.location.path.clone(),
                range: Some(Range { start_line, start_column: 0, end_line, end_column: 0 }),
            },
        ),
    )
}

impl EditorconfigChecker {
    /// The issues of editorconfig-checker's output, one each, in order.
    pub fn parse(&self, _plugin_name: &str, messages: &[CodeClimateIssue]) -> (issues: Vec<Issue>)
        requires
            forall|i: int| 0 <= i < messages@.len() ==> lines_fit(#[trigger] messages@[i].location.lines),
        ensures
            issues_view(issues@) == messages@.map_values(|m: CodeClimateIssue| editorconfig_issue(m)),
    {
        let mut issues: Vec<Issue> = Vec::new();
        let mut i: usize = 0;
        while i < messages.len()
            invariant
                i <= messages@.len(),
                forall|j: int| 0 <= j < messages@.len() ==> lines_fit(#[trigger] messages@[j].location.lines),
                issues_view(issues@) == messages@.take(i as int).map_values(
                    |m: CodeClimateIssue| editorconfig_issue(m),
                ),
            decreases messages@.len() - i,
        {
            let issue = issue_of(&messages[i]);
            let ghost before = issues@;
            issues.push(issue);
            assert(issues_view(issues@) =~= issues_view(before).push(issue@));
            assert(messages@.take(i + 1).map_values(|m: CodeClimateIssue| editorconfig_issue(m))
                =~= messages@.take(i as int).map_values(
                |m: CodeClimateIssue| editorconfig_issue(m),
            ).push(editorconfig_issue(messages@[i as int])));
            i = i + 1;
        }
        assert(messages@.take(messages@.len() as int) == messages@);
        issues
    }
}

} // verus!
