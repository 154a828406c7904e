use crate::analysis::{
    issues_view, lint_issue, new_lint_issue, range_of, Issue, IssueView, Level, Location,
    LocationView, Range,
};
use crate::text::{append_chars, chars_of, str_eq, string_from_chars, to_string};
use vstd::prelude::*;

verus! {

/// A zero-based line and column of ast-grep.
#[derive(Debug, Clone, Copy)]
pub struct Position {
    pub line: u32,
    pub column: u32,
}

/// A byte span of ast-grep.
#[derive(Debug, Clone, Copy)]
pub struct ByteOffset {
    pub start: u32,
    pub end: u32,
}

/// A span of ast-grep, in bytes and in lines and columns.
#[derive(Debug, Clone, Copy)]
pub struct AstGrepRange {
    pub byte_offset: ByteOffset,
    pub start: Position,
    pub end: Position,
}

/// A labelled span of a match.
#[derive(Debug, Clone)]
pub struct Label {
    pub text: String,
    pub range: AstGrepRange,
}

/// One match of ast-grep's JSON output.
#[derive(Debug, Clone)]
pub struct AstGrepIssue {
    pub text: String,
    pub range: AstGrepRange,
    pub file: String,
    pub lines: String,
    pub language: String,
    pub rule_id: String,
    pub severity: String,
    pub note: Option<String>,
    pub message: String,
    pub labels: Vec<Label>,
}

/// The parser of ast-grep's JSON output.
#[derive(Debug, Clone)]
pub struct AstGrep {}

/// The level of an ast-grep severity: `error` high, `hint` and `info` low,
/// any other medium.
pub open spec fn ast_grep_level(severity: Seq<char>) -> Level {
    if severity == "error"@ {
        Level::High
    } else if severity == "warning"@ {
        Level::Medium
    } else if severity == "hint"@ || severity == "info"@ {
        Level::Low
    } else {
        Level::Medium
    }
}

/// The message of a match: its own, or one naming the rule when empty.
pub open spec fn ast_grep_message(m: AstGrepIssue) -> Seq<char> {
    if m.message@.len() == 0 {
        "AST pattern match found: "@ + m.rule_id@
    } else {
        m.message@
    }
}

/// The issue a match stands for, its zero-based lines and columns made
/// one-based.
pub open spec fn ast_grep_issue(tool: Seq<char>, m: AstGrepIssue) -> IssueView {
    lint_issue(
        tool,
        m.rule_id@,
        ast_grep_message(m),
        ast_grep_level(m.severity@),
        Some(
            LocationView {
                path: m.file@,
                range: Some(
                    range_of(
                        (m.range.start.line + 1) as u32,
                        (m.range.start.column + 1) as u32,
                        (m.range.end.line + 1) as u32,
                        (m.range.end.column + 1) as u32,
                    ),
                ),
            },
        ),
    )
}

/// Whether the positions of `m` can be made one-based.
pub open spec fn positions_fit(m: AstGrepIssue) -> bool {
    m.range.start.line < u32::MAX && m.range.start.column < u32::MAX && m.range.end.line
        < u32::MAX && m.range.end.column < u32::MAX
}

fn match_issue(plugin_name: &str, m: &AstGrepIssue) -> (issue: Issue)
    requires
        positions_fit(*m),
    ensures
        issue@ == ast_grep_issue(plugin_name@, *m),
{
    let range = Range {
        start_line: m.range.start.line + 1,
        start_column: m.range.start.column + 1,
        end_line: m.range.end.line + 1,
        end_column: m.range.end.column + 1,
    };
    let message = if m.message.as_str().is_empty() {
        let mut t = chars_of("AST pattern match found: ");
        let r = chars_of(m.rule_id.as_str());
        append_chars(&mut t, r.as_slice());
        string_from_chars(t.as_slice())
    } else {
        m.message.clone()
    };
    let level = if str_eq(m.severity.as_str(), "error") {
        Level::High
    } else if str_eq(m.severity.as_str(), "warning") {
        Level::Medium
    } else if str_eq(m.severity.as_str(), "hint") || str_eq(m.severity.as_str(), "info") {
        Level::Low
    } else {
        Level::Medium
    };
    new_lint_issue(
        to_string(plugin_name),
        m.rule_id.clone(),
        message,
        level,
        Some(Location { path: m.file.clone(), range: Some(range) }),
    )
}

impl AstGrep {
    /// The issues of ast-grep's matches, one each, in order.
    pub fn parse(&self, plugin_name: &str, matches: &[AstGrepIssue]) -> (issues: Vec<Issue>)
        requires
            forall|i: int| 0 <= i < matches@.len() ==> positions_fit(#[trigger] matches@[i]),
        ensures
            issues_view(issues@) == matches@.map_values(
                |m: AstGrepIssue| ast_grep_issue(plugin_name@, m),
            ),
    {
        let mut issues: Vec<Issue> = Vec::new();
        let mut i: usize = 0;
        while i < matches.len()
            invariant
                i <= matches@.len(),
                forall|j: int| 0 <= j < matches@.len() ==> positions_fit(#[trigger] matches@[j]),
                issues_view(issues@) == matches@.take(i as int).map_values(
                    |m: AstGrepIssue| ast_grep_issue(plugin_name@, m),
                ),
            decreases matches@.len() - i,
        {
            let issue = match_issue(plugin_name, &matches[i]);
            let ghost before = issues@;
            issues.push(issue);
            assert(issues_view(issues@) =~= issues_view(before).push(issue@));
            assert(matches@.take(i + 1).map_values(|m: AstGrepIssue| ast_grep_issue(plugin_name@, m))
                =~= matches@.take(i as int).map_values(
                |m: AstGrepIssue| ast_grep_issue(plugin_name@, m),
            ).push(ast_grep_issue(plugin_name@, matches@[i as int])));
            i = i + 1;
        }
        assert(matches@.take(matches@.len() as int) == matches@);
        issues
    }
}

} // verus!
