use crate::analysis::{
    issues_view, lint_issue, new_lint_issue, range_of, Issue, IssueView, Level, Location,
    LocationView, Range,
};
use crate::text::{
    chars_of, lines, lines_of, str_eq, string_from_chars, to_string, trim, trim_chars,
};
use vstd::prelude::*;

verus! {

/// The parser of mypy's JSON output, one message per line.
#[derive(Debug, Clone)]
pub struct Mypy {}

/// One message of mypy's JSON output.
#[derive(Debug, Clone)]
pub struct MypyMessage {
    pub file: String,
    pub line: u32,
    pub column: i32,
    pub message: String,
    pub code: Option<String>,
    pub severity: String,
}

/// The lines of `output` with surrounding white space removed, blank ones
/// left out: each holds one JSON message.
pub open spec fn message_lines(ls: Seq<Seq<char>>) -> Seq<Seq<char>>
    decreases ls.len(),
{
    if ls.len() == 0 {
        seq![]
    } else if trim(ls.last()).len() == 0 {
        message_lines(ls.drop_last())
    } else {
        message_lines(ls.drop_last()).push(trim(ls.last()))
    }
}

/// The non-blank lines of mypy's output, trimmed, each holding one message.
pub fn json_lines(output: &str) -> (r: Vec<String>)
    ensures
        r@.map_values(|s: String| s@) == message_lines(lines(output@)),
{
    let chars = chars_of(output);
    let ls = lines_of(chars.as_slice());
    let ghost l = lines(output@);
    let mut r: Vec<String> = Vec::new();
    let mut i: usize = 0;
    while i < ls.len()
        invariant
            i <= ls@.len(),
            ls@.len() == l.len(),
            forall|k: int| 0 <= k < ls@.len() ==> #[trigger] ls@[k]@ == l[k],
            r@.map_values(|s: String| s@) == message_lines(l.take(i as int)),
        decreases ls@.len() - i,
    {
        let t = trim_chars(ls[i].as_slice());
        assert(l.take(i + 1).drop_last() == l.take(i as int));
        if t.len() > 0 {
            let ghost before = r@;
            r.push(string_from_chars(t.as_slice()));
            assert(r@.map_values(|s: String| s@) =~= before.map_values(|s: String| s@).push(t@));
        }
        i = i + 1;
    }
    assert(l.take(l.len() as int) == l);
    r
}

/// The one-based column of a mypy column: mypy counts from zero and gives
/// -1 when there is no column; the result is at least 1.
pub open spec fn normalized_column(column: i32) -> u32 {
    if column > 0 {
        (column + 1) as u32
    } else {
        1
    }
}

/// The one-based column of a mypy column.
pub fn normalize_column(column: i32) -> (c: u32)
    requires
        column < i32::MAX,
    ensures
        c == normalized_column(column),
        c >= 1,
{
    if column > 0 {
        (column + 1) as u32
    } else {
        1
    }
}

/// The level of a mypy severity: `error` high, `warning` medium, any other
/// low.
pub open spec fn mypy_level(severity: Seq<char>) -> Level {
    if severity == "error"@ {
        Level::High
    } else if severity == "warning"@ {
        Level::Medium
    } else {
        Level::Low
    }
}

/// The level of a mypy severity.
pub fn severity_to_level(severity: &str) -> (level: Level)
    ensures
        level == mypy_level(severity@),
{
    if str_eq(severity, "error") {
        Level::High
    } else if str_eq(severity, "warning") {
        Level::Medium
    } else {
        Level::Low
    }
}

/// The rule of a mypy message: its code, or `mypy_issue` when the code is
/// missing or blank.
pub open spec fn mypy_rule(code: Option<String>) -> Seq<char> {
    match code {
        Some(c) if trim(c@).len() > 0 => c@,
        _ => "mypy_issue"@,
    }
}

/// The issue a mypy message stands for.
pub open spec fn mypy_issue(tool: Seq<char>, m: MypyMessage) -> IssueView {
    lint_issue(
        tool,
        mypy_rule(m.code),
        m.message@,
        mypy_level(m.severity@),
        Some(
            LocationView {
                path: m.file@,
                range: Some(range_of(m.line, normalized_column(m.column), 0, 0)),
            },
        ),
    )
}

/// Whether every column of `ms` can be made one-based.
pub open spec fn columns_fit(ms: Seq<MypyMessage>) -> bool {
    forall|i: int| 0 <= i < ms.len() ==> (#[trigger] ms[i]).column < i32::MAX
}

fn message_issue(plugin_name: &str, m: &MypyMessage) -> (issue: Issue)
    requires
        m.column < i32::MAX,
    ensures
        issue@ == mypy_issue(plugin_name@, *m),
{
    let start_column = normalize_column(m.column);
    let rule_key = match &m.code {
        Some(code) => {
            let c = chars_of(code.as_str());
            let t = trim_chars(c.as_slice());
            if t.len() > 0 {
                code.clone()
            } else {
                to_string("mypy_issue")
            }
        },
        None => to_string("mypy_issue"),
    };
    new_lint_issue(
        to_string(plugin_name),
        rule_key,
        m.message.clone(),
        severity_to_level(m.severity.as_str()),
        Some(
            Location {
                path: m.file.clone(),
                range: Some(
                    Range { start_line: m.line, start_column, end_line: 0, end_column: 0 },
                ),
            },
        ),
    )
}

impl Mypy {
    /// The issues of mypy's messages, one each, in order.
    pub fn parse(&self, plugin_name: &str, messages: &[MypyMessage]) -> (issues: Vec<Issue>)
        requires
            columns_fit(messages@),
        ensures
            issues_view(issues@) == messages@.map_values(|m: MypyMessage| mypy_issue(plugin_name@, m)),
    {
        let mut issues: Vec<Issue> = Vec::new();
        let mut i: usize = 0;
        while i < messages.len()
            invariant
                i <= messages@.len(),
                columns_fit(messages@),
                issues_view(issues@) == messages@.take(i as int).map_values(
                    |m: MypyMessage| mypy_issue(plugin_name@, m),
                ),
            decreases messages@.len() - i,
        {
            let issue = message_issue(plugin_name, &messages[i]);
            let ghost before = issues@;
            issues.push(issue);
            assert(issues_view(issues@) =~= issues_view(before).push(issue@));
            assert(messages@.take(i + 1).map_values(|m: MypyMessage| mypy_issue(plugin_name@, m))
                =~= messages@.take(i as int).map_values(|m: MypyMessage| mypy_issue(plugin_name@, m)).push(
                mypy_issue(plugin_name@, messages@[i as int]),
            ));
            i = i + 1;
        }
        assert(messages@.take(messages@.len() as int) == messages@);
        issues
    }
}

} // verus!
