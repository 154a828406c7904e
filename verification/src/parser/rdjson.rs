use crate::analysis::{
    issues_view, location_view, range_of, Category, Issue, IssueView, Level, Location,
    LocationView, Range, Replacement, ReplacementView, Suggestion, SuggestionSource,
    SuggestionView,
};
use crate::text::{str_eq, to_string};
use vstd::prelude::*;

verus! {

/// A Reviewdog Diagnostic Format (rdjson) report.
#[derive(Debug, Clone)]
pub struct RdjsonOutput {
    pub severity: Option<String>,
    pub diagnostics: Vec<RdjsonDiagnostic>,
}

/// One diagnostic of an rdjson report.
#[derive(Debug, Clone)]
pub struct RdjsonDiagnostic {
    pub message: String,
    pub location: RdjsonLocation,
    pub severity: Option<String>,
    pub code: Option<RdjsonCode>,
    pub suggestions: Vec<RdjsonSuggestion>,
}

/// The rule of a diagnostic and where it is documented.
#[derive(Debug, Clone)]
pub struct RdjsonCode {
    pub value: String,
    pub url: Option<String>,
}

/// The file of a diagnostic and optionally its span.
#[derive(Debug, Clone)]
pub struct RdjsonLocation {
    pub path: String,
    pub range: Option<RdjsonRange>,
}

/// A span: its start and optionally its end.
#[derive(Debug, Clone, Copy)]
pub struct RdjsonRange {
    pub start: RdjsonPosition,
    pub end: Option<RdjsonPosition>,
}

/// A line and optionally a column.
#[derive(Debug, Clone, Copy)]
pub struct RdjsonPosition {
    pub line: u32,
    pub column: Option<u32>,
}

/// A fix: text that replaces a span.
#[derive(Debug, Clone)]
pub struct RdjsonSuggestion {
    pub range: RdjsonRange,
    pub text: String,
}

/// The parser of rdjson reports.
#[derive(Debug, Clone)]
pub struct Rdjson {}

/// The column of a position, zero when it has none.
pub open spec fn column_or_zero(c: Option<u32>) -> u32 {
    match c {
        Some(x) => x,
        None => 0,
    }
}

/// The range of an rdjson span; a span without an end ends where it starts.
pub open spec fn rdjson_range(r: RdjsonRange) -> Range {
    let end = match r.end {
        Some(e) => e,
        None => r.start,
    };
    range_of(r.start.line, column_or_zero(r.start.column), end.line, column_or_zero(end.column))
}

/// The range of an rdjson span.
pub fn build_range(range: &RdjsonRange) -> (r: Range)
    ensures
        r == rdjson_range(*range),
{
    let end = match range.end {
        Some(e) => e,
        None => range.start,
    };
    Range {
        start_line: range.start.line,
        start_column: match range.start.column {
            Some(c) => c,
            None => 0,
        },
        end_line: end.line,
        end_column: match end.column {
            Some(c) => c,
            None => 0,
        },
    }
}

/// The suggestion an rdjson fix stands for: from the tool, marked unsafe
/// because rdjson does not say whether a fix is safe to apply, with one
/// replacement in file `path`.
pub open spec fn rdjson_suggestion(path: Seq<char>, s: RdjsonSuggestion) -> SuggestionView {
    SuggestionView {
        source: SuggestionSource::Tool,
        is_unsafe: true,
        replacements: seq![
            ReplacementView {
                data: s.text@,
                location: Some(LocationView { path, range: Some(rdjson_range(s.range)) }),
            },
        ],
    }
}

/// The suggestions of rdjson fixes in file `path`, one each, in order.
pub fn build_suggestions(suggestions: &[RdjsonSuggestion], path: &str) -> (r: Vec<Suggestion>)
    ensures
        r@.map_values(|s: Suggestion| s@) == suggestions@.map_values(
            |s: RdjsonSuggestion| rdjson_suggestion(path@, s),
        ),
{
    let mut r: Vec<Suggestion> = Vec::new();
    let mut i: usize = 0;
    while i < suggestions.len()
        invariant
            i <= suggestions@.len(),
            r@.map_values(|s: Suggestion| s@) == suggestions@.take(i as int).map_values(
                |s: RdjsonSuggestion| rdjson_suggestion(path@, s),
            ),
        decreases suggestions@.len() - i,
    {
        let s = &suggestions[i];
        let mut replacements: Vec<Replacement> = Vec::new();
        replacements.push(
            Replacement {
                data: s.text.clone(),
                location: Some(Location { path: to_string(path), range: Some(build_range(&s.range)) }),
            },
        );
        let suggestion = Suggestion { source: SuggestionSource::Tool, is_unsafe: true, replacements };
        assert(suggestion@.replacements =~= rdjson_suggestion(path@, *s).replacements);
        let ghost before = r@;
        r.push(suggestion);
        assert(r@.map_values(|s: Suggestion| s@) =~= before.map_values(|s: Suggestion| s@).push(
            suggestion@,
        ));
        assert(suggestions@.take(i + 1).map_values(|s: RdjsonSuggestion| rdjson_suggestion(path@, s))
            =~= suggestions@.take(i as int).map_values(
            |s: RdjsonSuggestion| rdjson_suggestion(path@, s),
        ).push(rdjson_suggestion(path@, suggestions@[i as int])));
        i = i + 1;
    }
    assert(suggestions@.take(suggestions@.len() as int) == suggestions@);
    r
}

/// The level of an rdjson severity.
pub open spec fn rdjson_level(severity: Option<Seq<char>>) -> Level {
    match severity {
        Some(s) if s == "ERROR"@ => Level::High,
        Some(s) if s == "WARNING"@ => Level::Medium,
        Some(s) if s == "INFO"@ => Level::Low,
        _ => Level::Medium,
    }
}

/// The text of an optional string.
pub open spec fn opt_text(s: Option<String>) -> Option<Seq<char>> {
    match s {
        Some(x) => Some(x@),
        None => None,
    }
}

/// The level of an rdjson severity.
pub fn severity_to_level(severity: Option<&str>) -> (level: Level)
    ensures
        level == rdjson_level(
            match severity {
                Some(s) => Some(s@),
                None => None,
            },
        ),
{
    match severity {
        Some(s) => if str_eq(s, "ERROR") {
            Level::High
        } else if str_eq(s, "WARNING") {
            Level::Medium
        } else if str_eq(s, "INFO") {
            Level::Low
        } else {
            Level::Medium
        },
        None => Level::Medium,
    }
}

/// The severity of a diagnostic: its own, else the report's.
pub open spec fn effective_severity(d: RdjsonDiagnostic, default: Option<String>) -> Option<
    Seq<char>,
> {
    match d.severity {
        Some(s) => Some(s@),
        None => opt_text(default),
    }
}

/// The issue an rdjson diagnostic stands for.
pub open spec fn rdjson_issue(tool: Seq<char>, default: Option<String>, d: RdjsonDiagnostic) -> IssueView {
    IssueView {
        tool,
        rule_key: match d.code {
            Some(c) => c.value@,
            None => seq![],
        },
        message: d.message@,
        level: rdjson_level(effective_severity(d, default)),
        category: Category::Lint,
        documentation_url: match d.code {
            Some(c) => match c.url {
                Some(u) => u@,
                None => seq![],
            },
            None => seq![],
        },
        location: Some(
            LocationView {
                path: d.location.path@,
                range: match d.location.range {
                    Some(r) => Some(rdjson_range(r)),
                    None => None,
                },
            },
        ),
        suggestions: d.suggestions@.map_values(
            |s: RdjsonSuggestion| rdjson_suggestion(d.location.path@, s),
        ),
    }
}

fn diagnostic_issue(plugin_name: &str, default: &Option<String>, d: &RdjsonDiagnostic) -> (issue:
    Issue)
    ensures
        issue@ == rdjson_issue(plugin_name@, *default, *d),
{
    let severity: Option<&str> = match &d.severity {
        Some(s) => Some(s.as_str()),
        None => match default {
            Some(s) => Some(s.as_str()),
            None => None,
        },
    };
    let (rule_key, documentation_url) = match &d.code {
        Some(c) => (
            c.value.clone(),
            match &c.url {
                Some(u) => u.clone(),
                None => String::new(),
            },
        ),
        None => (String::new(), String::new()),
    };
    let range = match &d.location.range {
        Some(r) => Some(build_range(r)),
        None => None,
    };
    let issue = Issue {
        tool: to_string(plugin_name),
        rule_key,
        message: d.message.clone(),
        level: severity_to_level(severity),
        category: Category::Lint,
        documentation_url,
        location: Some(Location { path: d.location.path.clone(), range }),
        suggestions: build_suggestions(d.suggestions.as_slice(), d.location.path.as_str()),
    };
    issue
}

impl Rdjson {
    /// The issues of an rdjson report, one for each diagnostic, in order.
    pub fn parse(&self, plugin_name: &str, output: &RdjsonOutput) -> (issues: Vec<Issue>)
        ensures
            issues_view(issues@) == output.diagnostics@.map_values(
                |d: RdjsonDiagnostic| rdjson_issue(plugin_name@, output.severity, d),
            ),
    {
        let ghost ds = output.diagnostics@;
        let mut issues: Vec<Issue> = Vec::new();
        let mut i: usize = 0;
        while i < output.diagnostics.len()
            invariant
                i <= ds.len(),
                ds == output.diagnostics@,
                issues_view(issues@) == ds.take(i as int).map_values(
                    |d: RdjsonDiagnostic| rdjson_issue(plugin_name@, output.severity, d),
                ),
            decreases ds.len() - i,
        {
            let issue = diagnostic_issue(plugin_name, &output.severity, &output.diagnostics[i]);
            let ghost before = issues@;
            issues.push(issue);
            assert(issues_view(issues@) =~= issues_view(before).push(issue@));
            assert(ds.take(i + 1).map_values(
                |d: RdjsonDiagnostic| rdjson_issue(plugin_name@, output.severity, d),
            ) =~= ds.take(i as int).map_values(
                |d: RdjsonDiagnostic| rdjson_issue(plugin_name@, output.severity, d),
            ).push(rdjson_issue(plugin_name@, output.severity, ds[i as int])));
            i = i + 1;
        }
        assert(ds.take(ds.len() as int) == ds);
        issues
    }
}

} // verus!
