use crate::analysis::{
    issues_view, lint_issue, new_lint_issue, range_of, Issue, IssueView, Level, Location,
    LocationView, Range,
};
use crate::text::{str_eq, to_string};
use vstd::prelude::*;

verus! {

/// The file and span of a Terraform diagnostic.
#[derive(Debug, Clone)]
pub struct DiagnosticRange {
    pub filename: String,
    pub start: DiagnosticPosition,
    pub end: DiagnosticPosition,
}

/// A line and column of Terraform.
#[derive(Debug, Clone, Copy)]
pub struct DiagnosticPosition {
    pub line: u32,
    pub column: u32,
}

/// One diagnostic of `terraform validate`.
#[derive(Debug, Clone)]
pub struct Diagnostic {
    pub severity: String,
    pub summary: String,
    pub range: Option<DiagnosticRange>,
}

/// The JSON output of `terraform validate`.
#[derive(Debug, Clone)]
pub struct TerraformOutput {
    pub diagnostics: Vec<Diagnostic>,
}

/// The parser of Terraform's validation output.
#[derive(Debug, Clone)]
pub struct Terraform {}

/// The level of a Terraform severity.
pub open spec fn terraform_level(severity: Seq<char>) -> Level {
    if severity == "error"@ {
        Level::High
    } else if severity == "warning"@ {
        Level::Medium
    } else if severity == "info"@ {
        Level::Low
    } else {
        Level::Medium
    }
}

/// The level of a Terraform severity.
pub fn severity_to_level(severity: &str) -> (level: Level)
    ensures
        level == terraform_level(severity@),
        severity@ == "error"@ ==> level == Level::High,
        severity@ == "warning"@ ==> level == Level::Medium,
        severity@ == "info"@ ==> level == Level::Low,
{
    proof {
        law_terraform_levels(severity@);
    }
    if str_eq(severity, "error") {
        Level::High
    } else if str_eq(severity, "warning") {
        Level::Medium
    } else if str_eq(severity, "info") {
        Level::Low
    } else {
        Level::Medium
    }
}

/// The issue a diagnostic stands for: located when it has a range, without
/// a location otherwise.
pub open spec fn terraform_issue(d: Diagnostic) -> IssueView {
    lint_issue(
        "terraform"@,
        seq![],
        d.summary@,
        terraform_level(d.severity@),
        match d.range {
            Some(r) => Some(
                LocationView {
                    path: r.filename@,
                    range: Some(range_of(r.start.line, r.start.column, r.end.line, r.end.column)),
                },
            ),
            None => None,
        },
    )
}

fn diagnostic_issue(d: &Diagnostic) -> (issue: Issue)
    ensures
        issue@ == terraform_issue(*d),
{
    let location = match &d.range {
        Some(r) => Some(
            Location {
                path: r.filename.clone(),
                range: Some(
                    Range {
                        start_line: r.start.line,
                        start_column: r.start.column,
                        end_line: r.end.line,
                        end_column: r.end.column,
                    },
                ),
            },
        ),
        None => None,
    };
    new_lint_issue(
        to_string("terraform"),
        String::new(),
        d.summary.clone(),
        severity_to_level(d.severity.as_str()),
        location,
    )
}

impl Terraform {
    /// The issues of Terraform's diagnostics, one each, in order.
    pub fn parse(&self, _plugin_name: &str, output: &TerraformOutput) -> (issues: Vec<Issue>)
        ensures
            issues_view(issues@) == output.diagnostics@.map_values(|d: Diagnostic| terraform_issue(d)),
    {
        let ghost ds = output.diagnostics@;
        let mut issues: Vec<Issue> = Vec::new();
        let mut i: usize = 0;
        while i < output.diagnostics.len()
            invariant
                i <= ds.len(),
                ds == output.diagnostics@,
                issues_view(issues@) == ds.take(i as int).map_values(|d: Diagnostic| terraform_issue(d)),
            decreases ds.len() - i,
        {
            let issue = diagnostic_issue(&output.diagnostics[i]);
            let ghost before = issues@;
            issues.push(issue);
            assert(issues_view(issues@) =~= issues_view(before).push(issue@));
            assert(ds.take(i + 1).map_values(|d: Diagnostic| terraform_issue(d)) =~= ds.take(
                i as int,
            ).map_values(|d: Diagnostic| terraform_issue(d)).push(terraform_issue(ds[i as int])));
            i = i + 1;
        }
        assert(ds.take(ds.len() as int) == ds);
        issues
    }
}

/// Terraform errors are high, warnings medium and notes of information
/// low; any other severity is medium. Only an error is high and only
/// information is low.
pub proof fn law_terraform_levels(severity: Seq<char>)
    ensures
        terraform_level("error"@) == Level::High,
        terraform_level("warning"@) == Level::Medium,
        terraform_level("info"@) == Level::Low,
        terraform_level(severity) == Level::High <==> severity == "error"@,
        terraform_level(severity) == Level::Low <==> severity == "info"@,
        terraform_level(severity) == Level::Medium <==> (severity != "error"@ && severity != "info"@),
{
    reveal_strlit("error");
    reveal_strlit("warning");
    reveal_strlit("info");
    assert("error"@.len() == 5 && "warning"@.len() == 7 && "info"@.len() == 4);
    assert("warning"@ != "error"@ && "warning"@ != "info"@ && "info"@ != "error"@);
}

} // verus!
