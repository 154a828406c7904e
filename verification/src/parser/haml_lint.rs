use crate::analysis::{
    issues_view, lint_issue, new_lint_issue, range_of, Issue, IssueView, Level, Location,
    LocationView, Range,
};
use crate::text::{str_eq, to_string};
use vstd::prelude::*;

verus! {

/// The parser of HAML-Lint's JSON output.
#[derive(Debug, Clone)]
pub struct HamlLint {}

/// HAML-Lint's JSON output: the files and their offenses.
#[derive(Debug, Clone)]
pub struct HamlLintOutput {
    pub files: Vec<HamlLintFiles>,
}

/// A file and its offenses.
#[derive(Debug, Clone)]
pub struct HamlLintFiles {
    pub path: String,
    pub offenses: Vec<HamlLintOffense>,
}

/// One offense of HAML-Lint.
#[derive(Debug, Clone)]
pub struct HamlLintOffense {
    pub severity: String,
    pub message: String,
    pub location: HamlLintLocation,
    pub linter_name: String,
}

/// The line of an offense.
#[derive(Debug, Clone, Copy)]
pub struct HamlLintLocation {
    pub line: u32,
}

/// The level of a HAML-Lint severity: `error` high, any other medium.
pub open spec fn haml_level(severity: Seq<char>) -> Level {
    if severity == "error"@ {
        Level::High
    } else {
        Level::Medium
    }
}

/// The issue an offense in file `path` stands for.
pub open spec fn haml_issue(tool: Seq<char>, path: Seq<char>, o: HamlLintOffense) -> IssueView {
    lint_issue(
        tool,
        o.linter_name@,
        o.message@,
        haml_level(o.severity@),
        Some(
            LocationView {
                path,
                range: Some(range_of(o.location.line, 0, o.location.line, 0)),
            },
        ),
    )
}

/// The issues of the offenses of one file, in order.
pub open spec fn file_issues(tool: Seq<char>, f: HamlLintFiles) -> Seq<IssueView> {
    f.offenses@.map_values(|o: HamlLintOffense| haml_issue(tool, f.path@, o))
}

/// The issues of all files, file by file, each in order.
pub open spec fn haml_issues(tool: Seq<char>, fs: Seq<HamlLintFiles>) -> Seq<IssueView>
    decreases fs.len(),
{
    if fs.len() == 0 {
        seq![]
    } else {
        haml_issues(tool, fs.drop_last()) + file_issues(tool, fs.last())
    }
}

fn offense_issue(plugin_name: &str, path: &String, o: &HamlLintOffense) -> (issue: Issue)
    ensures
        issue@ == haml_issue(plugin_name@, path@, *o),
{
    let level = if str_eq(o.severity.as_str(), "error") {
        Level::High
    } else {
        Level::Medium
    };
    new_lint_issue(
        to_string(plugin_name),
        o.linter_name.clone(),
        o.message.clone(),
        level,
        Some(
            Location {
                path: path.clone(),
                range: Some(
                    Range {
                        start_line: o.location.line,
                        start_column: 0,
                        end_line: o.location.line,
                        end_column: 0,
                    },
                ),
            },
        ),
    )
}

impl HamlLint {
    /// The issues of every offense of every file, in order.
    pub fn parse(&self, plugin_name: &str, output: &HamlLintOutput) -> (issues: Vec<Issue>)
        ensures
            issues_view(issues@) == haml_issues(plugin_name@, output.files@),
    {
        let ghost fs = output.files@;
        let mut issues: Vec<Issue> = Vec::new();
        let mut i: usize = 0;
        while i < output.files.len()
            invariant
                i <= fs.len(),
                fs == output.files@,
                issues_view(issues@) == haml_issues(plugin_name@, fs.take(i as int)),
            decreases fs.len() - i,
        {
            let file = &output.files[i];
            let ghost start = issues_view(issues@);
            let mut j: usize = 0;
            while j < file.offenses.len()
                invariant
                    j <= file.offenses@.len(),
                    issues_view(issues@) == start + file.offenses@.take(j as int).map_values(
                        |o: HamlLintOffense| haml_issue(plugin_name@, file.path@, o),
                    ),
                decreases file.offenses@.len() - j,
            {
                let issue = offense_issue(plugin_name, &file.path, &file.offenses[j]);
                let ghost before = issues@;
                issues.push(issue);
                assert(issues_view(issues@) =~= issues_view(before).push(issue@));
                assert(file.offenses@.take(j + 1).map_values(
                    |o: HamlLintOffense| haml_issue(plugin_name@, file.path@, o),
                ) =~= file.offenses@.take(j as int).map_values(
                    |o: HamlLintOffense| haml_issue(plugin_name@, file.path@, o),
                ).push(haml_issue(plugin_name@, file.path@, file.offenses@[j as int])));
                j = j + 1;
            }
            assert(file.offenses@.take(file.offenses@.len() as int) == file.offenses@);
            assert(fs.take(i + 1).drop_last() == fs.take(i as int));
            i = i + 1;
        }
        assert(fs.take(fs.len() as int) == fs);
        issues
    }
}

} // verus!
