use crate::analysis::{
    issues_view, location_view, range_of, Category, Issue, IssueView, Level, Location,
    LocationView, Range, SuggestionView,
};
use crate::text::{append_chars, chars_of, string_from_chars, to_string, trim, trim_chars};
use vstd::prelude::*;

verus! {

/// The parser of Reek's JSON output.
#[derive(Debug, Clone)]
pub struct Reek {}

/// One smell of Reek's JSON output.
#[derive(Debug, Clone)]
pub struct ReekSmell {
    pub context: String,
    pub lines: Vec<i32>,
    pub message: String,
    pub smell_type: String,
    pub source: String,
    pub documentation_link: String,
}

/// The issue a smell stands for: its context and message as one message,
/// at its first line, with its documentation link.
pub open spec fn reek_issue(tool: Seq<char>, s: ReekSmell) -> IssueView {
    IssueView {
        tool,
        rule_key: s.smell_type@,
        message: trim(s.context@) + " "@ + trim(s.message@),
        level: Level::Medium,
        category: Category::Lint,
        documentation_url: s.documentation_link@,
        location: Some(
            LocationView { path: s.source@, range: Some(range_of(s.lines@[0] as u32, 0, 0, 0)) },
        ),
        suggestions: seq![],
    }
}

fn smell_issue(plugin_name: &str, s: &ReekSmell) -> (issue: Issue)
    requires
        s.lines@.len() > 0,
    ensures
        issue@ == reek_issue(plugin_name@, *s),
{
    let context = chars_of(s.context.as_str());
    let mut message = trim_chars(context.as_slice());
    let space = chars_of(" ");
    append_chars(&mut message, space.as_slice());
    let m = chars_of(s.message.as_str());
    let m = trim_chars(m.as_slice());
    append_chars(&mut message, m.as_slice());
    let issue = Issue {
        tool: to_string(plugin_name),
        rule_key: s.smell_type.clone(),
        message: string_from_chars(message.as_slice()),
        level: Level::Medium,
        category: Category::Lint,
        documentation_url: s.documentation_link.clone(),
        location: Some(
            Location {
                path: s.source.clone(),
                range: Some(
                    Range {
                        start_line: #[verifier::truncate] (s.lines[0] as u32),
                        start_column: 0,
                        end_line: 0,
                        end_column: 0,
                    },
                ),
            },
        ),
        suggestions: Vec::new(),
    };
    assert(issue@.suggestions =~= Seq::<SuggestionView>::empty());
    issue
}

impl Reek {
    /// The issues of Reek's smells, one each, in order.
    pub fn parse(&self, plugin_name: &str, smells: &[ReekSmell]) -> (issues: Vec<Issue>)
        requires
            forall|i: int| 0 <= i < smells@.len() ==> (#[trigger] smells@[i]).lines@.len() > 0,
        ensures
            issues_view(issues@) == smells@.map_values(|s: ReekSmell| reek_issue(plugin_name@, s)),
    {
        let mut issues: Vec<Issue> = Vec::new();
        let mut i: usize = 0;
        while i < smells.len()
            invariant
                i <= smells@.len(),
                forall|j: int| 0 <= j < smells@.len() ==> (#[trigger] smells@[j]).lines@.len() > 0,
                issues_view(issues@) == smells@.take(i as int).map_values(
                    |s: ReekSmell| reek_issue(plugin_name@, s),
                ),
            decreases smells@.len() - i,
        {
            let issue = smell_issue(plugin_name, &smells[i]);
            let ghost before = issues@;
            issues.push(issue);
            assert(issues_view(issues@) =~= issues_view(before).push(issue@));
            assert(smells@.take(i + 1).map_values(|s: ReekSmell| reek_issue(plugin_name@, s))
                =~= smells@.take(i as int).map_values(
                |s: ReekSmell| reek_issue(plugin_name@, s),
            ).push(reek_issue(plugin_name@, smells@[i as int])));
            i = i + 1;
        }
        assert(smells@.take(smells@.len() as int) == smells@);
        issues
    }
}

} // verus!
