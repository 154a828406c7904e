use vstd::prelude::*;

verus! {

/// How serious an issue is.
#[derive(Debug, Clone, Copy, PartialEq, Eq, Structural)]
pub enum Level {
    Unspecified,
    Note,
    Fmt,
    Low,
    Medium,
    High,
}

/// What kind of problem an issue is.
#[derive(Debug, Clone, Copy, PartialEq, Eq, Structural)]
pub enum Category {
    Unspecified,
    Bug,
    Vulnerability,
    Structure,
    Duplication,
    SecurityHotspot,
    Performance,
    Documentation,
    TypeCheck,
    Style,
    AntiPattern,
    Accessibility,
    DeadCode,
    Lint,
    Secret,
    DependencyAlert,
}

/// Where a suggestion comes from.
#[derive(Debug, Clone, Copy, PartialEq, Eq, Structural)]
pub enum SuggestionSource {
    Unspecified,
    Tool,
    Llm,
}

/// A span of a file: one-based lines and columns, zero where unknown.
#[derive(Debug, Clone, Copy, PartialEq, Eq, Structural)]
pub struct Range {
    pub start_line: u32,
    pub start_column: u32,
    pub end_line: u32,
    pub end_column: u32,
}

/// A file, and optionally a span of it.
#[derive(Debug, Clone, PartialEq, Eq)]
pub struct Location {
    pub path: String,
    pub range: Option<Range>,
}

/// Text that replaces a location.
#[derive(Debug, Clone, PartialEq, Eq)]
pub struct Replacement {
    pub data: String,
    pub location: Option<Location>,
}

/// A proposed fix for an issue.
#[derive(Debug, Clone, PartialEq, Eq)]
pub struct Suggestion {
    pub source: SuggestionSource,
    pub is_unsafe: bool,
    pub replacements: Vec<Replacement>,
}

/// A problem a tool reported.
#[derive(Debug, Clone, PartialEq, Eq)]
pub struct Issue {
    pub tool: String,
    pub rule_key: String,
    pub message: String,
    pub level: Level,
    pub category: Category,
    pub documentation_url: String,
    pub location: Option<Location>,
    pub suggestions: Vec<Suggestion>,
}

/// The abstract value of a [`Location`].
pub struct LocationView {
    pub path: Seq<char>,
    pub range: Option<Range>,
}

/// The abstract value of a [`Replacement`].
pub struct ReplacementView {
    pub data: Seq<char>,
    pub location: Option<LocationView>,
}

/// The abstract value of a [`Suggestion`].
pub struct SuggestionView {
    pub source: SuggestionSource,
    pub is_unsafe: bool,
    pub replacements: Seq<ReplacementView>,
}

/// The abstract value of an [`Issue`].
pub struct IssueView {
    pub tool: Seq<char>,
    pub rule_key: Seq<char>,
    pub message: Seq<char>,
    pub level: Level,
    pub category: Category,
    pub documentation_url: Seq<char>,
    pub location: Option<LocationView>,
    pub suggestions: Seq<SuggestionView>,
}

/// The abstract value of an optional location.
pub open spec fn location_view(l: Option<Location>) -> Option<LocationView> {
    match l {
        Some(x) => Some(x@),
        None => None,
    }
}

impl View for Location {
    type V = LocationView;

    open spec fn view(&self) -> LocationView {
        LocationView { path: self.path@, range: self.range }
    }
}

impl View for Replacement {
    type V = ReplacementView;

    open spec fn view(&self) -> ReplacementView {
        ReplacementView { data: self.data@, location: location_view(self.location) }
    }
}

impl View for Suggestion {
    type V = SuggestionView;

    open spec fn view(&self) -> SuggestionView {
        SuggestionView {
            source: self.source,
            is_unsafe: self.is_unsafe,
            replacements: self.replacements@.map_values(|r: Replacement| r@),
        }
    }
}

impl View for Issue {
    type V = IssueView;

    open spec fn view(&self) -> IssueView {
        IssueView {
            tool: self.tool@,
            rule_key: self.rule_key@,
            message: self.message@,
            level: self.level,
            category: self.category,
            documentation_url: self.documentation_url@,
            location: location_view(self.location),
            suggestions: self.suggestions@.map_values(|s: Suggestion| s@),
        }
    }
}

/// The abstract values of a list of issues.
pub open spec fn issues_view(v: Seq<Issue>) -> Seq<IssueView> {
    v.map_values(|i: Issue| i@)
}

/// A lint issue of `tool` with a rule, a message, a level and a location,
/// and no documentation link or suggestion.
pub open spec fn lint_issue(
    tool: Seq<char>,
    rule_key: Seq<char>,
    message: Seq<char>,
    level: Level,
    location: Option<LocationView>,
) -> IssueView {
    IssueView {
        tool,
        rule_key,
        message,
        level,
        category: Category::Lint,
        documentation_url: seq![],
        location,
        suggestions: seq![],
    }
}

/// A lint issue with no documentation link and no suggestion.
pub fn new_lint_issue(
    tool: String,
    rule_key: String,
    message: String,
    level: Level,
    location: Option<Location>,
) -> (issue: Issue)
    ensures
        issue@ == lint_issue(tool@, rule_key@, message@, level, location_view(location)),
{
    let issue = Issue {
        tool,
        rule_key,
        message,
        level,
        category: Category::Lint,
        documentation_url: String::new(),
        location,
        suggestions: Vec::new(),
    };
    assert(issue@.suggestions =~= Seq::<SuggestionView>::empty());
    issue
}

/// A range that sets only the given lines and columns.
pub open spec fn range_of(start_line: u32, start_column: u32, end_line: u32, end_column: u32) -> Range {
    Range { start_line, start_column, end_line, end_column }
}

/// How serious a message is.
#[derive(Debug, Clone, Copy, PartialEq, Eq, Structural)]
pub enum MessageLevel {
    Unspecified,
    Debug,
    Info,
    Warning,
    Error,
    Fatal,
}

/// A moment: seconds since the Unix epoch and nanoseconds within it.
#[derive(Debug, Clone, Copy, PartialEq, Eq, Structural)]
pub struct Timestamp {
    pub seconds: i64,
    pub nanos: i32,
}

/// A message for the user about the run.
#[derive(Debug, Clone, PartialEq, Eq)]
pub struct Message {
    pub timestamp: Option<Timestamp>,
    pub module: String,
    pub ty: String,
    pub level: MessageLevel,
    pub message: String,
    pub details: String,
}

/// The current time.
///
/// Trusted: reads the clock through `chrono::Utc::now`, and takes its
/// `timestamp` and `timestamp_subsec_nanos`. Nothing is claimed of the
/// value but the bound chrono documents for the nanoseconds (below two
/// seconds, to allow a leap second).
#[verifier::external_body]
pub(crate) fn now_timestamp() -> (t: Timestamp)
    ensures
        0 <= t.nanos < 2_000_000_000,
{
    let now = chrono::Utc::now();
    Timestamp { seconds: now.timestamp(), nanos: now.timestamp_subsec_nanos() as i32 }
}

/// A copy of `l`.
pub fn copy_location(l: &Location) -> (r: Location)
    ensures
        r@ == l@,
{
    Location { path: l.path.clone(), range: l.range }
}

/// A copy of `l`.
pub fn copy_opt_location(l: &Option<Location>) -> (r: Option<Location>)
    ensures
        location_view(r) == location_view(*l),
{
    match l {
        Some(x) => Some(copy_location(x)),
        None => None,
    }
}

/// A copy of `s`.
pub fn copy_suggestion(s: &Suggestion) -> (r: Suggestion)
    ensures
        r@ == s@,
{
    let mut replacements: Vec<Replacement> = Vec::new();
    let mut i: usize = 0;
    while i < s.replacements.len()
        invariant
            i <= s.replacements@.len(),
            replacements@.len() == i,
            forall|j: int| 0 <= j < i ==> #[trigger] replacements@[j]@ == s.replacements@[j]@,
        decreases s.replacements@.len() - i,
    {
        let r = &s.replacements[i];
        replacements.push(Replacement { data: r.data.clone(), location: copy_opt_location(&r.location) });
        i = i + 1;
    }
    let r = Suggestion { source: s.source, is_unsafe: s.is_unsafe, replacements };
    assert(r@.replacements =~= s@.replacements);
    r
}

/// A copy of `issue`.
pub fn copy_issue(issue: &Issue) -> (r: Issue)
    ensures
        r@ == issue@,
{
    let mut suggestions: Vec<Suggestion> = Vec::new();
    let mut i: usize = 0;
    while i < issue.suggestions.len()
        invariant
            i <= issue.suggestions@.len(),
            suggestions@.len() == i,
            forall|j: int| 0 <= j < i ==> #[trigger] suggestions@[j]@ == issue.suggestions@[j]@,
        decreases issue.suggestions@.len() - i,
    {
        suggestions.push(copy_suggestion(&issue.suggestions[i]));
        i = i + 1;
    }
    let r = Issue {
        tool: issue.tool.clone(),
        rule_key: issue.rule_key.clone(),
        message: issue.message.clone(),
        level: issue.level,
        category: issue.category,
        documentation_url: issue.documentation_url.clone(),
        location: copy_opt_location(&issue.location),
        suggestions,
    };
    assert(r@.suggestions =~= issue@.suggestions);
    r
}

} // verus!
