use vstd::prelude::*;
use crate::analysis::{
    Issue, IssueView, Location, LocationView, Range, Replacement, ReplacementView, Suggestion,
    SuggestionView, location_view,
};
use crate::text::{chars_of, split_on, split_on_char, str_eq};

verus! {

/// Shifts the columns of a plugin's issues from "a tab is `tab_column_width`
/// columns wide" to "a tab is one column wide".
///
/// The columns are read against the source files in `sources`, pairs of a
/// path and that file's contents; a path that is not there counts as a file
/// that could not be read, whose columns stay as they are.
pub struct PluginTabColumnWidthTransformer {
    pub sources: Vec<(String, String)>,
    pub tab_column_width: usize,
    pub plugin_name: String,
}

/// The contents of the first source with path `path`.
pub open spec fn source_of(sources: Seq<(String, String)>, path: Seq<char>) -> Option<Seq<char>>
    decreases sources.len(),
{
    if sources.len() == 0 {
        None
    } else if sources[0].0@ == path {
        Some(sources[0].1@)
    } else {
        source_of(sources.drop_first(), path)
    }
}

/// The number of tabs in `s`.
pub open spec fn tab_count(s: Seq<char>) -> nat
    decreases s.len(),
{
    if s.len() == 0 {
        0
    } else {
        tab_count(s.drop_last()) + if s.last() == '\t' {
            1nat
        } else {
            0nat
        }
    }
}

/// The number of tabs among the characters of `line` before the one-based
/// `column`.
pub open spec fn tabs_before(line: Seq<char>, column: u32) -> nat {
    let n: int = if column == 0 {
        0
    } else {
        column - 1
    };
    tab_count(line.take(if n <= line.len() {
        n
    } else {
        line.len() as int
    }))
}

/// `column` moved left by `width - 1` for each of `tabs` tabs, the distance
/// taken modulo 2^32 and the result never below zero.
pub open spec fn shifted_column(column: u32, tabs: nat, width: nat) -> u32 {
    if tabs == 0 {
        column
    } else {
        let d = (tabs * (width - 1)) % 0x1_0000_0000;
        if column >= d {
            (column - d) as u32
        } else {
            0
        }
    }
}

/// The line of a range: the piece of `data` between newlines with the
/// one-based number `start_line`.
pub open spec fn line_of(data: Seq<char>, start_line: u32) -> Option<Seq<char>> {
    let pieces = split_on(data, '\n');
    if 1 <= start_line && start_line - 1 < pieces.len() {
        Some(pieces[start_line - 1])
    } else {
        None
    }
}

/// Whether moving `column` on `line` stays within the machine's integers.
pub open spec fn shift_fits(line: Seq<char>, column: u32, width: usize) -> bool {
    let tabs = tabs_before(line, column);
    tabs > 0 ==> width >= 1 && tabs * (width - 1) <= usize::MAX
}

impl PluginTabColumnWidthTransformer {
    /// The columns of `range` once corrected against `contents`.
    pub open spec fn corrected_columns(self, contents: Option<Seq<char>>, range: Range) -> (u32, u32) {
        match contents {
            Some(data) => match line_of(data, range.start_line) {
                Some(line) => (
                    shifted_column(
                        range.start_column,
                        tabs_before(line, range.start_column),
                        self.tab_column_width as nat,
                    ),
                    shifted_column(
                        range.end_column,
                        tabs_before(line, range.end_column),
                        self.tab_column_width as nat,
                    ),
                ),
                None => (range.start_column, range.end_column),
            },
            None => (range.start_column, range.end_column),
        }
    }

    /// Whether the columns of `range` can be corrected against `contents`:
    /// when the file was read, the range starts on a line numbered from one,
    /// and the column arithmetic stays within the machine's integers.
    pub open spec fn columns_computable(self, contents: Option<Seq<char>>, range: Range) -> bool {
        match contents {
            Some(data) => {
                &&& range.start_line >= 1
                &&& match line_of(data, range.start_line) {
                    Some(line) => shift_fits(line, range.start_column, self.tab_column_width)
                        && shift_fits(line, range.end_column, self.tab_column_width),
                    None => true,
                }
            },
            None => true,
        }
    }

    /// The location with its range's columns corrected.
    pub open spec fn fixed_location(self, l: LocationView) -> LocationView {
        match l.range {
            Some(r) => {
                let (s, e) = self.corrected_columns(source_of(self.sources@, l.path), r);
                LocationView {
                    path: l.path,
                    range: Some(
                        Range {
                            start_line: r.start_line,
                            start_column: s,
                            end_line: r.end_line,
                            end_column: e,
                        },
                    ),
                }
            },
            None => l,
        }
    }

    pub open spec fn fixed_opt_location(self, l: Option<LocationView>) -> Option<LocationView> {
        match l {
            Some(x) => Some(self.fixed_location(x)),
            None => None,
        }
    }

    pub open spec fn location_computable(self, l: Option<LocationView>) -> bool {
        match l {
            Some(x) => match x.range {
                Some(r) => self.columns_computable(source_of(self.sources@, x.path), r),
                None => true,
            },
            None => true,
        }
    }

    pub open spec fn fixed_replacement(self, r: ReplacementView) -> ReplacementView {
        ReplacementView { data: r.data, location: self.fixed_opt_location(r.location) }
    }

    pub open spec fn fixed_suggestion(self, s: SuggestionView) -> SuggestionView {
        SuggestionView {
            source: s.source,
            is_unsafe: s.is_unsafe,
            replacements: s.replacements.map_values(|r: ReplacementView| self.fixed_replacement(r)),
        }
    }

    pub open spec fn suggestion_computable(self, s: SuggestionView) -> bool {
        forall|j: int|
            0 <= j < s.replacements.len() ==> self.location_computable(
                #[trigger] s.replacements[j].location,
            )
    }

    /// The issue as the transformer gives it back: for an issue of the
    /// plugin, its location and the locations of its replacements with
    /// corrected columns; any other issue unchanged.
    pub open spec fn transformed(self, i: IssueView) -> IssueView {
        if i.tool == self.plugin_name@ {
            IssueView {
                tool: i.tool,
                rule_key: i.rule_key,
                message: i.message,
                level: i.level,
                category: i.category,
                documentation_url: i.documentation_url,
                location: self.fixed_opt_location(i.location),
                suggestions: i.suggestions.map_values(|s: SuggestionView| self.fixed_suggestion(s)),
            }
        } else {
            i
        }
    }

    /// Whether every correction the transformer makes on `i` can be computed.
    pub open spec fn issue_computable(self, i: IssueView) -> bool {
        i.tool == self.plugin_name@ ==> {
            &&& self.location_computable(i.location)
            &&& forall|k: int|
                0 <= k < i.suggestions.len() ==> self.suggestion_computable(
                    #[trigger] i.suggestions[k],
                )
        }
    }

    /// The contents of the source file at `path`, if it could be read.
    pub fn read_source(&self, path: &str) -> (r: Option<&String>)
        ensures
            match r {
                Some(c) => source_of(self.sources@, path@) == Some(c@),
                None => source_of(self.sources@, path@) is None,
            },
    {
        let mut i: usize = 0;
        assert(self.sources@.skip(0) == self.sources@);
        while i < self.sources.len()
            invariant
                i <= self.sources@.len(),
                source_of(self.sources@, path@) == source_of(self.sources@.skip(i as int), path@),
            decreases self.sources@.len() - i,
        {
            assert(self.sources@.skip(i as int).drop_first() == self.sources@.skip(i + 1));
            if str_eq(self.sources[i].0.as_str(), path) {
                return Some(&self.sources[i].1);
            }
            i = i + 1;
        }
        None
    }

    /// The columns of `range` on the file at `file_path`, corrected for
    /// tabs: each tab before a column counts one column, not
    /// `tab_column_width`.
    pub fn get_correct_columns_for_path_and_range(&self, file_path: &str, range: Range) -> (r:
        Option<[u32; 2]>)
        requires
            self.columns_computable(source_of(self.sources@, file_path@), range),
        ensures
            r is Some,
            r->0[0] == self.corrected_columns(source_of(self.sources@, file_path@), range).0,
            r->0[1] == self.corrected_columns(source_of(self.sources@, file_path@), range).1,
    {
        let contents = self.read_source(file_path);
        let mut start_column = range.start_column;
        let mut end_column = range.end_column;
        if let Some(data) = contents {
            let chars = chars_of(data.as_str());
            let pieces = split_on_char(chars.as_slice(), '\n');
            let k = (range.start_line - 1) as usize;
            if k < pieces.len() {
                let line = &pieces[k];
                let tabs_before_start = count_tabs(line.as_slice(), range.start_column);
                let tabs_before_end = count_tabs(line.as_slice(), range.end_column);
                if tabs_before_start > 0 {
                    start_column = shift(start_column, tabs_before_start, self.tab_column_width);
                }
                if tabs_before_end > 0 {
                    end_column = shift(end_column, tabs_before_end, self.tab_column_width);
                }
            }
        }
        Some([start_column, end_column])
    }

    fn fix_location(&self, location: Location) -> (r: Location)
        requires
            self.location_computable(Some(location@)),
        ensures
            r@ == self.fixed_location(location@),
    {
        match location.range {
            Some(range) => {
                let cols = self.get_correct_columns_for_path_and_range(location.path.as_str(), range);
                let pair = cols.unwrap();
                let start_column = pair[0];
                let end_column = pair[1];
                Location {
                    path: location.path,
                    range: Some(
                        Range {
                            start_line: range.start_line,
                            start_column,
                            end_line: range.end_line,
                            end_column,
                        },
                    ),
                }
            },
            None => location,
        }
    }

    fn fix_opt_location(&self, location: Option<Location>) -> (r: Option<Location>)
        requires
            self.location_computable(location_view(location)),
        ensures
            location_view(r) == self.fixed_opt_location(location_view(location)),
    {
        match location {
            Some(l) => Some(self.fix_location(l)),
            None => None,
        }
    }

    fn fix_suggestion(&self, suggestion: Suggestion) -> (r: Suggestion)
        requires
            self.suggestion_computable(suggestion@),
        ensures
            r@ == self.fixed_suggestion(suggestion@),
    {
        let Suggestion { source, is_unsafe, replacements } = suggestion;
        let ghost old_view = replacements@.map_values(|x: Replacement| x@);
        let mut fixed: Vec<Replacement> = Vec::new();
        let mut rest = replacements;
        let ghost total = old_view.len();
        while rest.len() > 0
            invariant
                self.suggestion_computable(
                    SuggestionView { source, is_unsafe, replacements: old_view },
                ),
                fixed@.len() + rest@.len() == total,
                total == old_view.len(),
                forall|j: int|
                    0 <= j < fixed@.len() ==> #[trigger] fixed@[j]@ == self.fixed_replacement(
                        old_view[j],
                    ),
                forall|j: int|
                    0 <= j < rest@.len() ==> #[trigger] rest@[j]@ == old_view[fixed@.len() + j],
            decreases rest@.len(),
        {
            let r = rest.remove(0);
            let ghost j = fixed@.len() as int;
            assert(r@ == old_view[j]);
            assert(self.location_computable(old_view[j].location));
            let Replacement { data, location } = r;
            let location = self.fix_opt_location(location);
            fixed.push(Replacement { data, location });
        }
        let r = Suggestion { source, is_unsafe, replacements: fixed };
        assert(r@.replacements =~= old_view.map_values(
            |x: ReplacementView| self.fixed_replacement(x),
        ));
        r
    }

    /// The issue with its columns corrected for tabs when it comes from the
    /// plugin; any other issue as it is. Never drops an issue.
    pub fn transform(&self, issue: Issue) -> (r: Option<Issue>)
        requires
            self.issue_computable(issue@),
        ensures
            r is Some,
            r->0@ == self.transformed(issue@),
    {
        if !str_eq(issue.tool.as_str(), self.plugin_name.as_str()) {
            return Some(issue);
        }
        let ghost iv = issue@;
        let Issue {
            tool,
            rule_key,
            message,
            level,
            category,
            documentation_url,
            location,
            suggestions,
        } = issue;
        let location = self.fix_opt_location(location);
        let ghost old_view = suggestions@.map_values(|x: Suggestion| x@);
        let mut fixed: Vec<Suggestion> = Vec::new();
        let mut rest = suggestions;
        let ghost total = old_view.len();
        while rest.len() > 0
            invariant
                old_view == iv.suggestions,
                self.issue_computable(iv),
                iv.tool == self.plugin_name@,
                fixed@.len() + rest@.len() == total,
                total == old_view.len(),
                forall|j: int|
                    0 <= j < fixed@.len() ==> #[trigger] fixed@[j]@ == self.fixed_suggestion(
                        old_view[j],
                    ),
                forall|j: int|
                    0 <= j < rest@.len() ==> #[trigger] rest@[j]@ == old_view[fixed@.len() + j],
            decreases rest@.len(),
        {
            let s = rest.remove(0);
            let ghost j = fixed@.len() as int;
            assert(s@ == old_view[j]);
            assert(self.suggestion_computable(iv.suggestions[j]));
            let s = self.fix_suggestion(s);
            fixed.push(s);
        }
        let r = Issue {
            tool,
            rule_key,
            message,
            level,
            category,
            documentation_url,
            location,
            suggestions: fixed,
        };
        assert(r@.suggestions =~= old_view.map_values(
            |x: SuggestionView| self.fixed_suggestion(x),
        ));
        Some(r)
    }
}

/// The number of tabs among the characters of `line` before the one-based
/// `column`.
fn count_tabs(line: &[char], column: u32) -> (n: usize)
    ensures
        n == tabs_before(line@, column),
{
    let limit: usize = if column == 0 {
        0
    } else {
        (column - 1) as usize
    };
    let mut n: usize = 0;
    let mut i: usize = 0;
    while i < line.len() && i < limit
        invariant
            i <= line@.len(),
            i <= limit,
            limit == (if column == 0 {
                0
            } else {
                column - 1
            }),
            n == tab_count(line@.take(i as int)),
            n <= i,
        decreases line@.len() - i,
    {
        assert(line@.take(i + 1).drop_last() == line@.take(i as int));
        if line[i] == '\t' {
            n = n + 1;
        }
        i = i + 1;
    }
    n
}

/// `column` moved left by `width - 1` for each of `tabs` tabs.
fn shift(column: u32, tabs: usize, width: usize) -> (r: u32)
    requires
        tabs > 0,
        width >= 1,
        tabs * (width - 1) <= usize::MAX,
    ensures
        r == shifted_column(column, tabs as nat, width as nat),
{
    let product: usize = tabs * (width - 1);
    let d: u32 = ((product as u64) % 0x1_0000_0000u64) as u32;
    column.saturating_sub(d)
}

} // verus!
