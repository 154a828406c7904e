//! Running a plan: the limits on reported issues, and what went wrong
//! while tools were installed.

pub mod install_error;
pub mod installation_error;
pub mod config_staging;

use crate::analysis::{Issue, IssueView, copy_issue, issues_view};
use crate::paths::{path_components, path_components_of, same_components};
use crate::pattern::texts;
use crate::text::{
    append_chars, chars_of, copy_chars, decimal_digits, join, join_chars, push_str,
    string_from_chars, str_eq, subrange_chars, u64_to_decimal,
};
use vstd::prelude::*;

verus! {

/// A run stops once this many issues are found.
pub const MAX_ISSUES: usize = 50000;

/// The issues of a file are cut to this many.
pub const MAX_ISSUES_PER_FILE: usize = 500;

/// The digits `d` with a comma before each group of three from the right.
pub open spec fn grouped(d: Seq<char>) -> Seq<char>
    decreases d.len(),
{
    if d.len() <= 3 {
        d
    } else {
        grouped(d.take(d.len() - 3)) + seq![','] + d.skip(d.len() - 3)
    }
}

/// `n` in decimal with thousands separated by commas.
pub open spec fn format_number_text(n: nat) -> Seq<char> {
    grouped(decimal_digits(n))
}

fn group_digits(d: &[char]) -> (r: Vec<char>)
    ensures
        r@ == grouped(d@),
    decreases d@.len(),
{
    if d.len() <= 3 {
        copy_chars(d)
    } else {
        let head = subrange_chars(d, 0, d.len() - 3);
        assert(head@ == d@.take(d@.len() - 3));
        let mut r = group_digits(head.as_slice());
        r.push(',');
        let tail = subrange_chars(d, d.len() - 3, d.len());
        assert(tail@ == d@.skip(d@.len() - 3));
        append_chars(&mut r, tail.as_slice());
        r
    }
}

/// `n` in decimal with thousands separated by commas, as in `50,000`.
pub fn format_number(n: usize) -> (r: String)
    ensures
        r@ == format_number_text(n as nat),
{
    let d = u64_to_decimal(n as u64);
    let g = group_digits(d.as_slice());
    string_from_chars(g.as_slice())
}

/// The number of issues in `issues` reported by `tool`.
pub open spec fn tool_count(issues: Seq<IssueView>, tool: Seq<char>) -> nat
    decreases issues.len(),
{
    if issues.len() == 0 {
        0
    } else {
        tool_count(issues.drop_last(), tool) + if issues.last().tool == tool {
            1nat
        } else {
            0nat
        }
    }
}

proof fn lemma_tool_count_absent(issues: Seq<IssueView>, tool: Seq<char>)
    requires
        forall|k: int| 0 <= k < issues.len() ==> issues[k].tool != tool,
    ensures
        tool_count(issues, tool) == 0,
    decreases issues.len(),
{
    if issues.len() > 0 {
        lemma_tool_count_absent(issues.drop_last(), tool);
    }
}

/// Whether `summary` has a line for `tool`.
pub open spec fn summary_has(summary: Seq<(Seq<char>, nat)>, tool: Seq<char>) -> bool {
    exists|i: int| 0 <= i < summary.len() && summary[i].0 == tool
}

/// Whether one of the pairs `c` is named `name`.
pub open spec fn has_name(c: Seq<(String, usize)>, name: Seq<char>) -> bool {
    exists|i: int| 0 <= i < c.len() && c[i].0@ == name
}

/// Whether `summary` counts the issues of each tool of `issues`: every
/// tool once, with its number of issues, most issues first.
pub open spec fn is_tool_summary(issues: Seq<IssueView>, summary: Seq<(Seq<char>, nat)>) -> bool {
    &&& forall|i: int, j: int| 0 <= i < j < summary.len() ==> summary[i].0 != summary[j].0
    &&& forall|i: int|
        0 <= i < summary.len() ==> #[trigger] summary[i].1 == tool_count(issues, summary[i].0)
            && summary[i].1 > 0
    &&& forall|k: int| 0 <= k < issues.len() ==> summary_has(summary, #[trigger] issues[k].tool)
    &&& forall|i: int, j: int| 0 <= i < j < summary.len() ==> summary[i].1 >= summary[j].1
}

/// A line of the summary: a tool and its number of issues.
pub open spec fn summary_line(tool: Seq<char>, count: nat) -> Seq<char> {
    "  "@ + tool + " ("@ + format_number_text(count) + " issues)"@
}

/// The message of a run stopped at the issue limit, over a summary of the
/// issues found by tool.
pub open spec fn max_issues_text(summary: Seq<(Seq<char>, nat)>) -> Seq<char> {
    "Maximum issue count of "@ + format_number_text(MAX_ISSUES as nat)
        + " reached. Execution halted.\n\nIssue count by tool:\n"@ + join(
        summary.map_values(|p: (Seq<char>, nat)| summary_line(p.0, p.1)),
        "\n"@,
    )
        + "\n\nPlease adjust your configuration to reduce the number of issues generated.\nFor more information: https://qlty.sh/d/too-many-issues"@
}

/// The abstract value of a list of tool counts.
pub open spec fn counts_view(c: Seq<(String, usize)>) -> Seq<(Seq<char>, nat)> {
    c.map_values(|p: (String, usize)| (p.0@, p.1 as nat))
}

/// The index of the first pair named `name`, or the number of pairs.
fn find_name(pairs: &Vec<(String, usize)>, name: &str) -> (r: usize)
    ensures
        r <= pairs@.len(),
        r < pairs@.len() ==> pairs@[r as int].0@ == name@,
        forall|a: int| 0 <= a < r ==> pairs@[a].0@ != name@,
{
    let mut j: usize = 0;
    while j < pairs.len()
        invariant
            j <= pairs@.len(),
            forall|a: int| 0 <= a < j ==> pairs@[a].0@ != name@,
        decreases pairs@.len() - j,
    {
        if str_eq(pairs[j].0.as_str(), name) {
            return j;
        }
        j = j + 1;
    }
    j
}

/// The number of issues of each tool, tools in the order they first occur.
fn count_by_tool(issues: &[Issue]) -> (counts: Vec<(String, usize)>)
    ensures
        forall|i: int, j: int| 0 <= i < j < counts@.len() ==> counts@[i].0@ != counts@[j].0@,
        forall|i: int|
            0 <= i < counts@.len() ==> #[trigger] counts@[i].1 == tool_count(
                issues_view(issues@),
                counts@[i].0@,
            ) && counts@[i].1 > 0,
        forall|k: int|
            0 <= k < issues@.len() ==> has_name(counts@, #[trigger] issues_view(issues@)[k].tool),
{
    let ghost iv = issues_view(issues@);
    let mut counts: Vec<(String, usize)> = Vec::new();
    let mut i: usize = 0;
    while i < issues.len()
        invariant
            i <= issues@.len(),
            iv == issues_view(issues@),
            forall|a: int, b: int| 0 <= a < b < counts@.len() ==> counts@[a].0@ != counts@[b].0@,
            forall|a: int|
                0 <= a < counts@.len() ==> #[trigger] counts@[a].1 == tool_count(
                    iv.take(i as int),
                    counts@[a].0@,
                ) && counts@[a].1 > 0 && counts@[a].1 <= i,
            forall|k: int| 0 <= k < i ==> has_name(counts@, #[trigger] iv[k].tool),
        decreases issues@.len() - i,
    {
        let tool = &issues[i].tool;
        let ghost t = iv[i as int].tool;
        assert(iv.take(i + 1).drop_last() == iv.take(i as int));
        assert(iv.take(i + 1).last() == iv[i as int]);
        let j = find_name(&counts, tool.as_str());
        let ghost before = counts@;
        if j < counts.len() {
            let name = counts[j].0.clone();
            let c = counts[j].1;
            counts.set(j, (name, c + 1));
            proof {
                assert forall|a: int| 0 <= a < counts@.len() implies #[trigger] counts@[a].1
                    == tool_count(iv.take(i + 1), counts@[a].0@) && counts@[a].1 > 0
                    && counts@[a].1 <= i + 1 by {
                    assert(counts@[a].0@ == before[a].0@);
                }
                assert forall|k: int| 0 <= k < i + 1 implies has_name(counts@, #[trigger] iv[k].tool) by {
                    if k == i {
                        assert(counts@[j as int].0@ == iv[k].tool);
                    } else {
                        assert(has_name(before, iv[k].tool));
                        let a = choose|a: int| 0 <= a < before.len() && before[a].0@ == iv[k].tool;
                        assert(counts@[a].0@ == iv[k].tool);
                    }
                }
            }
        } else {
            proof {
                assert forall|k: int| 0 <= k < iv.take(i as int).len() implies iv.take(
                    i as int,
                )[k].tool != t by {
                    assert(has_name(before, iv[k].tool));
                    assert(iv.take(i as int)[k] == iv[k]);
                }
                lemma_tool_count_absent(iv.take(i as int), t);
            }
            counts.push((tool.clone(), 1));
            proof {
                assert forall|a: int| 0 <= a < counts@.len() implies #[trigger] counts@[a].1
                    == tool_count(iv.take(i + 1), counts@[a].0@) && counts@[a].1 > 0
                    && counts@[a].1 <= i + 1 by {
                    if a < before.len() {
                        assert(counts@[a] == before[a]);
                    }
                }
                assert forall|k: int| 0 <= k < i + 1 implies has_name(counts@, #[trigger] iv[k].tool) by {
                    if k == i {
                        assert(counts@[before.len() as int].0@ == iv[k].tool);
                    } else {
                        assert(has_name(before, iv[k].tool));
                        let a = choose|a: int| 0 <= a < before.len() && before[a].0@ == iv[k].tool;
                        assert(counts@[a] == before[a]);
                    }
                }
            }
        }
        i = i + 1;
    }
    assert(iv.take(i as int) == iv);
    assert forall|k: int| 0 <= k < issues@.len() implies has_name(
        counts@,
        #[trigger] issues_view(issues@)[k].tool,
    ) by {
        assert(has_name(counts@, iv[k].tool));
    }
    counts
}

/// Whether one of the pairs `c` is `name` with count `count`.
pub open spec fn has_pair(c: Seq<(String, usize)>, name: Seq<char>, count: usize) -> bool {
    exists|i: int| 0 <= i < c.len() && c[i].0@ == name && c[i].1 == count
}

/// Whether no two of the pairs `c` have the same name.
pub open spec fn distinct_pair_names(c: Seq<(String, usize)>) -> bool {
    forall|i: int, j: int| 0 <= i < j < c.len() ==> c[i].0@ != c[j].0@
}

/// The pairs of `counts` ordered by count, largest first.
fn sort_by_count(counts: &Vec<(String, usize)>) -> (sorted: Vec<(String, usize)>)
    requires
        distinct_pair_names(counts@),
    ensures
        distinct_pair_names(sorted@),
        forall|a: int| 0 <= a < sorted@.len() ==> has_pair(counts@, #[trigger] sorted@[a].0@, sorted@[a].1),
        forall|m: int| 0 <= m < counts@.len() ==> has_name(sorted@, #[trigger] counts@[m].0@),
        forall|a: int, b: int| 0 <= a < b < sorted@.len() ==> sorted@[a].1 >= sorted@[b].1,
{
    let mut sorted: Vec<(String, usize)> = Vec::new();
    let mut k: usize = 0;
    while k < counts.len()
        invariant
            k <= counts@.len(),
            distinct_pair_names(counts@),
            distinct_pair_names(sorted@),
            forall|a: int| 0 <= a < sorted@.len() ==> exists|m: int|
                0 <= m < k && counts@[m].0@ == #[trigger] sorted@[a].0@ && counts@[m].1 == sorted@[a].1,
            forall|m: int| 0 <= m < k ==> has_name(sorted@, #[trigger] counts@[m].0@),
            forall|a: int, b: int| 0 <= a < b < sorted@.len() ==> sorted@[a].1 >= sorted@[b].1,
        decreases counts@.len() - k,
    {
        let c = counts[k].1;
        let mut p: usize = 0;
        while p < sorted.len() && sorted[p].1 >= c
            invariant
                p <= sorted@.len(),
                forall|a: int| 0 <= a < p ==> sorted@[a].1 >= c,
            decreases sorted@.len() - p,
        {
            p = p + 1;
        }
        let ghost before = sorted@;
        let name = counts[k].0.clone();
        let ghost e = (name, c);
        sorted.insert(p, (name, c));
        proof {
            before.insert_ensures(p as int, e);
            assert(sorted@ == before.insert(p as int, e));
            assert forall|a: int| 0 <= a < sorted@.len() implies exists|m: int|
                0 <= m < k + 1 && counts@[m].0@ == #[trigger] sorted@[a].0@ && counts@[m].1
                    == sorted@[a].1 by {
                if a < p {
                    assert(sorted@[a] == before[a]);
                } else if a == p {
                    assert(counts@[k as int].0@ == sorted@[a].0@);
                } else {
                    assert(sorted@[a] == before[a - 1]);
                }
            }
            assert forall|m: int| 0 <= m < k + 1 implies has_name(sorted@, #[trigger] counts@[m].0@) by {
                if m == k {
                    assert(sorted@[p as int].0@ == counts@[m].0@);
                } else {
                    assert(has_name(before, counts@[m].0@));
                    let a = choose|a: int| 0 <= a < before.len() && before[a].0@ == counts@[m].0@;
                    if a < p {
                        assert(sorted@[a] == before[a]);
                    } else {
                        assert(sorted@[a + 1] == before[a]);
                    }
                }
            }
            assert forall|a: int, b: int| 0 <= a < b < sorted@.len() implies sorted@[a].1 >= sorted@[b].1 by {
                if b < p {
                    assert(sorted@[a] == before[a] && sorted@[b] == before[b]);
                } else if b == p {
                    assert(sorted@[a] == before[a]);
                } else if a < p {
                    assert(sorted@[a] == before[a] && sorted@[b] == before[b - 1]);
                } else if a == p {
                    assert(sorted@[b] == before[b - 1]);
                    if p < before.len() {
                        assert(before[p as int].1 < c);
                    }
                } else {
                    assert(sorted@[a] == before[a - 1] && sorted@[b] == before[b - 1]);
                }
            }
            assert forall|a: int, b: int| 0 <= a < b < sorted@.len() implies sorted@[a].0@ != sorted@[b].0@ by {
                let na = if a < p { a } else if a == p { -1 } else { a - 1 };
                let nb = if b < p { b } else if b == p { -1 } else { b - 1 };
                if a == p || b == p {
                    let other = if a == p { b } else { a };
                    let o = if other < p { other } else { other - 1 };
                    assert(sorted@[other] == before[o]);
                    let m = choose|m: int|
                        0 <= m < k && counts@[m].0@ == #[trigger] before[o].0@ && counts@[m].1 == before[o].1;
                    assert(counts@[m].0@ != counts@[k as int].0@);
                } else {
                    assert(sorted@[a] == before[na] && sorted@[b] == before[nb]);
                }
            }
        }
        k = k + 1;
    }
    proof {
        assert forall|a: int| 0 <= a < sorted@.len() implies has_pair(counts@, #[trigger] sorted@[a].0@, sorted@[a].1) by {
            let m = choose|m: int|
                0 <= m < k && counts@[m].0@ == #[trigger] sorted@[a].0@ && counts@[m].1 == sorted@[a].1;
        }
    }
    sorted
}

/// The message of a run stopped at the issue limit: the limit and the
/// number of issues of each tool, most issues first. Tools with the same
/// number of issues may come in any order.
pub fn format_max_issues_error(issues: &[Issue]) -> (r: String)
    ensures
        exists|summary: Seq<(Seq<char>, nat)>|
            is_tool_summary(issues_view(issues@), summary) && r@ == max_issues_text(summary),
{
    let ghost iv = issues_view(issues@);
    let counts = count_by_tool(issues);
    let sorted = sort_by_count(&counts);
    let ghost summary = counts_view(sorted@);
    proof {
        assert forall|k: int| 0 <= k < iv.len() implies summary_has(summary, #[trigger] iv[k].tool) by {
            assert(has_name(counts@, iv[k].tool));
            let m = choose|m: int| 0 <= m < counts@.len() && counts@[m].0@ == iv[k].tool;
            assert(has_name(sorted@, counts@[m].0@));
            let a = choose|a: int| 0 <= a < sorted@.len() && sorted@[a].0@ == counts@[m].0@;
            assert(summary[a].0 == iv[k].tool);
        }
        assert forall|i: int| 0 <= i < summary.len() implies #[trigger] summary[i].1 == tool_count(
            iv,
            summary[i].0,
        ) && summary[i].1 > 0 by {
            assert(has_pair(counts@, sorted@[i].0@, sorted@[i].1));
            let m = choose|m: int|
                0 <= m < counts@.len() && counts@[m].0@ == sorted@[i].0@ && counts@[m].1 == sorted@[i].1;
            assert(counts@[m].1 == tool_count(iv, counts@[m].0@));
        }
        assert(is_tool_summary(iv, summary));
    }
    let mut lines: Vec<Vec<char>> = Vec::new();
    let mut j: usize = 0;
    while j < sorted.len()
        invariant
            j <= sorted@.len(),
            summary == counts_view(sorted@),
            lines@.len() == j,
            forall|a: int| 0 <= a < j ==> #[trigger] lines@[a]@ == summary_line(summary[a].0, summary[a].1),
        decreases sorted@.len() - j,
    {
        let mut line = chars_of("  ");
        push_str(&mut line, sorted[j].0.as_str());
        push_str(&mut line, " (");
        push_str(&mut line, format_number(sorted[j].1).as_str());
        push_str(&mut line, " issues)");
        lines.push(line);
        j = j + 1;
    }
    let sep = chars_of("\n");
    let body = join_chars(lines.as_slice(), sep.as_slice());
    assert(lines@.map_values(|v: Vec<char>| v@) =~= summary.map_values(
        |p: (Seq<char>, nat)| summary_line(p.0, p.1),
    ));
    let mut out = chars_of("Maximum issue count of ");
    push_str(&mut out, format_number(MAX_ISSUES).as_str());
    push_str(&mut out, " reached. Execution halted.\n\nIssue count by tool:\n");
    append_chars(&mut out, body.as_slice());
    push_str(
        &mut out,
        "\n\nPlease adjust your configuration to reduce the number of issues generated.\nFor more information: https://qlty.sh/d/too-many-issues",
    );
    let r = string_from_chars(out.as_slice());
    assert(r@ == max_issues_text(summary));
    r
}

/// The issues one invocation of a plugin produced: for each file it ran
/// on, that file's issues, when the invocation got as far as reading them.
pub struct InvocationIssues {
    pub plugin_name: String,
    pub success: bool,
    pub file_issues: Option<Vec<Vec<Issue>>>,
}

/// The issues of the lists `lists`, one list after the other.
pub open spec fn list_issues(lists: Seq<Vec<Issue>>) -> Seq<IssueView>
    decreases lists.len(),
{
    if lists.len() == 0 {
        seq![]
    } else {
        list_issues(lists.drop_last()) + issues_view(lists.last()@)
    }
}

/// The issues of an invocation, file after file.
pub open spec fn invocation_issue_list(inv: InvocationIssues) -> Seq<IssueView> {
    match inv.file_issues {
        Some(f) => list_issues(f@),
        None => seq![],
    }
}

/// The issues of the invocations `invs`, one after the other.
pub open spec fn invocations_issues(invs: Seq<InvocationIssues>) -> Seq<IssueView>
    decreases invs.len(),
{
    if invs.len() == 0 {
        seq![]
    } else {
        invocations_issues(invs.drop_last()) + invocation_issue_list(invs.last())
    }
}

/// Whether one of `names` is `t`.
pub open spec fn names_contain(names: Seq<String>, t: Seq<char>) -> bool {
    exists|a: int| 0 <= a < names.len() && names[a]@ == t
}

/// Whether, errored plugins being skipped, one of the first `n`
/// invocations of `invs` errored and is of the plugin `tool`.
pub open spec fn errored_among(invs: Seq<InvocationIssues>, n: int, skip_errored_plugins: bool, tool: Seq<char>) -> bool {
    skip_errored_plugins && exists|i: int|
        0 <= i < n && !invs[i].success && invs[i].plugin_name@ == tool
}

/// Whether the issues of `tool` are left out: plugins that errored are
/// left out when errored plugins are skipped.
pub open spec fn errored_plugin(invs: Seq<InvocationIssues>, skip_errored_plugins: bool, tool: Seq<char>) -> bool {
    errored_among(invs, invs.len() as int, skip_errored_plugins, tool)
}

/// The issues of `issues` not left out.
pub open spec fn kept_issues(
    issues: Seq<IssueView>,
    invs: Seq<InvocationIssues>,
    skip_errored_plugins: bool,
) -> Seq<IssueView>
    decreases issues.len(),
{
    if issues.len() == 0 {
        seq![]
    } else {
        let rest = kept_issues(issues.drop_last(), invs, skip_errored_plugins);
        if errored_plugin(invs, skip_errored_plugins, issues.last().tool) {
            rest
        } else {
            rest.push(issues.last())
        }
    }
}

proof fn lemma_list_issues_split(s: Seq<Vec<Issue>>, i: int)
    requires
        0 <= i <= s.len(),
    ensures
        list_issues(s) == list_issues(s.take(i)) + list_issues(s.skip(i)),
    decreases s.len(),
{
    if i == s.len() {
        assert(s.take(i) == s);
        assert(s.skip(i).len() == 0);
        assert(list_issues(s.skip(i)) == Seq::<IssueView>::empty());
    } else {
        lemma_list_issues_split(s.drop_last(), i);
        assert(s.drop_last().take(i) == s.take(i));
        assert(s.skip(i).drop_last() == s.drop_last().skip(i));
        assert(s.skip(i).last() == s.last());
    }
}

proof fn lemma_invocations_issues_split(s: Seq<InvocationIssues>, i: int)
    requires
        0 <= i <= s.len(),
    ensures
        invocations_issues(s) == invocations_issues(s.take(i)) + invocations_issues(s.skip(i)),
    decreases s.len(),
{
    if i == s.len() {
        assert(s.take(i) == s);
        assert(s.skip(i).len() == 0);
        assert(invocations_issues(s.skip(i)) == Seq::<IssueView>::empty());
    } else {
        lemma_invocations_issues_split(s.drop_last(), i);
        assert(s.drop_last().take(i) == s.take(i));
        assert(s.skip(i).drop_last() == s.drop_last().skip(i));
        assert(s.skip(i).last() == s.last());
    }
}

/// Appends copies of `more` to `issues` while fewer than [`MAX_ISSUES`]
/// are there; false when the limit was reached.
fn append_limited(issues: &mut Vec<Issue>, more: &[Issue]) -> (r: bool)
    requires
        old(issues)@.len() < MAX_ISSUES,
    ensures
        r ==> issues_view(final(issues)@) == issues_view(old(issues)@) + issues_view(more@)
            && final(issues)@.len() < MAX_ISSUES,
        !r ==> issues_view(final(issues)@) == (issues_view(old(issues)@) + issues_view(
            more@,
        )).take(MAX_ISSUES as int) && old(issues)@.len() + more@.len() >= MAX_ISSUES,
{
    let ghost start = issues_view(issues@);
    let mut i: usize = 0;
    while i < more.len()
        invariant
            i <= more@.len(),
            start == issues_view(old(issues)@),
            issues_view(issues@) == start + issues_view(more@).take(i as int),
            issues@.len() < MAX_ISSUES,
            start.len() + i == issues@.len(),
        decreases more@.len() - i,
    {
        let ghost prior = issues@;
        issues.push(copy_issue(&more[i]));
        assert(issues_view(issues@) =~= issues_view(prior).push(more@[i as int]@));
        assert(issues_view(more@).take(i + 1) =~= issues_view(more@).take(i as int).push(more@[i as int]@));
        i = i + 1;
        assert(issues_view(issues@) =~= start + issues_view(more@).take(i as int));
        if issues.len() >= MAX_ISSUES {
            assert(start.len() == old(issues)@.len());
            assert((start + issues_view(more@)).take(MAX_ISSUES as int) =~= start + issues_view(more@).take(i as int));
            return false;
        }
    }
    assert(issues_view(more@).take(i as int) == issues_view(more@));
    true
}

/// Appends copies of the issues of `lists`, one list after the other,
/// while fewer than [`MAX_ISSUES`] are there; false when the limit was
/// reached.
fn append_lists_limited(issues: &mut Vec<Issue>, lists: &[Vec<Issue>]) -> (r: bool)
    requires
        old(issues)@.len() < MAX_ISSUES,
    ensures
        r ==> issues_view(final(issues)@) == issues_view(old(issues)@) + list_issues(lists@)
            && final(issues)@.len() < MAX_ISSUES,
        !r ==> issues_view(final(issues)@) == (issues_view(old(issues)@) + list_issues(
            lists@,
        )).take(MAX_ISSUES as int) && old(issues)@.len() + list_issues(lists@).len() >= MAX_ISSUES,
{
    let ghost start = issues_view(issues@);
    let mut f: usize = 0;
    while f < lists.len()
        invariant
            f <= lists@.len(),
            start == issues_view(old(issues)@),
            issues_view(issues@) == start + list_issues(lists@.take(f as int)),
            issues@.len() < MAX_ISSUES,
        decreases lists@.len() - f,
    {
        proof {
            assert(lists@.take(f + 1).drop_last() == lists@.take(f as int));
            assert(lists@.take(f + 1).last() == lists@[f as int]);
            lemma_list_issues_split(lists@, f + 1);
        }
        if !append_limited(issues, lists[f].as_slice()) {
            proof {
                let p = start + list_issues(lists@.take(f + 1));
                assert(issues_view(issues@) =~= p.take(MAX_ISSUES as int));
                assert(start + list_issues(lists@) =~= p + list_issues(lists@.skip(f + 1)));
                assert((start + list_issues(lists@)).take(MAX_ISSUES as int) =~= p.take(
                    MAX_ISSUES as int,
                ));
            }
            return false;
        }
        f = f + 1;
    }
    assert(lists@.take(f as int) == lists@);
    true
}

/// The issues of a run: those of the cache hits, then those of each
/// invocation. Reaching [`MAX_ISSUES`] stops with the message for the
/// first issues up to the limit; otherwise the issues come back in order,
/// without those of plugins that errored when errored plugins are skipped.
pub fn build_issue_results(
    cache_hits: &[Vec<Issue>],
    invocations: &[InvocationIssues],
    skip_errored_plugins: bool,
) -> (r: Result<Vec<Issue>, String>)
    ensures
        ({
            let all = list_issues(cache_hits@) + invocations_issues(invocations@);
            &&& all.len() >= MAX_ISSUES ==> r is Err && exists|summary: Seq<(Seq<char>, nat)>|
                is_tool_summary(all.take(MAX_ISSUES as int), summary) && r->Err_0@
                    == max_issues_text(summary)
            &&& all.len() < MAX_ISSUES ==> r is Ok && issues_view(r->Ok_0@) == kept_issues(
                all,
                invocations@,
                skip_errored_plugins,
            )
        }),
{
    let ghost all = list_issues(cache_hits@) + invocations_issues(invocations@);
    let mut issues: Vec<Issue> = Vec::new();
    if !append_lists_limited(&mut issues, cache_hits) {
        proof {
            lemma_invocations_issues_split(invocations@, 0);
            assert(all.take(MAX_ISSUES as int) =~= list_issues(cache_hits@).take(MAX_ISSUES as int));
        }
        return Err(format_max_issues_error(issues.as_slice()));
    }
    assert(issues_view(issues@) =~= list_issues(cache_hits@));
    let mut j: usize = 0;
    while j < invocations.len()
        invariant
            j <= invocations@.len(),
            all == list_issues(cache_hits@) + invocations_issues(invocations@),
            issues_view(issues@) == list_issues(cache_hits@) + invocations_issues(
                invocations@.take(j as int),
            ),
            issues@.len() < MAX_ISSUES,
        decreases invocations@.len() - j,
    {
        let ghost before = issues_view(issues@);
        proof {
            assert(invocations@.take(j + 1).drop_last() == invocations@.take(j as int));
            assert(invocations@.take(j + 1).last() == invocations@[j as int]);
            lemma_invocations_issues_split(invocations@, j + 1);
        }
        match &invocations[j].file_issues {
            Some(files) => {
                if !append_lists_limited(&mut issues, files.as_slice()) {
                    proof {
                        let p = before + list_issues(files@);
                        assert(all =~= p + invocations_issues(invocations@.skip(j + 1)));
                        assert(all.take(MAX_ISSUES as int) =~= p.take(MAX_ISSUES as int));
                    }
                    return Err(format_max_issues_error(issues.as_slice()));
                }
            },
            None => {},
        }
        j = j + 1;
    }
    assert(invocations@.take(j as int) == invocations@);
    let mut errored: Vec<String> = Vec::new();
    let mut e: usize = 0;
    while e < invocations.len()
        invariant
            e <= invocations@.len(),
            forall|t: Seq<char>| #[trigger] names_contain(errored@, t) <==> errored_among(
                invocations@,
                e as int,
                skip_errored_plugins,
                t,
            ),
        decreases invocations@.len() - e,
    {
        let ghost before = errored@;
        if skip_errored_plugins && !invocations[e].success {
            errored.push(invocations[e].plugin_name.clone());
            proof {
                assert forall|t: Seq<char>| #[trigger] names_contain(errored@, t) <==> errored_among(
                    invocations@,
                    e + 1,
                    skip_errored_plugins,
                    t,
                ) by {
                    if names_contain(errored@, t) {
                        let a = choose|a: int| 0 <= a < errored@.len() && errored@[a]@ == t;
                        if a < before.len() {
                            assert(errored@[a] == before[a]);
                            assert(names_contain(before, t));
                        } else {
                            assert(invocations@[e as int].plugin_name@ == t);
                        }
                    }
                    if errored_among(invocations@, e + 1, skip_errored_plugins, t) {
                        let i = choose|i: int|
                            0 <= i < e + 1 && !invocations@[i].success && invocations@[i].plugin_name@
                                == t;
                        if i == e {
                            assert(errored@[before.len() as int]@ == t);
                        } else {
                            assert(errored_among(invocations@, e as int, skip_errored_plugins, t));
                            assert(names_contain(before, t));
                            let a = choose|a: int| 0 <= a < before.len() && before[a]@ == t;
                            assert(errored@[a] == before[a]);
                        }
                    }
                }
            }
        } else {
            proof {
                assert forall|t: Seq<char>| #[trigger] names_contain(errored@, t) <==> errored_among(
                    invocations@,
                    e + 1,
                    skip_errored_plugins,
                    t,
                ) by {
                    if errored_among(invocations@, e + 1, skip_errored_plugins, t) {
                        let i = choose|i: int|
                            0 <= i < e + 1 && !invocations@[i].success && invocations@[i].plugin_name@
                                == t;
                        assert(i < e);
                        assert(errored_among(invocations@, e as int, skip_errored_plugins, t));
                    }
                }
            }
        }
        e = e + 1;
    }
    let mut kept: Vec<Issue> = Vec::new();
    let mut k: usize = 0;
    while k < issues.len()
        invariant
            k <= issues@.len(),
            issues_view(issues@) == all,
            forall|t: Seq<char>| #[trigger] names_contain(errored@, t) <==> errored_plugin(
                invocations@,
                skip_errored_plugins,
                t,
            ),
            issues_view(kept@) == kept_issues(all.take(k as int), invocations@, skip_errored_plugins),
        decreases issues@.len() - k,
    {
        assert(all.take(k + 1).drop_last() == all.take(k as int));
        assert(all.take(k + 1).last() == issues@[k as int]@);
        let mut x: usize = 0;
        let mut found = false;
        while x < errored.len()
            invariant
                x <= errored@.len(),
                k < issues@.len(),
                found <==> exists|a: int| 0 <= a < x && #[trigger] errored@[a]@ == issues@[k as int].tool@,
            decreases errored@.len() - x,
        {
            if str_eq(errored[x].as_str(), issues[k].tool.as_str()) {
                found = true;
            }
            x = x + 1;
        }
        assert(found == names_contain(errored@, issues@[k as int].tool@));
        if !found {
            kept.push(copy_issue(&issues[k]));
        }
        k = k + 1;
    }
    assert(all.take(k as int) == all);
    Ok(kept)
}

/// Cuts the issues of one file to [`MAX_ISSUES_PER_FILE`]; true when the
/// file had that many or more, which marks it as limited.
pub fn apply_issue_limit(file_issues: &mut Vec<Issue>) -> (limited: bool)
    ensures
        limited == (old(file_issues)@.len() >= MAX_ISSUES_PER_FILE),
        limited ==> final(file_issues)@ == old(file_issues)@.take(MAX_ISSUES_PER_FILE as int),
        !limited ==> final(file_issues)@ == old(file_issues)@,
{
    if file_issues.len() >= MAX_ISSUES_PER_FILE {
        file_issues.truncate(MAX_ISSUES_PER_FILE);
        true
    } else {
        false
    }
}

/// The type of the message about files cut to the per-file limit.
pub const ISSUE_LIMIT_MESSAGE_TY: &'static str = "invocation.limit.issue_count";

/// The text of the message about files cut to the per-file limit.
pub const ISSUE_LIMIT_MESSAGE: &'static str =
    "Maximum issue count of 500 reached, skipping any further issues in files.";

/// The details of the message about the files `paths` cut to the
/// per-file limit.
pub open spec fn issue_limit_details_text(paths: Seq<Seq<char>>) -> Seq<char> {
    "The following files have been skipped due to the issue limit: "@ + join(paths, ", "@)
}

/// The details of the message about the files `paths` cut to the
/// per-file limit: the paths, comma separated.
pub fn issue_limit_details(paths: &[String]) -> (r: String)
    ensures
        r@ == issue_limit_details_text(paths@.map_values(|p: String| p@)),
{
    let mut pieces: Vec<Vec<char>> = Vec::new();
    let mut i: usize = 0;
    while i < paths.len()
        invariant
            i <= paths@.len(),
            pieces@.len() == i,
            forall|a: int| 0 <= a < i ==> #[trigger] pieces@[a]@ == paths@[a]@,
        decreases paths@.len() - i,
    {
        pieces.push(chars_of(paths[i].as_str()));
        i = i + 1;
    }
    assert(pieces@.map_values(|v: Vec<char>| v@) =~= paths@.map_values(|p: String| p@));
    let sep = chars_of(", ");
    let body = join_chars(pieces.as_slice(), sep.as_slice());
    let mut out = chars_of("The following files have been skipped due to the issue limit: ");
    append_chars(&mut out, body.as_slice());
    string_from_chars(out.as_slice())
}

/// The abstract value of files with their issue counts.
pub open spec fn file_counts_view(files: Seq<(String, usize)>) -> Seq<(Seq<char>, nat)> {
    files.map_values(|f: (String, usize)| (f.0@, f.1 as nat))
}

/// Whether one of `paths` is the path `p`, compared by components.
pub open spec fn has_path(paths: Seq<Seq<char>>, p: Seq<char>) -> bool {
    exists|k: int| 0 <= k < paths.len() && path_components_of(#[trigger] paths[k]) == path_components_of(p)
}

/// The files of `files` cut to the per-file limit: those with that many
/// issues or more, each path once (the first spelling of it), in the
/// order they come.
pub open spec fn limited_paths(files: Seq<(Seq<char>, nat)>) -> Seq<Seq<char>>
    decreases files.len(),
{
    if files.len() == 0 {
        seq![]
    } else {
        let rest = limited_paths(files.drop_last());
        let (p, c) = files.last();
        if c >= MAX_ISSUES_PER_FILE && !has_path(rest, p) {
            rest.push(p)
        } else {
            rest
        }
    }
}

/// The files of an invocation cut to the per-file limit, from each file's
/// path and issue count, and the details of the message that reports them:
/// none when no file was cut.
pub fn issue_limit_report(files: &[(String, usize)]) -> (r: (Vec<String>, Option<String>))
    ensures
        texts(r.0@) == limited_paths(file_counts_view(files@)),
        r.1 is None <==> r.0@.len() == 0,
        r.1 matches Some(d) ==> d@ == issue_limit_details_text(texts(r.0@)),
{
    let ghost fv = file_counts_view(files@);
    let mut cut: Vec<String> = Vec::new();
    let mut keys: Vec<Vec<String>> = Vec::new();
    let mut i: usize = 0;
    while i < files.len()
        invariant
            i <= files@.len(),
            fv == file_counts_view(files@),
            texts(cut@) == limited_paths(fv.take(i as int)),
            keys@.len() == cut@.len(),
            forall|k: int| 0 <= k < keys@.len() ==> texts(#[trigger] keys@[k]@) == path_components_of(cut@[k]@),
        decreases files@.len() - i,
    {
        let ghost before = texts(cut@);
        assert(fv.take(i + 1).drop_last() == fv.take(i as int));
        assert(fv.take(i + 1).last() == fv[i as int]);
        if files[i].1 >= MAX_ISSUES_PER_FILE {
            let key = path_components(files[i].0.as_str());
            let mut seen = false;
            let mut k: usize = 0;
            while k < keys.len()
                invariant
                    k <= keys@.len(),
                    keys@.len() == cut@.len(),
                    before == texts(cut@),
                    forall|j: int| 0 <= j < keys@.len() ==> texts(#[trigger] keys@[j]@) == path_components_of(cut@[j]@),
                    texts(key@) == path_components_of(files@[i as int].0@),
                    seen == exists|j: int| 0 <= j < k && path_components_of(#[trigger] before[j]) == path_components_of(files@[i as int].0@),
                decreases keys@.len() - k,
            {
                if same_components(&keys[k], &key) {
                    assert(path_components_of(before[k as int]) == path_components_of(files@[i as int].0@));
                    seen = true;
                }
                k = k + 1;
            }
            if !seen {
                let ghost old_keys = keys@;
                keys.push(key);
                cut.push(files[i].0.clone());
                proof {
                    assert(texts(cut@) =~= before.push(files@[i as int].0@));
                    assert forall|j: int| 0 <= j < keys@.len() implies texts(#[trigger] keys@[j]@) == path_components_of(cut@[j]@) by {
                        if j < old_keys.len() {
                            assert(keys@[j] == old_keys[j]);
                        }
                    }
                }
            }
        }
        i = i + 1;
    }
    proof {
        assert(fv.take(i as int) == fv);
    }
    if cut.len() == 0 {
        (cut, None)
    } else {
        let details = issue_limit_details(cut.as_slice());
        (cut, Some(details))
    }
}

} // verus!
