//! The `package.json` a Node.js tool is installed from.

use crate::tool::pairs_map;
use crate::text::{
    chars_contain, contains, push_str, replace_str, replaced,
    chars_equal, chars_of, chars_start_with, lines, lines_of, starts_with, str_eq, string_from_chars,
    trim, trim_chars, trim_end_pattern, trim_end_pattern_chars, trim_matches_char,
    trim_matches_chars,
};
use vstd::prelude::*;

verus! {

/// A JSON value; an object's entries keep their order, and its keys are
/// distinct.
#[derive(Debug)]
pub enum Json {
    Null,
    Bool(bool),
    /// A number, as it is written.
    Number(String),
    String(String),
    Array(Vec<Json>),
    Object(Vec<(String, Json)>),
}

/// The abstract value of a [`Json`].
pub enum JsonView {
    Null,
    Bool(bool),
    Number(Seq<char>),
    String(Seq<char>),
    Array(Seq<JsonView>),
    Object(Seq<(Seq<char>, JsonView)>),
}

/// The abstract value of a JSON value.
pub open spec fn json_view(j: Json) -> JsonView
    decreases j, 0nat,
{
    match j {
        Json::Null => JsonView::Null,
        Json::Bool(b) => JsonView::Bool(b),
        Json::Number(n) => JsonView::Number(n@),
        Json::String(s) => JsonView::String(s@),
        Json::Array(v) => JsonView::Array(json_seq_view(v@)),
        Json::Object(e) => JsonView::Object(entries_view(e@)),
    }
}

/// The abstract values of a list of JSON values.
pub open spec fn json_seq_view(s: Seq<Json>) -> Seq<JsonView>
    decreases s, 1nat,
{
    if s.len() == 0 {
        seq![]
    } else {
        json_seq_view(s.drop_last()).push(json_view(s[s.len() - 1]))
    }
}

/// The abstract values of a list of object entries.
pub open spec fn entries_view(s: Seq<(String, Json)>) -> Seq<(Seq<char>, JsonView)>
    decreases s, 1nat,
{
    if s.len() == 0 {
        seq![]
    } else {
        entries_view(s.drop_last()).push((s[s.len() - 1].0@, json_view(s[s.len() - 1].1)))
    }
}

/// The index of the first entry with key `k`, if there is one.
pub open spec fn entry_index(entries: Seq<(Seq<char>, JsonView)>, k: Seq<char>) -> Option<int>
    decreases entries.len(),
{
    if entries.len() == 0 {
        None
    } else if entries[0].0 == k {
        Some(0)
    } else {
        match entry_index(entries.drop_first(), k) {
            Some(i) => Some(i + 1),
            None => None,
        }
    }
}

/// `b` merged onto `a`: objects merge key by key, each value of `b` merged
/// onto that of `a` (a missing one counting as null); any other `b`
/// replaces `a`.
pub open spec fn merged(a: JsonView, b: JsonView) -> JsonView
    decreases b, 0nat,
{
    match b {
        JsonView::Object(be) => match a {
            JsonView::Object(ae) => JsonView::Object(merged_entries(ae, be)),
            _ => b,
        },
        _ => b,
    }
}

/// The entries `be` merged in order onto the entries `ae`: an existing key
/// keeps its place, a new one comes last.
pub open spec fn merged_entries(ae: Seq<(Seq<char>, JsonView)>, be: Seq<(Seq<char>, JsonView)>) -> Seq<
    (Seq<char>, JsonView),
>
    decreases be, 1nat,
{
    if be.len() == 0 {
        ae
    } else {
        let prev = merged_entries(ae, be.drop_last());
        let k = be[be.len() - 1].0;
        let v = be[be.len() - 1].1;
        match entry_index(prev, k) {
            Some(i) => prev.update(i, (k, merged(prev[i].1, v))),
            None => prev.push((k, merged(JsonView::Null, v))),
        }
    }
}

proof fn lemma_entries_view_index(s: Seq<(String, Json)>)
    ensures
        entries_view(s).len() == s.len(),
        forall|i: int|
            0 <= i < s.len() ==> #[trigger] entries_view(s)[i] == (s[i].0@, json_view(s[i].1)),
    decreases s.len(),
{
    if s.len() > 0 {
        lemma_entries_view_index(s.drop_last());
    }
}

proof fn lemma_entry_index_first(e: Seq<(Seq<char>, JsonView)>, k: Seq<char>, i: int)
    requires
        0 <= i < e.len(),
        e[i].0 == k,
        forall|j: int| 0 <= j < i ==> e[j].0 != k,
    ensures
        entry_index(e, k) == Some(i),
    decreases i,
{
    if i > 0 {
        lemma_entry_index_first(e.drop_first(), k, i - 1);
    }
}

proof fn lemma_entry_index_some(e: Seq<(Seq<char>, JsonView)>, k: Seq<char>)
    ensures
        entry_index(e, k) matches Some(i) ==> 0 <= i < e.len() && e[i].0 == k,
    decreases e.len(),
{
    if e.len() > 0 && e[0].0 != k {
        lemma_entry_index_some(e.drop_first(), k);
    }
}

proof fn lemma_entry_index_none(e: Seq<(Seq<char>, JsonView)>, k: Seq<char>)
    requires
        forall|j: int| 0 <= j < e.len() ==> e[j].0 != k,
    ensures
        entry_index(e, k) is None,
    decreases e.len(),
{
    if e.len() > 0 {
        lemma_entry_index_none(e.drop_first(), k);
    }
}

/// The index of the entry with key `k`, if there is one.
fn find_entry(entries: &Vec<(String, Json)>, k: &str) -> (r: Option<usize>)
    ensures
        match r {
            Some(i) => i < entries@.len() && entry_index(entries_view(entries@), k@) == Some(
                i as int,
            ),
            None => entry_index(entries_view(entries@), k@) is None,
        },
{
    proof {
        lemma_entries_view_index(entries@);
    }
    let ghost ev = entries_view(entries@);
    let mut i: usize = 0;
    while i < entries.len()
        invariant
            i <= entries@.len(),
            ev == entries_view(entries@),
            ev.len() == entries@.len(),
            forall|j: int| 0 <= j < entries@.len() ==> #[trigger] ev[j] == (entries@[j].0@, json_view(entries@[j].1)),
            forall|j: int| 0 <= j < i ==> ev[j].0 != k@,
        decreases entries@.len() - i,
    {
        if str_eq(entries[i].0.as_str(), k) {
            proof {
                lemma_entry_index_first(ev, k@, i as int);
            }
            return Some(i);
        }
        i = i + 1;
    }
    proof {
        lemma_entry_index_none(ev, k@);
    }
    None
}

/// `b` merged onto `a`.
#[verifier::loop_isolation(false)]
pub fn merge_values(a: Json, b: Json) -> (r: Json)
    ensures
        json_view(r) == merged(json_view(a), json_view(b)),
    decreases b,
{
    let ghost b0 = b;
    match b {
        Json::Object(be) => match a {
            Json::Object(ae) => {
                let ghost aev = entries_view(ae@);
                let ghost bev = entries_view(be@);
                let ghost be0 = be;
                proof {
                    lemma_entries_view_index(be@);
                }
                let mut acc = ae;
                let mut rest = be;
                let mut i: usize = 0;
                let total = rest.len();
                assert(bev.take(0) == Seq::<(Seq<char>, JsonView)>::empty());
                while rest.len() > 0
                    invariant
                        b0 == Json::Object(be0),
                        bev == entries_view(be0@),
                        bev.len() == be0@.len(),
                        forall|j: int| 0 <= j < be0@.len() ==> #[trigger] bev[j] == (be0@[j].0@, json_view(be0@[j].1)),
                        i + rest@.len() == be0@.len(),
                        total == be0@.len(),
                        forall|j: int| 0 <= j < rest@.len() ==> #[trigger] rest@[j] == be0@[i + j],
                        entries_view(acc@) == merged_entries(aev, bev.take(i as int)),
                    decreases rest@.len(),
                {
                    let (k, v) = rest.remove(0);
                    assert(i + 1 + rest@.len() == be0@.len());
                    proof {
                        assert(be0@[i as int] == (k, v));
                        assert(be0 == b0->Object_0);
                        assert(decreases_to!(b0 => b0->Object_0));
                        assert(decreases_to!(be0 => be0@));
                        assert(decreases_to!(be0@ => be0@[i as int]));
                        assert(decreases_to!(be0@[i as int] => be0@[i as int].1));
                        assert(decreases_to!(b0 => v));
                        assert(bev.take(i + 1).drop_last() == bev.take(i as int));
                        assert(bev.take(i + 1)[i as int] == bev[i as int]);
                        lemma_entries_view_index(acc@);
                    }
                    match find_entry(&acc, k.as_str()) {
                        Some(j) => {
                            let ghost before = acc@;
                            let (k0, old) = acc.remove(j);
                            let m = merge_values(old, v);
                            acc.insert(j, (k0, m));
                            proof {
                                lemma_entry_index_some(entries_view(before), k@);
                                assert(acc@ == before.update(j as int, (before[j as int].0, m)));
                                lemma_entries_view_index(before);
                                lemma_entries_view_index(acc@);
                                assert(entries_view(acc@) =~= entries_view(before).update(
                                    j as int,
                                    (k@, merged(entries_view(before)[j as int].1, json_view(v))),
                                ));
                            }
                        },
                        None => {
                            let ghost before = acc@;
                            let m = merge_values(Json::Null, v);
                            acc.push((k, m));
                            proof {
                                assert(acc@.drop_last() == before);
                            }
                        },
                    }
                    i = i + 1;
                }
                assert(bev.take(i as int) == bev);
                Json::Object(acc)
            },
            _ => Json::Object(be),
        },
        _ => b,
    }
}

/// Merges `b` onto `a`: objects key by key, recursively; any other value
/// of `b` replaces `a`.
pub fn merge_json(a: &mut Json, b: Json)
    ensures
        json_view(*final(a)) == merged(json_view(*old(a)), json_view(b)),
{
    let mut cur = Json::Null;
    std::mem::swap(a, &mut cur);
    *a = merge_values(cur, b);
}

/// The value of the first entry with key `k`, if there is one.
pub open spec fn entry_value(entries: Seq<(Seq<char>, JsonView)>, k: Seq<char>) -> Option<JsonView> {
    match entry_index(entries, k) {
        Some(i) => Some(entries[i].1),
        None => None,
    }
}

/// Whether no two entries have the same key.
pub open spec fn distinct_keys(entries: Seq<(Seq<char>, JsonView)>) -> bool {
    forall|i: int, j: int| 0 <= i < j < entries.len() ==> entries[i].0 != entries[j].0
}

proof fn lemma_entry_index_keys(s: Seq<(Seq<char>, JsonView)>, t: Seq<(Seq<char>, JsonView)>, k: Seq<char>)
    requires
        s.len() == t.len(),
        forall|i: int| 0 <= i < s.len() ==> #[trigger] s[i].0 == t[i].0,
    ensures
        entry_index(s, k) == entry_index(t, k),
    decreases s.len(),
{
    if s.len() > 0 {
        assert(s[0].0 == t[0].0);
        lemma_entry_index_keys(s.drop_first(), t.drop_first(), k);
    }
}

proof fn lemma_entry_index_push(s: Seq<(Seq<char>, JsonView)>, e: (Seq<char>, JsonView), k: Seq<char>)
    ensures
        e.0 != k ==> entry_index(s.push(e), k) == entry_index(s, k),
        e.0 == k && entry_index(s, k) is None ==> entry_index(s.push(e), k) == Some(s.len() as int),
    decreases s.len(),
{
    if s.len() == 0 {
        assert(s.push(e)[0] == e);
        assert(s.push(e).drop_first().len() == 0);
    } else {
        assert(s.push(e).drop_first() == s.drop_first().push(e));
        assert(s.push(e)[0] == s[0]);
        lemma_entry_index_push(s.drop_first(), e, k);
    }
}

/// Merging `be` onto `ae` gives, for each key, the value of `be` merged
/// onto that of `ae` (null when `ae` lacks it), and keeps the value of `ae`
/// for a key that `be` lacks.
pub proof fn law_merged_entries_lookup(
    ae: Seq<(Seq<char>, JsonView)>,
    be: Seq<(Seq<char>, JsonView)>,
    k: Seq<char>,
)
    requires
        distinct_keys(be),
    ensures
        entry_value(merged_entries(ae, be), k) == match entry_value(be, k) {
            Some(v) => Some(
                merged(
                    match entry_value(ae, k) {
                        Some(x) => x,
                        None => JsonView::Null,
                    },
                    v,
                ),
            ),
            None => entry_value(ae, k),
        },
    decreases be.len(),
{
    if be.len() > 0 {
        let rest = be.drop_last();
        let last = be[be.len() - 1];
        assert(distinct_keys(rest));
        law_merged_entries_lookup(ae, rest, k);
        let prev = merged_entries(ae, rest);
        assert(be == rest.push(last));
        lemma_entry_index_push(rest, last, k);
        lemma_entry_index_some(prev, last.0);
        lemma_entry_index_some(prev, k);
        lemma_entry_index_some(rest, k);
        if last.0 == k {
            assert(entry_index(rest, k) is None) by {
                if entry_index(rest, k) is Some {
                    let i = entry_index(rest, k)->0;
                    assert(be[i].0 == be[be.len() - 1].0);
                }
            }
        }
        match entry_index(prev, last.0) {
            Some(i) => {
                let upd = prev.update(i, (last.0, merged(prev[i].1, last.1)));
                lemma_entry_index_keys(upd, prev, k);
            },
            None => {
                lemma_entry_index_push(prev, (last.0, merged(JsonView::Null, last.1)), k);
            },
        }
    }
}

/// Merging an empty object onto an object leaves it as it is.
pub proof fn law_merge_empty_object(a: Seq<(Seq<char>, JsonView)>)
    ensures
        merged(JsonView::Object(a), JsonView::Object(seq![])) == JsonView::Object(a),
{
}

/// Merging anything but an object replaces what was there.
pub proof fn law_merge_non_object_replaces(a: JsonView, b: JsonView)
    requires
        !(b is Object),
    ensures
        merged(a, b) == b,
{
}

/// The abstract values of a list of strings.
pub open spec fn strings_view(v: Seq<String>) -> Seq<Seq<char>> {
    v.map_values(|g: String| g@)
}

/// The glob of a list item line `t` (which begins with `-`) of a pnpm
/// workspace file: the rest of the line, trimmed, without quotes around it.
pub open spec fn workspace_glob(t: Seq<char>) -> Seq<char> {
    trim_matches_char(trim_matches_char(trim(t.drop_first()), '\''), '"')
}

/// The package globs listed under `packages:` in the lines `ls` of a pnpm
/// workspace file, `in_packages` telling whether the list has begun. The
/// list ends at the first line that is neither an item, blank, nor a
/// comment.
pub open spec fn globs_from(ls: Seq<Seq<char>>, in_packages: bool) -> Seq<Seq<char>>
    decreases ls.len(),
{
    if ls.len() == 0 {
        seq![]
    } else {
        let t = trim(ls[0]);
        if t == "packages:"@ {
            globs_from(ls.drop_first(), true)
        } else if in_packages {
            if t.len() > 0 && t[0] == '-' {
                let g = workspace_glob(t);
                if g.len() > 0 {
                    seq![g] + globs_from(ls.drop_first(), true)
                } else {
                    globs_from(ls.drop_first(), true)
                }
            } else if t.len() > 0 && t[0] != '#' {
                seq![]
            } else {
                globs_from(ls.drop_first(), true)
            }
        } else {
            globs_from(ls.drop_first(), false)
        }
    }
}

/// The package globs of the pnpm workspace file with contents `contents`.
pub fn parse_pnpm_workspace_globs(contents: &str) -> (globs: Vec<String>)
    ensures
        strings_view(globs@) == globs_from(lines(contents@), false),
{
    proof {
        reveal_strlit("packages:");
    }
    let cs = chars_of(contents);
    let ls = lines_of(cs.as_slice());
    let ghost all = lines(contents@);
    let marker = chars_of("packages:");
    let mut globs: Vec<String> = Vec::new();
    let mut in_packages = false;
    let mut i: usize = 0;
    assert(all.skip(0) == all);
    while i < ls.len()
        invariant
            i <= ls@.len(),
            all == lines(contents@),
            ls@.len() == all.len(),
            forall|k: int| 0 <= k < ls@.len() ==> #[trigger] ls@[k]@ == all[k],
            marker@ == "packages:"@,
            strings_view(globs@) + globs_from(all.skip(i as int), in_packages)
                == globs_from(all, false),
        decreases ls@.len() - i,
    {
        let ghost before = strings_view(globs@);
        let ghost rest = all.skip(i as int);
        assert(rest[0] == all[i as int]);
        assert(rest.drop_first() == all.skip(i + 1));
        let t = trim_chars(ls[i].as_slice());
        if chars_equal(t.as_slice(), marker.as_slice()) {
            in_packages = true;
        } else if in_packages {
            if t.len() > 0 && t[0] == '-' {
                let inner = crate::text::subrange_chars(t.as_slice(), 1, t.len());
                assert(inner@ == t@.drop_first());
                let a = trim_chars(inner.as_slice());
                let b = trim_matches_chars(a.as_slice(), '\'');
                let g = trim_matches_chars(b.as_slice(), '"');
                if g.len() > 0 {
                    globs.push(string_from_chars(g.as_slice()));
                    proof {
                        assert(strings_view(globs@) =~= before.push(g@));
                        assert(before.push(g@) + globs_from(all.skip(i + 1), true) =~= before + (
                        seq![g@] + globs_from(all.skip(i + 1), true)));
                    }
                }
            } else if t.len() > 0 && t[0] != '#' {
                proof {
                    assert(t@ == trim(rest[0]));
                    assert(t@ != "packages:"@);
                    assert(globs_from(rest, in_packages) == Seq::<Seq<char>>::empty());
                    assert(before + Seq::<Seq<char>>::empty() == before);
                    assert(strings_view(globs@) == globs_from(all, false));
                }
                return globs;
            }
        }
        i = i + 1;
    }
    assert(all.skip(i as int).len() == 0);
    assert(strings_view(globs@) + Seq::<Seq<char>>::empty() == strings_view(globs@));
    globs
}

/// The directory a workspace glob lists packages in: the glob without
/// trailing `/**`, then without trailing `/*`.
pub open spec fn glob_base(glob: Seq<char>) -> Seq<char> {
    trim_end_pattern(trim_end_pattern(glob, "/**"@), "/*"@)
}

/// The directory a workspace glob lists packages in.
pub fn workspace_glob_base(glob: &str) -> (r: String)
    ensures
        r@ == glob_base(glob@),
{
    proof {
        reveal_strlit("/**");
        reveal_strlit("/*");
    }
    let g = chars_of(glob);
    let a = trim_end_pattern_chars(g.as_slice(), chars_of("/**").as_slice());
    let b = trim_end_pattern_chars(a.as_slice(), chars_of("/*").as_slice());
    string_from_chars(b.as_slice())
}

/// A copy of `j`.
#[verifier::loop_isolation(false)]
pub fn copy_json(j: &Json) -> (r: Json)
    ensures
        json_view(r) == json_view(*j),
    decreases j,
{
    match j {
        Json::Null => Json::Null,
        Json::Bool(b) => Json::Bool(*b),
        Json::Number(n) => Json::Number(n.clone()),
        Json::String(t) => Json::String(t.clone()),
        Json::Array(v) => {
            let mut out: Vec<Json> = Vec::new();
            let mut i: usize = 0;
            while i < v.len()
                invariant
                    i <= v@.len(),
                    out@.len() == i,
                    forall|a: int| 0 <= a < i ==> json_view(#[trigger] out@[a]) == json_view(v@[a]),
                decreases v@.len() - i,
            {
                proof {
                    assert(decreases_to!(*j => v@[i as int]));
                }
                let c = copy_json(&v[i]);
                out.push(c);
                i = i + 1;
            }
            proof {
                lemma_json_seq_view_index(out@);
                lemma_json_seq_view_index(v@);
                assert(json_seq_view(out@) =~= json_seq_view(v@));
            }
            Json::Array(out)
        },
        Json::Object(e) => {
            let mut out: Vec<(String, Json)> = Vec::new();
            let mut i: usize = 0;
            while i < e.len()
                invariant
                    i <= e@.len(),
                    out@.len() == i,
                    forall|a: int|
                        0 <= a < i ==> (#[trigger] out@[a]).0@ == e@[a].0@ && json_view(out@[a].1)
                            == json_view(e@[a].1),
                decreases e@.len() - i,
            {
                proof {
                    assert(decreases_to!(*j => e@[i as int].1));
                }
                let c = copy_json(&e[i].1);
                out.push((e[i].0.clone(), c));
                i = i + 1;
            }
            proof {
                lemma_entries_view_index(out@);
                lemma_entries_view_index(e@);
                assert(entries_view(out@) =~= entries_view(e@));
            }
            Json::Object(out)
        },
    }
}

proof fn lemma_json_seq_view_index(s: Seq<Json>)
    ensures
        json_seq_view(s).len() == s.len(),
        forall|i: int| 0 <= i < s.len() ==> #[trigger] json_seq_view(s)[i] == json_view(s[i]),
    decreases s.len(),
{
    if s.len() > 0 {
        lemma_json_seq_view_index(s.drop_last());
    }
}

/// The entries `e` without the one with key `k` when there is one, the
/// last entry taking its place (as removing from an order-keeping JSON map
/// does).
pub open spec fn swap_removed(e: Seq<(Seq<char>, JsonView)>, k: Seq<char>) -> Seq<(Seq<char>, JsonView)> {
    match entry_index(e, k) {
        Some(i) => e.update(i, e.last()).drop_last(),
        None => e,
    }
}

/// Removes the entry with key `k`, the last entry taking its place.
fn remove_key(e: &mut Vec<(String, Json)>, k: &str)
    ensures
        entries_view(final(e)@) == swap_removed(entries_view(old(e)@), k@),
{
    match find_entry(e, k) {
        Some(i) => {
            let ghost before = e@;
            let _ = e.swap_remove(i);
            proof {
                lemma_entries_view_index(before);
                lemma_entries_view_index(e@);
                assert(entries_view(e@) =~= entries_view(before).update(
                    i as int,
                    entries_view(before).last(),
                ).drop_last());
            }
        },
        None => {},
    }
}

/// The root entries of a user's `package.json` once its scripts are
/// dropped and its development dependencies folded into its dependencies.
pub open spec fn collapsed_entries(e0: Seq<(Seq<char>, JsonView)>) -> Seq<(Seq<char>, JsonView)> {
    let e = swap_removed(e0, "scripts"@);
    match entry_value(e, "devDependencies"@) {
        Some(dev) => {
            let e2 = match entry_index(e, "dependencies"@) {
                Some(i) => e.update(i, (e[i].0, merged(e[i].1, dev))),
                None => e.push(("dependencies"@, dev)),
            };
            swap_removed(e2, "devDependencies"@)
        },
        None => e,
    }
}

/// Whether the dependency `name` concerns the tool: it is the tool, or its
/// name holds one of the filters.
pub open spec fn related_dependency(name: Seq<char>, tool_name: Seq<char>, filters: Seq<Seq<char>>) -> bool {
    name == tool_name || exists|f: int| 0 <= f < filters.len() && contains(name, #[trigger] filters[f])
}

/// The entries of `e` that concern the tool, in order.
pub open spec fn related_entries(
    e: Seq<(Seq<char>, JsonView)>,
    tool_name: Seq<char>,
    filters: Seq<Seq<char>>,
) -> Seq<(Seq<char>, JsonView)>
    decreases e.len(),
{
    if e.len() == 0 {
        seq![]
    } else {
        let rest = related_entries(e.drop_last(), tool_name, filters);
        if related_dependency(e.last().0, tool_name, filters) {
            rest.push(e.last())
        } else {
            rest
        }
    }
}

/// The dependencies `d` once those unrelated to the tool are dropped: only
/// when there are filters and `d` is an object.
pub open spec fn filtered_dependencies(d: JsonView, tool_name: Seq<char>, filters: Seq<Seq<char>>) -> JsonView {
    match d {
        JsonView::Object(e) => if filters.len() > 0 {
            JsonView::Object(related_entries(e, tool_name, filters))
        } else {
            d
        },
        _ => d,
    }
}

/// The text of a dependency's version, empty when it is not a string.
pub open spec fn version_text(v: JsonView) -> Seq<char> {
    match v {
        JsonView::String(s) => s,
        _ => seq![],
    }
}

/// A dependency's version once local references are resolved: `file:`
/// paths become relative to the package file's directory `dir`, and
/// `workspace:` versions of workspace packages become `file:` paths to
/// them.
pub open spec fn resolved_version(
    name: Seq<char>,
    v: JsonView,
    dir: Seq<char>,
    workspace: Map<Seq<char>, Seq<char>>,
) -> JsonView {
    let t = version_text(v);
    if starts_with(t, "file:"@) {
        JsonView::String(replaced(t, "file:"@, "file:"@ + dir + "/"@))
    } else if starts_with(t, "workspace:"@) && workspace.contains_key(name) {
        JsonView::String("file:"@ + workspace[name])
    } else {
        v
    }
}

/// The dependencies `e` with their local references resolved.
pub open spec fn resolved_entries(
    e: Seq<(Seq<char>, JsonView)>,
    dir: Seq<char>,
    workspace: Map<Seq<char>, Seq<char>>,
) -> Seq<(Seq<char>, JsonView)> {
    e.map_values(|p: (Seq<char>, JsonView)| (p.0, resolved_version(p.0, p.1, dir, workspace)))
}

/// Whether the dependency `name` concerns the tool.
fn is_related(name: &str, tool_name: &str, filters: &[String]) -> (r: bool)
    ensures
        r == related_dependency(name@, tool_name@, strings_view(filters@)),
{
    if str_eq(name, tool_name) {
        return true;
    }
    let n = chars_of(name);
    let mut f: usize = 0;
    while f < filters.len()
        invariant
            f <= filters@.len(),
            n@ == name@,
            name@ != tool_name@,
            forall|a: int| 0 <= a < f ==> !contains(name@, #[trigger] strings_view(filters@)[a]),
        decreases filters@.len() - f,
    {
        let fc = chars_of(filters[f].as_str());
        if chars_contain(n.as_slice(), fc.as_slice()) {
            assert(strings_view(filters@)[f as int] == filters@[f as int]@);
            return true;
        }
        f = f + 1;
    }
    false
}

/// The dependencies `deps` without those unrelated to the tool, when there
/// are filters.
pub fn filter_dependencies(deps: Json, tool_name: &str, filters: &[String]) -> (r: Json)
    ensures
        json_view(r) == filtered_dependencies(json_view(deps), tool_name@, strings_view(filters@)),
{
    match deps {
        Json::Object(e) => {
            if filters.len() == 0 {
                return Json::Object(e);
            }
            let ghost ev = entries_view(e@);
            let ghost e0 = e@;
            proof {
                lemma_entries_view_index(e@);
            }
            let mut kept: Vec<(String, Json)> = Vec::new();
            let mut rest = e;
            let mut i: usize = 0;
            let total = rest.len();
            assert(ev.take(0) == Seq::<(Seq<char>, JsonView)>::empty());
            while rest.len() > 0
                invariant
                    ev == entries_view(e0),
                    ev.len() == e0.len(),
                    forall|j: int| 0 <= j < e0.len() ==> #[trigger] ev[j] == (e0[j].0@, json_view(e0[j].1)),
                    i + rest@.len() == e0.len(),
                    total == e0.len(),
                    forall|j: int| 0 <= j < rest@.len() ==> #[trigger] rest@[j] == e0[i + j],
                    entries_view(kept@) == related_entries(ev.take(i as int), tool_name@, strings_view(filters@)),
                decreases rest@.len(),
            {
                let (k, v) = rest.remove(0);
                assert(i + 1 + rest@.len() == e0.len());
                assert(e0[i as int] == (k, v));
                assert(ev.take(i + 1).drop_last() == ev.take(i as int));
                assert(ev.take(i + 1).last() == ev[i as int]);
                if is_related(k.as_str(), tool_name, filters) {
                    let ghost before = kept@;
                    kept.push((k, v));
                    assert(kept@.drop_last() == before);
                }
                i = i + 1;
            }
            assert(ev.take(i as int) == ev);
            Json::Object(kept)
        },
        other => other,
    }
}

/// The value of the last pair named `name` in `pairs`, if there is one.
fn last_value<'a>(pairs: &'a [(String, String)], name: &str) -> (r: Option<&'a String>)
    ensures
        match r {
            Some(v) => pairs_map(pairs@).contains_key(name@) && pairs_map(pairs@)[name@] == v@,
            None => !pairs_map(pairs@).contains_key(name@),
        },
{
    let mut found: Option<&String> = None;
    let mut i: usize = 0;
    while i < pairs.len()
        invariant
            i <= pairs@.len(),
            match found {
                Some(v) => pairs_map(pairs@.take(i as int)).contains_key(name@) && pairs_map(
                    pairs@.take(i as int),
                )[name@] == v@,
                None => !pairs_map(pairs@.take(i as int)).contains_key(name@),
            },
        decreases pairs@.len() - i,
    {
        assert(pairs@.take(i + 1).drop_last() == pairs@.take(i as int));
        assert(pairs@.take(i + 1).last() == pairs@[i as int]);
        if str_eq(pairs[i].0.as_str(), name) {
            found = Some(&pairs[i].1);
        }
        i = i + 1;
    }
    assert(pairs@.take(i as int) == pairs@);
    found
}

/// Whether `e` holds a dependency whose version is a `file:` path.
pub open spec fn has_file_dependency(e: Seq<(Seq<char>, JsonView)>) -> bool {
    exists|i: int| 0 <= i < e.len() && starts_with(version_text(#[trigger] e[i].1), "file:"@)
}

/// The dependencies `deps` (an object) with their local references
/// resolved; `package_dir` is the directory of the package file, needed
/// when a dependency is a `file:` path.
pub fn resolve_dependencies(
    deps: Json,
    package_dir: Option<&str>,
    workspace_packages: &[(String, String)],
) -> (r: Json)
    requires
        json_view(deps) is Object,
        has_file_dependency(json_view(deps)->Object_0) ==> package_dir is Some,
    ensures
        json_view(r) == JsonView::Object(
            resolved_entries(
                json_view(deps)->Object_0,
                match package_dir {
                    Some(d) => d@,
                    None => seq![],
                },
                pairs_map(workspace_packages@),
            ),
        ),
{
    proof {
        reveal_strlit("file:");
        reveal_strlit("workspace:");
        reveal_strlit("/");
    }
    let ghost dir = match package_dir {
        Some(d) => d@,
        None => Seq::<char>::empty(),
    };
    let ghost ws = pairs_map(workspace_packages@);
    match deps {
        Json::Object(e) => {
            let ghost ev = entries_view(e@);
            proof {
                lemma_entries_view_index(e@);
            }
            let mut out: Vec<(String, Json)> = Vec::new();
            let mut i: usize = 0;
            let file_prefix = chars_of("file:");
            let workspace_prefix = chars_of("workspace:");
            while i < e.len()
                invariant
                    i <= e@.len(),
                    ev == entries_view(e@),
                    ev.len() == e@.len(),
                    forall|j: int| 0 <= j < e@.len() ==> #[trigger] ev[j] == (e@[j].0@, json_view(e@[j].1)),
                    has_file_dependency(ev) ==> package_dir is Some,
                    dir == match package_dir {
                        Some(d) => d@,
                        None => Seq::<char>::empty(),
                    },
                    ws == pairs_map(workspace_packages@),
                    file_prefix@ == "file:"@,
                    workspace_prefix@ == "workspace:"@,
                    out@.len() == i,
                    forall|j: int|
                        0 <= j < i ==> entries_view(out@)[j] == (ev[j].0, resolved_version(
                            ev[j].0,
                            ev[j].1,
                            dir,
                            ws,
                        )),
                    entries_view(out@).len() == i,
                decreases e@.len() - i,
            {
                proof {
                    reveal_strlit("file:");
                    reveal_strlit("workspace:");
                    reveal_strlit("/");
                }
                let name = e[i].0.clone();
                let value = copy_json(&e[i].1);
                let text: Vec<char> = match &e[i].1 {
                    Json::String(t) => chars_of(t.as_str()),
                    _ => Vec::new(),
                };
                assert(text@ == version_text(ev[i as int].1));
                let resolved = if chars_start_with(text.as_slice(), file_prefix.as_slice()) {
                    assert(has_file_dependency(ev));
                    let d = package_dir.unwrap();
                    let mut to = chars_of("file:");
                    push_str(&mut to, d);
                    push_str(&mut to, "/");
                    let t = string_from_chars(text.as_slice());
                    Json::String(replace_str(t.as_str(), "file:", string_from_chars(to.as_slice()).as_str()))
                } else if chars_start_with(text.as_slice(), workspace_prefix.as_slice()) {
                    match last_value(workspace_packages, name.as_str()) {
                        Some(p) => {
                            let mut f = chars_of("file:");
                            push_str(&mut f, p.as_str());
                            Json::String(string_from_chars(f.as_slice()))
                        },
                        None => value,
                    }
                } else {
                    value
                };
                assert(json_view(resolved) == resolved_version(ev[i as int].0, ev[i as int].1, dir, ws));
                let ghost before = out@;
                out.push((name, resolved));
                proof {
                    lemma_entries_view_index(before);
                    lemma_entries_view_index(out@);
                    assert forall|j: int| 0 <= j < i + 1 implies entries_view(out@)[j] == (
                        ev[j].0,
                        resolved_version(ev[j].0, ev[j].1, dir, ws),
                    ) by {
                        if j < i {
                            assert(out@[j] == before[j]);
                            assert(entries_view(out@)[j] == entries_view(before)[j]);
                        }
                    }
                }
                i = i + 1;
            }
            proof {
                lemma_entries_view_index(out@);
                assert(entries_view(out@) =~= resolved_entries(ev, dir, ws));
            }
            Json::Object(out)
        },
        other => other,
    }
}

/// The dependencies of a user's package once those unrelated to the tool
/// are dropped and local references resolved.
pub open spec fn prepared_dependencies(
    d: JsonView,
    tool_name: Seq<char>,
    filters: Seq<Seq<char>>,
    dir: Seq<char>,
    workspace: Map<Seq<char>, Seq<char>>,
) -> JsonView {
    match filtered_dependencies(d, tool_name, filters) {
        JsonView::Object(e) => JsonView::Object(resolved_entries(e, dir, workspace)),
        other => other,
    }
}

/// A user's `package.json` prepared for installing the tool: scripts
/// dropped, development dependencies folded into the dependencies, and
/// these narrowed to the tool and resolved.
pub open spec fn prepared_user_package(
    user: JsonView,
    tool_name: Seq<char>,
    filters: Seq<Seq<char>>,
    dir: Seq<char>,
    workspace: Map<Seq<char>, Seq<char>>,
) -> JsonView {
    match user {
        JsonView::Object(e0) => {
            let e = collapsed_entries(e0);
            match entry_index(e, "dependencies"@) {
                Some(i) => JsonView::Object(
                    e.update(i, (e[i].0, prepared_dependencies(e[i].1, tool_name, filters, dir, workspace))),
                ),
                None => JsonView::Object(e),
            }
        },
        _ => user,
    }
}

/// The `package.json` a tool is installed from: the prepared user package
/// with what was already staged (an empty object when nothing was) merged
/// on top.
pub open spec fn staged_package(
    user: JsonView,
    staged: Option<JsonView>,
    tool_name: Seq<char>,
    filters: Seq<Seq<char>>,
    dir: Seq<char>,
    workspace: Map<Seq<char>, Seq<char>>,
) -> JsonView {
    merged(
        prepared_user_package(user, tool_name, filters, dir, workspace),
        match staged {
            Some(s) => s,
            None => JsonView::Object(seq![]),
        },
    )
}

/// Whether a user's package can be prepared: its dependencies, when it has
/// any, are an object, and a `file:` dependency among those kept comes with
/// the package file's directory.
pub open spec fn package_preparable(
    user: JsonView,
    tool_name: Seq<char>,
    filters: Seq<Seq<char>>,
    has_dir: bool,
) -> bool {
    match user {
        JsonView::Object(e0) => match entry_value(collapsed_entries(e0), "dependencies"@) {
            Some(d) => d is Object && (has_file_dependency(
                filtered_dependencies(d, tool_name, filters)->Object_0,
            ) ==> has_dir),
            None => true,
        },
        _ => true,
    }
}

/// The `package.json` a tool is installed from, built from the user's
/// package file `user`, the one already staged (`None` when there is
/// none), the tool's name and package filters, the directory of the
/// package file, and the packages of its pnpm workspace (name and path
/// pairs, later ones winning).
#[verifier::spinoff_prover]
#[verifier::rlimit(40)]
pub fn prepare_package_json(
    user: Json,
    staged: Option<Json>,
    tool_name: &str,
    package_filters: &[String],
    package_dir: Option<&str>,
    workspace_packages: &[(String, String)],
) -> (r: Json)
    requires
        package_preparable(json_view(user), tool_name@, strings_view(package_filters@), package_dir is Some),
    ensures
        json_view(r) == staged_package(
            json_view(user),
            match staged {
                Some(s) => Some(json_view(s)),
                None => None,
            },
            tool_name@,
            strings_view(package_filters@),
            match package_dir {
                Some(d) => d@,
                None => seq![],
            },
            pairs_map(workspace_packages@),
        ),
{
    let ghost filters = strings_view(package_filters@);
    let ghost dir = match package_dir {
        Some(d) => d@,
        None => Seq::<char>::empty(),
    };
    let ghost ws = pairs_map(workspace_packages@);
    let ghost uv = json_view(user);
    let prepared = match user {
        Json::Object(mut e) => {
            let ghost e0 = entries_view(e@);
            remove_key(&mut e, "scripts");
            let ghost e1 = entries_view(e@);
            match find_entry(&e, "devDependencies") {
                Some(v) => {
                    proof {
                        lemma_entries_view_index(e@);
                        lemma_entry_index_some(e1, "devDependencies"@);
                    }
                    let dev = copy_json(&e[v].1);
                    match find_entry(&e, "dependencies") {
                        Some(d) => {
                            let ghost before = e@;
                            let (k0, old) = e.remove(d);
                            let m = merge_values(old, dev);
                            e.insert(d, (k0, m));
                            proof {
                                lemma_entry_index_some(entries_view(before), "dependencies"@);
                                assert(e@ == before.update(d as int, (before[d as int].0, m)));
                                lemma_entries_view_index(before);
                                lemma_entries_view_index(e@);
                                assert(entries_view(e@) =~= e1.update(
                                    d as int,
                                    (e1[d as int].0, merged(e1[d as int].1, json_view(dev))),
                                ));
                            }
                        },
                        None => {
                            let ghost before = e@;
                            e.push(("dependencies".to_string(), dev));
                            assert(e@.drop_last() == before);
                        },
                    }
                    remove_key(&mut e, "devDependencies");
                },
                None => {},
            }
            assert(entries_view(e@) == collapsed_entries(e0));
            let ghost ec = entries_view(e@);
            match find_entry(&e, "dependencies") {
                Some(d) => {
                    proof {
                        lemma_entries_view_index(e@);
                        lemma_entry_index_some(ec, "dependencies"@);
                    }
                    let ghost before = e@;
                    let (k0, deps) = e.remove(d);
                    assert(json_view(deps) == ec[d as int].1);
                    let filtered = filter_dependencies(deps, tool_name, package_filters);
                    let resolved = resolve_dependencies(filtered, package_dir, workspace_packages);
                    e.insert(d, (k0, resolved));
                    proof {
                        assert(e@ == before.update(d as int, (before[d as int].0, resolved)));
                        lemma_entries_view_index(e@);
                        assert(entries_view(e@) =~= ec.update(
                            d as int,
                            (ec[d as int].0, prepared_dependencies(ec[d as int].1, tool_name@, filters, dir, ws)),
                        ));
                    }
                },
                None => {},
            }
            Json::Object(e)
        },
        other => other,
    };
    assert(json_view(prepared) == prepared_user_package(uv, tool_name@, filters, dir, ws));
    let staged_value = match staged {
        Some(s) => s,
        None => Json::Object(Vec::new()),
    };
    proof {
        if staged is None {
            assert(entries_view(Seq::<(String, Json)>::empty()) == Seq::<(Seq<char>, JsonView)>::empty());
        }
    }
    merge_values(prepared, staged_value)
}

/// The arguments npm installs a package file with: without `--no-package-lock`
/// when the user's lock file was staged, so that it is honoured.
pub fn package_file_install_arguments(lock_file_staged: bool) -> (r: Vec<&'static str>)
    ensures
        lock_file_staged ==> r@.len() == 2,
        !lock_file_staged ==> r@.len() == 3 && r@[2]@ == "--no-package-lock"@,
        r@[0]@ == "install"@,
        r@[1]@ == "--force"@,
{
    let mut arguments = vec!["install", "--force"];
    if !lock_file_staged {
        arguments.push("--no-package-lock");
    }
    arguments
}

/// Whether the user's lock file is staged with the package file: only when
/// no package filters narrow the dependencies.
pub fn wants_lock_file(package_filters: &[String]) -> (r: bool)
    ensures
        r == (package_filters@.len() == 0),
{
    package_filters.len() == 0
}

} // verus!
