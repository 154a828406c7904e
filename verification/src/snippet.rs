use crate::text::{
    chars_of, flatten, lemma_flatten_push, lemma_line_end_bounds, lemma_utf8_len_concat,
    lemma_utf8_len_prefix_le, line_end_from, split_inclusive, split_inclusive_newline,
    string_from_chars, utf8_len, utf8_len_capped,
};
use vstd::prelude::*;

verus! {

/// At most this many lines of a snippet are kept.
pub const MAX_SNIPPET_LINES: usize = 1000;

/// At most this many bytes (50 KiB) of a snippet are kept.
pub const MAX_SNIPPET_BYTES: usize = 51200;

/// Whether `k` is the number of leading lines of `pieces` that a truncated
/// snippet keeps: no more than the line limit, within the byte limit, and
/// as many as both limits allow.
pub open spec fn kept_lines(pieces: Seq<Seq<char>>, k: int) -> bool {
    &&& 0 <= k <= pieces.len()
    &&& k <= MAX_SNIPPET_LINES
    &&& utf8_len(flatten(pieces.take(k))) <= MAX_SNIPPET_BYTES
    &&& (k < pieces.len() && k < MAX_SNIPPET_LINES) ==> utf8_len(flatten(pieces.take(k + 1)))
        > MAX_SNIPPET_BYTES
}

/// The kept text `t` of `snippet`, without a trailing newline that the
/// snippet itself did not end with.
pub open spec fn without_added_newline(t: Seq<char>, snippet: Seq<char>) -> Seq<char> {
    if t.len() > 0 && t.last() == '\n' && !(snippet.len() > 0 && snippet.last() == '\n') {
        t.drop_last()
    } else {
        t
    }
}

/// The number of leading lines of `pieces` that a truncated snippet keeps.
pub open spec fn kept_count(pieces: Seq<Seq<char>>) -> int {
    choose|k: int| kept_lines(pieces, k)
}

/// What truncating `snippet` keeps: its first whole lines within both
/// limits, without a trailing newline that the snippet did not end with.
pub open spec fn truncated_text(snippet: Seq<char>) -> Seq<char> {
    let p = split_inclusive(snippet);
    without_added_newline(flatten(p.take(kept_count(p))), snippet)
}

/// The pieces of a text, put back together, are the text.
proof fn lemma_flatten_split(s: Seq<char>)
    ensures
        flatten(split_inclusive(s)) == s,
    decreases s.len(),
{
    if s.len() > 0 {
        let e = line_end_from(s, 0);
        lemma_line_end_bounds(s, 0);
        lemma_flatten_split(s.skip(e));
        let p = split_inclusive(s);
        assert(p[0] == s.take(e));
        assert(p.drop_first() == split_inclusive(s.skip(e)));
        assert(s.take(e) + s.skip(e) =~= s);
    }
}

/// The leading pieces of `p`, flattened, begin the flattening of `p`.
proof fn lemma_flatten_take(p: Seq<Seq<char>>, j: int)
    requires
        0 <= j <= p.len(),
    ensures
        flatten(p) == flatten(p.take(j)) + flatten(p.skip(j)),
    decreases j,
{
    if j == 0 {
        assert(p.take(0) =~= Seq::<Seq<char>>::empty());
        assert(p.skip(0) =~= p);
        assert(flatten(Seq::<Seq<char>>::empty()) + flatten(p) =~= flatten(p));
    } else {
        let q = p.drop_first();
        lemma_flatten_take(q, j - 1);
        assert(p.take(j)[0] == p[0]);
        assert(p.take(j).drop_first() =~= q.take(j - 1));
        assert(p.skip(j) =~= q.skip(j - 1));
        assert(p[0] + (flatten(q.take(j - 1)) + flatten(q.skip(j - 1))) =~= (p[0] + flatten(
            q.take(j - 1),
        )) + flatten(q.skip(j - 1)));
    }
}

/// Only one number of lines meets both limits as a truncated snippet keeps
/// them.
proof fn lemma_kept_unique(p: Seq<Seq<char>>, a: int, b: int)
    requires
        kept_lines(p, a),
        kept_lines(p, b),
    ensures
        a == b,
{
    if a < b {
        lemma_kept_below(p, a, b);
    } else if b < a {
        lemma_kept_below(p, b, a);
    }
}

/// Of two counts of lines, the smaller cannot meet both limits as a
/// truncated snippet keeps them when the larger does: it would stop short
/// of a limit it need not stop at.
proof fn lemma_kept_below(p: Seq<Seq<char>>, a: int, b: int)
    requires
        a < b,
    ensures
        !(kept_lines(p, a) && kept_lines(p, b)),
{
    if kept_lines(p, a) && kept_lines(p, b) {
        let q = p.take(b);
        lemma_flatten_take(q, a + 1);
        assert(q.take(a + 1) =~= p.take(a + 1));
        lemma_utf8_len_concat(flatten(p.take(a + 1)), flatten(q.skip(a + 1)));
    }
}

/// A snippet within both limits is kept whole.
pub proof fn law_short_snippets_are_kept_whole(snippet: Seq<char>)
    requires
        split_inclusive(snippet).len() <= MAX_SNIPPET_LINES,
        utf8_len(snippet) <= MAX_SNIPPET_BYTES,
    ensures
        truncated_text(snippet) == snippet,
{
    let p = split_inclusive(snippet);
    lemma_flatten_split(snippet);
    assert(p.take(p.len() as int) =~= p);
    assert(kept_lines(p, p.len() as int));
    lemma_kept_unique(p, kept_count(p), p.len() as int);
}

/// A truncated snippet begins the snippet and stays within the byte limit.
pub proof fn law_truncation_keeps_a_prefix(snippet: Seq<char>)
    ensures
        truncated_text(snippet).len() <= snippet.len(),
        snippet.take(truncated_text(snippet).len() as int) == truncated_text(snippet),
        utf8_len(truncated_text(snippet)) <= MAX_SNIPPET_BYTES,
{
    let p = split_inclusive(snippet);
    lemma_kept_exists(p);
    let k = kept_count(p);
    let t = flatten(p.take(k));
    lemma_flatten_split(snippet);
    lemma_flatten_take(p, k);
    assert(snippet == t + flatten(p.skip(k)));
    assert(snippet.take(t.len() as int) =~= t);
    let r = truncated_text(snippet);
    if r != t {
        assert(r == t.drop_last());
        assert(snippet.take(r.len() as int) =~= r);
        assert(t == t.drop_last().push(t.last()));
        lemma_utf8_len_prefix_le(t, r.len() as int);
        assert(t.take(r.len() as int) =~= r);
    }
}

/// Some number of lines meets both limits as a truncated snippet keeps
/// them: as many leading lines as fit.
proof fn lemma_kept_exists(p: Seq<Seq<char>>)
    ensures
        kept_lines(p, kept_count(p)),
{
    assert(p.take(0) =~= Seq::<Seq<char>>::empty());
    lemma_kept_from(p, 0);
}

/// Counting up from `k` lines that fit, some count meets both limits.
proof fn lemma_kept_from(p: Seq<Seq<char>>, k: int)
    requires
        0 <= k <= p.len(),
        k <= MAX_SNIPPET_LINES,
        utf8_len(flatten(p.take(k))) <= MAX_SNIPPET_BYTES,
    ensures
        exists|j: int| kept_lines(p, j),
    decreases p.len() - k,
{
    if k < p.len() && k < MAX_SNIPPET_LINES && utf8_len(flatten(p.take(k + 1))) <= MAX_SNIPPET_BYTES {
        lemma_kept_from(p, k + 1);
    } else {
        assert(kept_lines(p, k));
    }
}

/// Where a line of `x + y` from `i` ends, when it ends within `x` or at a
/// newline of `x`, is where the line of `x` ends.
proof fn lemma_line_end_concat(x: Seq<char>, y: Seq<char>, i: int)
    requires
        0 <= i <= x.len(),
    ensures
        line_end_from(x + y, i) <= x.len() ==> line_end_from(x, i) == line_end_from(x + y, i),
        i < x.len() && x[line_end_from(x, i) - 1] == '\n' ==> line_end_from(x + y, i)
            == line_end_from(x, i),
        line_end_from(x, i) < x.len() ==> x[line_end_from(x, i) - 1] == '\n',
    decreases x.len() - i,
{
    lemma_line_end_bounds(x, i);
    lemma_line_end_bounds(x + y, i);
    if i == x.len() {
        if y.len() == 0 {
            assert(x + y =~= x);
        }
    } else {
        assert((x + y)[i] == x[i]);
        if x[i] != '\n' {
            lemma_line_end_concat(x, y, i + 1);
            lemma_line_end_bounds(x, i + 1);
        }
    }
}

/// A text has no more lines than any text it begins.
proof fn lemma_split_prefix_len(x: Seq<char>, y: Seq<char>)
    ensures
        split_inclusive(x).len() <= split_inclusive(x + y).len(),
    decreases x.len(),
{
    if x.len() > 0 {
        let e = line_end_from(x, 0);
        lemma_line_end_bounds(x, 0);
        lemma_line_end_bounds(x + y, 0);
        lemma_line_end_concat(x, y, 0);
        assert(split_inclusive(x).len() == 1 + split_inclusive(x.skip(e)).len());
        assert((x + y).len() > 0);
        let e2 = line_end_from(x + y, 0);
        assert(split_inclusive(x + y).len() == 1 + split_inclusive((x + y).skip(e2)).len());
        if x[e - 1] == '\n' {
            assert(e2 == e);
            lemma_split_prefix_len(x.skip(e), y);
            assert((x + y).skip(e) =~= x.skip(e) + y);
        } else {
            assert(x.skip(e) =~= Seq::<char>::empty());
            assert(split_inclusive(x.skip(e)).len() == 0);
        }
    }
}

/// The first `k` lines of a text, put back together, have at most `k`
/// lines.
proof fn lemma_split_of_kept(s: Seq<char>, k: int)
    requires
        0 <= k <= split_inclusive(s).len(),
    ensures
        split_inclusive(flatten(split_inclusive(s).take(k))).len() <= k,
    decreases s.len(),
{
    let p = split_inclusive(s);
    if k == 0 {
        assert(p.take(0) =~= Seq::<Seq<char>>::empty());
    } else {
        let e = line_end_from(s, 0);
        lemma_line_end_bounds(s, 0);
        let rest = s.skip(e);
        let q = split_inclusive(rest);
        assert(p.take(k)[0] == s.take(e));
        assert(p.take(k).drop_first() =~= q.take(k - 1));
        let a = s.take(e);
        let b = flatten(q.take(k - 1));
        assert(flatten(p.take(k)) == a + b);
        lemma_flatten_split(rest);
        lemma_flatten_take(q, k - 1);
        let r = flatten(q.skip(k - 1));
        assert(rest == b + r);
        assert(s =~= a + rest);
        assert(s =~= (a + b) + r);
        lemma_line_end_concat(a + b, r, 0);
        lemma_line_end_bounds(a + b, 0);
        assert((a + b).take(e) =~= a);
        assert((a + b).skip(e) =~= b);
        lemma_split_of_kept(rest, k - 1);
    }
}

/// A truncated snippet stays within both limits, so truncating it again
/// keeps it whole: truncation is idempotent.
pub proof fn law_truncation_is_idempotent(snippet: Seq<char>)
    ensures
        split_inclusive(truncated_text(snippet)).len() <= MAX_SNIPPET_LINES,
        utf8_len(truncated_text(snippet)) <= MAX_SNIPPET_BYTES,
        truncated_text(truncated_text(snippet)) == truncated_text(snippet),
{
    let p = split_inclusive(snippet);
    lemma_kept_exists(p);
    let k = kept_count(p);
    let t = flatten(p.take(k));
    lemma_split_of_kept(snippet, k);
    law_truncation_keeps_a_prefix(snippet);
    let r = truncated_text(snippet);
    if r != t {
        assert(t =~= r + seq![t.last()]);
        lemma_split_prefix_len(r, seq![t.last()]);
    }
    law_short_snippets_are_kept_whole(r);
}

/// Truncates a snippet to its first whole lines within both limits: at most
/// [`MAX_SNIPPET_LINES`] lines and [`MAX_SNIPPET_BYTES`] bytes.
pub fn truncate_snippet(snippet: &str) -> (truncated: String)
    ensures
        truncated@ == truncated_text(snippet@),
        split_inclusive(truncated@).len() <= MAX_SNIPPET_LINES,
        utf8_len(truncated@) <= MAX_SNIPPET_BYTES,
{
    let chars = chars_of(snippet);
    let pieces = split_inclusive_newline(chars.as_slice());
    let ghost p = split_inclusive(snippet@);
    let mut out: Vec<char> = Vec::new();
    let mut byte_count: usize = 0;
    let mut i: usize = 0;
    assert(p.take(0) == Seq::<Seq<char>>::empty());
    assert(flatten(Seq::<Seq<char>>::empty()) == Seq::<char>::empty());
    while i < pieces.len() && i < MAX_SNIPPET_LINES
        invariant
            i <= pieces@.len(),
            i <= MAX_SNIPPET_LINES,
            p == split_inclusive(snippet@),
            pieces@.len() == p.len(),
            forall|j: int| 0 <= j < pieces@.len() ==> #[trigger] pieces@[j]@ == p[j],
            out@ == flatten(p.take(i as int)),
            byte_count == utf8_len(out@),
            byte_count <= MAX_SNIPPET_BYTES,
        ensures
            i <= pieces@.len(),
            out@ == flatten(p.take(i as int)),
            kept_lines(p, i as int),
        decreases pieces@.len() - i,
    {
        let line = &pieces[i];
        let len = utf8_len_capped(line.as_slice(), MAX_SNIPPET_BYTES);
        proof {
            assert(p.take(i + 1) == p.take(i as int).push(p[i as int]));
            lemma_flatten_push(p.take(i as int), p[i as int]);
            lemma_utf8_len_concat(out@, p[i as int]);
        }
        if byte_count + len > MAX_SNIPPET_BYTES {
            assert(kept_lines(p, i as int));
            break;
        }
        let mut j: usize = 0;
        let ghost before = out@;
        while j < line.len()
            invariant
                j <= line@.len(),
                out@ == before + line@.take(j as int),
            decreases line@.len() - j,
        {
            out.push(line[j]);
            j = j + 1;
            assert(line@.take(j as int) == line@.take(j - 1).push(line@[j - 1]));
        }
        assert(line@.take(j as int) == line@);
        byte_count = byte_count + len;
        i = i + 1;
    }
    let ghost k = i as int;
    proof {
        assert(kept_lines(p, k));
        assert(exists|j: int| kept_lines(p, j));
        lemma_kept_unique(p, kept_count(p), k);
    }
    let ends_nl = out.len() > 0 && out[out.len() - 1] == '\n';
    let snippet_ends_nl = chars.len() > 0 && chars[chars.len() - 1] == '\n';
    if ends_nl && !snippet_ends_nl {
        out.pop();
    }
    proof {
        law_truncation_is_idempotent(snippet@);
    }
    string_from_chars(out.as_slice())
}

} // verus!
