use vstd::prelude::*;

verus! {

broadcast use vstd::string::group_string_axioms;

/// The characters of `s`, in order.
pub fn chars_of(s: &str) -> (v: Vec<char>)
    ensures
        v@ == s@,
{
    let mut v: Vec<char> = Vec::new();
    for c in it: s.chars()
        invariant
            it.seq() == s@,
            v@ == it.seq().take(it.index() as int),
    {
        v.push(c);
    }
    v
}

/// Appends `c` to `s`.
///
/// Trusted: calls `String::push`, which the std documentation describes as
/// appending the given char to the end of the string.
#[verifier::external_body]
pub fn push_char(s: &mut String, c: char)
    ensures
        final(s)@ == old(s)@.push(c),
{
    s.push(c);
}

/// The string made of the characters of `v`, in order.
pub fn string_from_chars(v: &[char]) -> (s: String)
    ensures
        s@ == v@,
{
    let mut s = String::new();
    let mut i: usize = 0;
    while i < v.len()
        invariant
            i <= v@.len(),
            s@ == v@.take(i as int),
        decreases v@.len() - i,
    {
        push_char(&mut s, v[i]);
        i = i + 1;
        assert(v@.take(i as int) == v@.take((i - 1) as int).push(v@[i - 1]));
    }
    assert(v@.take(v@.len() as int) == v@);
    s
}

/// One past the index of the first newline of `s` at or after `i`, or the
/// length of `s` when there is none.
pub open spec fn line_end_from(s: Seq<char>, i: int) -> int
    decreases s.len() - i,
{
    if i >= s.len() {
        s.len() as int
    } else if s[i] == '\n' {
        i + 1
    } else {
        line_end_from(s, i + 1)
    }
}

pub proof fn lemma_line_end_bounds(s: Seq<char>, i: int)
    requires
        0 <= i,
    ensures
        i < s.len() ==> i < line_end_from(s, i) <= s.len(),
        i >= s.len() ==> line_end_from(s, i) == s.len(),
    decreases s.len() - i,
{
    if i < s.len() && s[i] != '\n' {
        lemma_line_end_bounds(s, i + 1);
    }
}

/// The pieces of `s` cut after each newline, newline kept, as
/// `str::split_inclusive('\n')` gives them: no empty piece at the end.
pub open spec fn split_inclusive(s: Seq<char>) -> Seq<Seq<char>>
    decreases s.len(),
{
    if s.len() == 0 {
        seq![]
    } else {
        let e = line_end_from(s, 0);
        proof {
            lemma_line_end_bounds(s, 0);
        }
        seq![s.take(e)] + split_inclusive(s.skip(e))
    }
}

/// The concatenation of the pieces of `p`.
pub open spec fn flatten(p: Seq<Seq<char>>) -> Seq<char>
    decreases p.len(),
{
    if p.len() == 0 {
        seq![]
    } else {
        p[0] + flatten(p.drop_first())
    }
}

/// The number of bytes of `c` in UTF-8.
pub open spec fn char_utf8_len(c: char) -> nat {
    if (c as u32) < 0x80 {
        1
    } else if (c as u32) < 0x800 {
        2
    } else if (c as u32) < 0x10000 {
        3
    } else {
        4
    }
}

/// The number of bytes of `s` in UTF-8.
pub open spec fn utf8_len(s: Seq<char>) -> nat
    decreases s.len(),
{
    if s.len() == 0 {
        0
    } else {
        utf8_len(s.drop_last()) + char_utf8_len(s.last())
    }
}

/// A line of `split_inclusive` without its line terminator: the newline, and
/// a carriage return just before it.
pub open spec fn strip_line_end(l: Seq<char>) -> Seq<char> {
    if l.len() > 0 && l.last() == '\n' {
        let t = l.drop_last();
        if t.len() > 0 && t.last() == '\r' {
            t.drop_last()
        } else {
            t
        }
    } else {
        l
    }
}

/// The lines of `s` as `str::lines` gives them.
pub open spec fn lines(s: Seq<char>) -> Seq<Seq<char>> {
    split_inclusive(s).map_values(|l: Seq<char>| strip_line_end(l))
}

proof fn lemma_line_end_skip(s: Seq<char>, start: int, i: int)
    requires
        0 <= start <= i <= s.len(),
        forall|k: int| start <= k < i ==> s[k] != '\n',
    ensures
        line_end_from(s.skip(start), 0) == line_end_from(s.skip(start), i - start),
    decreases i - start,
{
    if i > start {
        lemma_line_end_skip(s, start, i - 1);
        lemma_line_end_step(s.skip(start), 0, i - 1 - start);
    }
}

proof fn lemma_line_end_step(t: Seq<char>, a: int, b: int)
    requires
        0 <= a <= b < t.len(),
        t[b] != '\n',
        line_end_from(t, a) == line_end_from(t, b),
    ensures
        line_end_from(t, a) == line_end_from(t, b + 1),
{
}

/// Cutting the first line off: when `s[start..i)` holds no newline and
/// `s[i]` is one, the pieces from `start` begin with `s[start..=i]`.
pub proof fn lemma_split_step(s: Seq<char>, start: int, i: int)
    requires
        0 <= start <= i < s.len(),
        forall|k: int| start <= k < i ==> s[k] != '\n',
        s[i] == '\n',
    ensures
        split_inclusive(s.skip(start)) == seq![s.subrange(start, i + 1)] + split_inclusive(
            s.skip(i + 1),
        ),
{
    let t = s.skip(start);
    lemma_line_end_skip(s, start, i);
    assert(line_end_from(t, i - start) == i - start + 1);
    assert(t.take(i - start + 1) == s.subrange(start, i + 1));
    assert(t.skip(i - start + 1) == s.skip(i + 1));
}

/// The last piece: when `s[start..]` is not empty and holds no newline, it is
/// the only piece from `start`.
pub proof fn lemma_split_last(s: Seq<char>, start: int)
    requires
        0 <= start < s.len(),
        forall|k: int| start <= k < s.len() ==> s[k] != '\n',
    ensures
        split_inclusive(s.skip(start)) == seq![s.skip(start)],
{
    let t = s.skip(start);
    lemma_line_end_skip(s, start, s.len() as int);
    assert(line_end_from(t, t.len() as int) == t.len());
    assert(t.take(t.len() as int) == t);
    assert(t.skip(t.len() as int) == Seq::<char>::empty());
    assert(split_inclusive(Seq::<char>::empty()) == Seq::<Seq<char>>::empty());
    assert(split_inclusive(t) == seq![t.take(t.len() as int)] + split_inclusive(
        t.skip(t.len() as int),
    ));
}

/// The pieces of `s`, each cut after a newline, as `str::split_inclusive('\n')`
/// gives them.
pub fn split_inclusive_newline(s: &[char]) -> (pieces: Vec<Vec<char>>)
    ensures
        pieces@.len() == split_inclusive(s@).len(),
        forall|k: int| 0 <= k < pieces@.len() ==> #[trigger] pieces@[k]@ == split_inclusive(s@)[k],
{
    let mut pieces: Vec<Vec<char>> = Vec::new();
    let mut current: Vec<char> = Vec::new();
    let mut start: usize = 0;
    let mut i: usize = 0;
    let ghost mut done: Seq<Seq<char>> = seq![];
    assert(s@.skip(0) == s@);
    while i < s.len()
        invariant
            start <= i <= s@.len(),
            current@ == s@.subrange(start as int, i as int),
            forall|k: int| start <= k < i ==> s@[k] != '\n',
            split_inclusive(s@) == done + split_inclusive(s@.skip(start as int)),
            pieces@.len() == done.len(),
            forall|k: int| 0 <= k < pieces@.len() ==> #[trigger] pieces@[k]@ == done[k],
        decreases s@.len() - i,
    {
        let c = s[i];
        current.push(c);
        if c == '\n' {
            proof {
                lemma_split_step(s@, start as int, i as int);
                assert(current@ == s@.subrange(start as int, i + 1));
                assert(split_inclusive(s@) == done.push(current@) + split_inclusive(
                    s@.skip(i + 1),
                ));
                done = done.push(current@);
            }
            pieces.push(current);
            current = Vec::new();
            start = i + 1;
        }
        i = i + 1;
    }
    if start < s.len() {
        proof {
            lemma_split_last(s@, start as int);
            assert(current@ == s@.skip(start as int));
            done = done.push(current@);
        }
        pieces.push(current);
    } else {
        assert(s@.skip(start as int) == Seq::<char>::empty());
    }
    assert(split_inclusive(s@) == done);
    pieces
}

/// Flattening a sequence with one more piece appends that piece.
pub proof fn lemma_flatten_push(p: Seq<Seq<char>>, x: Seq<char>)
    ensures
        flatten(p.push(x)) == flatten(p) + x,
    decreases p.len(),
{
    if p.len() == 0 {
        assert(p.push(x).drop_first() == Seq::<Seq<char>>::empty());
        assert(flatten(Seq::<Seq<char>>::empty()) == Seq::<char>::empty());
        assert(x + Seq::<char>::empty() == x);
    } else {
        assert(p.push(x).drop_first() == p.drop_first().push(x));
        lemma_flatten_push(p.drop_first(), x);
        assert(p[0] + (flatten(p.drop_first()) + x) == (p[0] + flatten(p.drop_first())) + x);
    }
}

/// The UTF-8 length of a concatenation is the sum of the lengths.
pub proof fn lemma_utf8_len_concat(a: Seq<char>, b: Seq<char>)
    ensures
        utf8_len(a + b) == utf8_len(a) + utf8_len(b),
    decreases b.len(),
{
    if b.len() == 0 {
        assert(a + b == a);
    } else {
        assert((a + b).drop_last() == a + b.drop_last());
        lemma_utf8_len_concat(a, b.drop_last());
    }
}

/// The number of bytes of `c` in UTF-8, as `char::len_utf8` gives it.
pub fn char_len_utf8(c: char) -> (n: usize)
    ensures
        n == char_utf8_len(c),
{
    if (c as u32) < 0x80 {
        1
    } else if (c as u32) < 0x800 {
        2
    } else if (c as u32) < 0x10000 {
        3
    } else {
        4
    }
}

/// The UTF-8 length of `s`, or `cap + 1` when it is larger than `cap`.
pub fn utf8_len_capped(s: &[char], cap: usize) -> (n: usize)
    requires
        cap < usize::MAX - 4,
    ensures
        utf8_len(s@) <= cap ==> n == utf8_len(s@),
        utf8_len(s@) > cap ==> n == cap + 1,
{
    let mut n: usize = 0;
    let mut i: usize = 0;
    while i < s.len()
        invariant
            i <= s@.len(),
            cap < usize::MAX - 4,
            n == utf8_len(s@.take(i as int)),
            n <= cap,
        decreases s@.len() - i,
    {
        let l = char_len_utf8(s[i]);
        assert(s@.take(i + 1).drop_last() == s@.take(i as int));
        if n + l > cap {
            proof {
                lemma_utf8_len_prefix_le(s@, i + 1);
            }
            return cap + 1;
        }
        n = n + l;
        i = i + 1;
    }
    assert(s@.take(i as int) == s@);
    n
}

/// The UTF-8 length of `s`.
pub fn utf8_len_u64(s: &[char]) -> (n: u64)
    requires
        utf8_len(s@) < u64::MAX,
    ensures
        n == utf8_len(s@),
{
    let mut n: u64 = 0;
    let mut i: usize = 0;
    while i < s.len()
        invariant
            i <= s@.len(),
            utf8_len(s@) < u64::MAX,
            n == utf8_len(s@.take(i as int)),
        decreases s@.len() - i,
    {
        let l = char_len_utf8(s[i]) as u64;
        assert(s@.take(i + 1).drop_last() == s@.take(i as int));
        proof {
            lemma_utf8_len_prefix_le(s@, i + 1);
        }
        n = n + l;
        i = i + 1;
    }
    assert(s@.take(i as int) == s@);
    n
}

/// A prefix is no longer in UTF-8 than the whole.
pub proof fn lemma_utf8_len_prefix_le(s: Seq<char>, k: int)
    requires
        0 <= k <= s.len(),
    ensures
        utf8_len(s.take(k)) <= utf8_len(s),
{
    assert(s == s.take(k) + s.skip(k));
    lemma_utf8_len_concat(s.take(k), s.skip(k));
}

/// Whether `c` has the Unicode `White_Space` property, as
/// `char::is_whitespace` tells.
pub open spec fn is_whitespace(c: char) -> bool {
    let u = c as u32;
    (0x9 <= u <= 0xd) || u == 0x20 || u == 0x85 || u == 0xa0 || u == 0x1680 || (0x2000 <= u
        <= 0x200a) || u == 0x2028 || u == 0x2029 || u == 0x202f || u == 0x205f || u == 0x3000
}

/// Whether `c` is a Unicode white space character.
pub fn char_is_whitespace(c: char) -> (r: bool)
    ensures
        r == is_whitespace(c),
{
    let u = c as u32;
    (0x9 <= u && u <= 0xd) || u == 0x20 || u == 0x85 || u == 0xa0 || u == 0x1680 || (0x2000 <= u
        && u <= 0x200a) || u == 0x2028 || u == 0x2029 || u == 0x202f || u == 0x205f || u == 0x3000
}

/// `s` without its trailing white space, as `str::trim_end` gives it.
pub open spec fn trim_end(s: Seq<char>) -> Seq<char>
    decreases s.len(),
{
    if s.len() > 0 && is_whitespace(s.last()) {
        trim_end(s.drop_last())
    } else {
        s
    }
}

/// `s` without its leading white space, as `str::trim_start` gives it.
pub open spec fn trim_start(s: Seq<char>) -> Seq<char>
    decreases s.len(),
{
    if s.len() > 0 && is_whitespace(s[0]) {
        trim_start(s.drop_first())
    } else {
        s
    }
}

/// `s` without leading and trailing white space, as `str::trim` gives it.
pub open spec fn trim(s: Seq<char>) -> Seq<char> {
    trim_start(trim_end(s))
}

/// The index one past the last character of `s` that is not white space.
proof fn lemma_trim_end_is_prefix(s: Seq<char>)
    ensures
        trim_end(s).len() <= s.len(),
        trim_end(s) == s.take(trim_end(s).len() as int),
    decreases s.len(),
{
    if s.len() > 0 && is_whitespace(s.last()) {
        lemma_trim_end_is_prefix(s.drop_last());
    }
}

/// `s` without trailing white space.
pub fn trim_end_chars(s: &[char]) -> (r: Vec<char>)
    ensures
        r@ == trim_end(s@),
{
    let mut n = s.len();
    assert(s@.take(n as int) == s@);
    while n > 0 && char_is_whitespace(s[n - 1])
        invariant
            n <= s@.len(),
            trim_end(s@) == trim_end(s@.take(n as int)),
        decreases n,
    {
        assert(s@.take(n as int).drop_last() == s@.take(n - 1));
        n = n - 1;
    }
    let mut r: Vec<char> = Vec::new();
    let mut i: usize = 0;
    while i < n
        invariant
            i <= n <= s@.len(),
            r@ == s@.take(i as int),
        decreases n - i,
    {
        r.push(s[i]);
        i = i + 1;
        assert(s@.take(i as int) == s@.take(i - 1).push(s@[i - 1]));
    }
    r
}

/// `s` without leading white space.
pub fn trim_start_chars(s: &[char]) -> (r: Vec<char>)
    ensures
        r@ == trim_start(s@),
{
    let mut k: usize = 0;
    assert(s@.skip(0) == s@);
    while k < s.len() && char_is_whitespace(s[k])
        invariant
            k <= s@.len(),
            trim_start(s@) == trim_start(s@.skip(k as int)),
        decreases s@.len() - k,
    {
        assert(s@.skip(k as int).drop_first() == s@.skip(k + 1));
        k = k + 1;
    }
    let mut r: Vec<char> = Vec::new();
    let mut i: usize = k;
    while i < s.len()
        invariant
            k <= i <= s@.len(),
            r@ == s@.subrange(k as int, i as int),
        decreases s@.len() - i,
    {
        r.push(s[i]);
        i = i + 1;
        assert(s@.subrange(k as int, i as int) == s@.subrange(k as int, i - 1).push(s@[i - 1]));
    }
    assert(s@.skip(k as int) == s@.subrange(k as int, s@.len() as int));
    r
}

/// `s` without leading and trailing white space.
pub fn trim_chars(s: &[char]) -> (r: Vec<char>)
    ensures
        r@ == trim(s@),
{
    let t = trim_end_chars(s);
    trim_start_chars(t.as_slice())
}

/// The pieces of `p` joined with `sep` between each two.
pub open spec fn join(p: Seq<Seq<char>>, sep: Seq<char>) -> Seq<char>
    decreases p.len(),
{
    if p.len() == 0 {
        seq![]
    } else if p.len() == 1 {
        p[0]
    } else {
        join(p.drop_last(), sep) + sep + p.last()
    }
}

/// Appends the characters of `b` to `a`.
pub fn append_chars(a: &mut Vec<char>, b: &[char])
    ensures
        final(a)@ == old(a)@ + b@,
{
    let mut i: usize = 0;
    while i < b.len()
        invariant
            i <= b@.len(),
            a@ == old(a)@ + b@.take(i as int),
        decreases b@.len() - i,
    {
        a.push(b[i]);
        i = i + 1;
        assert(b@.take(i as int) == b@.take(i - 1).push(b@[i - 1]));
    }
    assert(b@.take(b@.len() as int) == b@);
}

/// The characters of `s` from `from` up to `to`.
pub fn subrange_chars(s: &[char], from: usize, to: usize) -> (r: Vec<char>)
    requires
        from <= to <= s@.len(),
    ensures
        r@ == s@.subrange(from as int, to as int),
{
    let mut r: Vec<char> = Vec::new();
    let mut i = from;
    while i < to
        invariant
            from <= i <= to <= s@.len(),
            r@ == s@.subrange(from as int, i as int),
        decreases to - i,
    {
        r.push(s[i]);
        i = i + 1;
        assert(r@ == s@.subrange(from as int, i as int));
    }
    r
}

/// Whether `a` and `b` hold the same characters.
pub fn chars_equal(a: &[char], b: &[char]) -> (r: bool)
    ensures
        r == (a@ == b@),
{
    if a.len() != b.len() {
        return false;
    }
    let mut i: usize = 0;
    while i < a.len()
        invariant
            i <= a@.len(),
            a@.len() == b@.len(),
            forall|j: int| 0 <= j < i ==> a@[j] == b@[j],
        decreases a@.len() - i,
    {
        if a[i] != b[i] {
            return false;
        }
        i = i + 1;
    }
    assert(a@ =~= b@);
    true
}

/// Whether the strings `a` and `b` are equal.
pub fn str_eq(a: &str, b: &str) -> (r: bool)
    ensures
        r == (a@ == b@),
{
    let x = chars_of(a);
    let y = chars_of(b);
    chars_equal(x.as_slice(), y.as_slice())
}

/// An owned copy of `s`.
pub fn to_string(s: &str) -> (r: String)
    ensures
        r@ == s@,
{
    s.to_owned()
}

/// A copy of `s`.
pub fn copy_chars(s: &[char]) -> (r: Vec<char>)
    ensures
        r@ == s@,
{
    let mut r: Vec<char> = Vec::new();
    append_chars(&mut r, s);
    r
}

/// The pieces of `p` joined with `sep` between each two.
pub fn join_chars(p: &[Vec<char>], sep: &[char]) -> (r: Vec<char>)
    ensures
        r@ == join(p@.map_values(|v: Vec<char>| v@), sep@),
{
    let ghost q = p@.map_values(|v: Vec<char>| v@);
    let mut r: Vec<char> = Vec::new();
    let mut i: usize = 0;
    while i < p.len()
        invariant
            i <= p@.len(),
            q == p@.map_values(|v: Vec<char>| v@),
            r@ == join(q.take(i as int), sep@),
        decreases p@.len() - i,
    {
        assert(q.take(i + 1).drop_last() == q.take(i as int));
        if i > 0 {
            append_chars(&mut r, sep);
        } else {
            assert(q.take(0) == Seq::<Seq<char>>::empty());
        }
        append_chars(&mut r, p[i].as_slice());
        i = i + 1;
    }
    assert(q.take(p@.len() as int) == q);
    r
}

/// Whether `s` begins with `prefix`.
pub open spec fn starts_with(s: Seq<char>, prefix: Seq<char>) -> bool {
    prefix.len() <= s.len() && s.take(prefix.len() as int) == prefix
}

/// Whether `s` ends with `suffix`.
pub open spec fn ends_with(s: Seq<char>, suffix: Seq<char>) -> bool {
    suffix.len() <= s.len() && s.skip(s.len() - suffix.len()) == suffix
}

/// Whether `needle` occurs in `s`.
pub open spec fn contains(s: Seq<char>, needle: Seq<char>) -> bool {
    exists|i: int| 0 <= i <= s.len() - needle.len() && #[trigger] s.subrange(i, i + needle.len()) == needle
}

/// Whether `s` begins with `prefix`.
pub fn chars_start_with(s: &[char], prefix: &[char]) -> (r: bool)
    ensures
        r == starts_with(s@, prefix@),
{
    if prefix.len() > s.len() {
        return false;
    }
    let mut i: usize = 0;
    while i < prefix.len()
        invariant
            i <= prefix@.len() <= s@.len(),
            forall|j: int| 0 <= j < i ==> s@[j] == prefix@[j],
        decreases prefix@.len() - i,
    {
        if s[i] != prefix[i] {
            return false;
        }
        i = i + 1;
    }
    assert(s@.take(prefix@.len() as int) == prefix@);
    true
}

/// Whether `s` ends with `suffix`.
pub fn chars_end_with(s: &[char], suffix: &[char]) -> (r: bool)
    ensures
        r == ends_with(s@, suffix@),
{
    if suffix.len() > s.len() {
        return false;
    }
    let off = s.len() - suffix.len();
    let mut i: usize = 0;
    while i < suffix.len()
        invariant
            i <= suffix@.len() <= s@.len(),
            off == s@.len() - suffix@.len(),
            off + suffix@.len() == s.len(),
            forall|j: int| 0 <= j < i ==> s@[off + j] == suffix@[j],
        decreases suffix@.len() - i,
    {
        if s[off + i] != suffix[i] {
            assert(s@.skip(off as int)[i as int] != suffix@[i as int]);
            return false;
        }
        i = i + 1;
    }
    assert(s@.skip(off as int) == suffix@);
    true
}

/// Whether `needle` occurs in `s` at index `at`.
fn occurs_at(s: &[char], needle: &[char], at: usize) -> (r: bool)
    requires
        at + needle@.len() <= s@.len(),
    ensures
        r == (s@.subrange(at as int, at + needle@.len()) == needle@),
{
    let mut i: usize = 0;
    while i < needle.len()
        invariant
            i <= needle@.len(),
            at + needle@.len() <= s@.len(),
            at + needle@.len() <= s.len(),
            forall|j: int| 0 <= j < i ==> s@[at + j] == needle@[j],
        decreases needle@.len() - i,
    {
        if s[at + i] != needle[i] {
            assert(s@.subrange(at as int, at + needle@.len())[i as int] != needle@[i as int]);
            return false;
        }
        i = i + 1;
    }
    assert(s@.subrange(at as int, at + needle@.len()) == needle@);
    true
}

/// Whether `needle` occurs in `s`.
pub fn chars_contain(s: &[char], needle: &[char]) -> (r: bool)
    ensures
        r == contains(s@, needle@),
{
    if needle.len() > s.len() {
        return false;
    }
    let last = s.len() - needle.len();
    let mut at: usize = 0;
    loop
        invariant
            at <= last,
            last == s@.len() - needle@.len(),
            last + needle@.len() == s.len(),
            forall|j: int| 0 <= j < at ==> #[trigger] s@.subrange(j, j + needle@.len()) != needle@,
        decreases last - at,
    {
        if occurs_at(s, needle, at) {
            return true;
        }
        if at == last {
            return false;
        }
        at = at + 1;
    }
}

/// A line of `split_inclusive` without its line terminator.
pub fn strip_line_end_chars(l: &[char]) -> (r: Vec<char>)
    ensures
        r@ == strip_line_end(l@),
{
    let mut n = l.len();
    if n > 0 && l[n - 1] == '\n' {
        n = n - 1;
        if n > 0 && l[n - 1] == '\r' {
            n = n - 1;
        }
    }
    let mut r: Vec<char> = Vec::new();
    let mut i: usize = 0;
    while i < n
        invariant
            i <= n <= l@.len(),
            r@ == l@.take(i as int),
        decreases n - i,
    {
        r.push(l[i]);
        i = i + 1;
        assert(l@.take(i as int) == l@.take(i - 1).push(l@[i - 1]));
    }
    proof {
        if l@.len() > 0 && l@.last() == '\n' {
            assert(l@.drop_last() == l@.take(l@.len() - 1));
            if l@.len() > 1 && l@[l@.len() - 2] == '\r' {
                assert(l@.drop_last().drop_last() == l@.take(l@.len() - 2));
            }
        } else {
            assert(l@.take(l@.len() as int) == l@);
        }
    }
    r
}

/// The lines of `s`, as `str::lines` gives them.
pub fn lines_of(s: &[char]) -> (r: Vec<Vec<char>>)
    ensures
        r@.len() == lines(s@).len(),
        forall|k: int| 0 <= k < r@.len() ==> #[trigger] r@[k]@ == lines(s@)[k],
{
    let pieces = split_inclusive_newline(s);
    let mut r: Vec<Vec<char>> = Vec::new();
    let mut i: usize = 0;
    while i < pieces.len()
        invariant
            i <= pieces@.len(),
            pieces@.len() == split_inclusive(s@).len(),
            forall|k: int| 0 <= k < pieces@.len() ==> #[trigger] pieces@[k]@ == split_inclusive(s@)[k],
            r@.len() == i,
            forall|k: int| 0 <= k < i ==> #[trigger] r@[k]@ == lines(s@)[k],
        decreases pieces@.len() - i,
    {
        let l = strip_line_end_chars(pieces[i].as_slice());
        r.push(l);
        i = i + 1;
    }
    r
}

/// The decimal digits of `n`.
pub open spec fn decimal_digits(n: nat) -> Seq<char>
    decreases n,
{
    if n < 10 {
        seq![(('0' as u32) + n) as char]
    } else {
        decimal_digits(n / 10).push((('0' as u32) + (n % 10)) as char)
    }
}

/// The decimal form of `i`, as `Display` writes an integer.
pub open spec fn decimal_text(i: int) -> Seq<char> {
    if i < 0 {
        seq!['-'] + decimal_digits((-i) as nat)
    } else {
        decimal_digits(i as nat)
    }
}

/// The decimal digits of `n`.
pub fn u64_to_decimal(n: u64) -> (r: Vec<char>)
    ensures
        r@ == decimal_digits(n as nat),
    decreases n,
{
    let d = (n % 10) as u32;
    let c = char_from_digit(d);
    if n < 10 {
        let mut r: Vec<char> = Vec::new();
        r.push(c);
        r
    } else {
        let mut r = u64_to_decimal(n / 10);
        r.push(c);
        r
    }
}

fn char_from_digit(d: u32) -> (c: char)
    requires
        d < 10,
    ensures
        c == (('0' as u32) + d) as char,
{
    if d == 0 {
        '0'
    } else if d == 1 {
        '1'
    } else if d == 2 {
        '2'
    } else if d == 3 {
        '3'
    } else if d == 4 {
        '4'
    } else if d == 5 {
        '5'
    } else if d == 6 {
        '6'
    } else if d == 7 {
        '7'
    } else if d == 8 {
        '8'
    } else {
        '9'
    }
}

/// The decimal form of `i`.
pub fn i64_to_decimal(i: i64) -> (r: Vec<char>)
    ensures
        r@ == decimal_text(i as int),
{
    if i < 0 {
        let m: u64 = if i == i64::MIN {
            9223372036854775808u64
        } else {
            (-i) as u64
        };
        let d = u64_to_decimal(m);
        let mut r: Vec<char> = Vec::new();
        r.push('-');
        append_chars(&mut r, d.as_slice());
        r
    } else {
        u64_to_decimal(i as u64)
    }
}

/// The index of the first `c` of `s` at or after `i`, or the length of `s`
/// when there is none.
pub open spec fn find_from(s: Seq<char>, c: char, i: int) -> int
    decreases s.len() - i,
{
    if i >= s.len() {
        s.len() as int
    } else if s[i] == c {
        i
    } else {
        find_from(s, c, i + 1)
    }
}

pub proof fn lemma_find_from_bounds(s: Seq<char>, c: char, i: int)
    requires
        0 <= i <= s.len(),
    ensures
        i <= find_from(s, c, i) <= s.len(),
        find_from(s, c, i) < s.len() ==> s[find_from(s, c, i)] == c,
    decreases s.len() - i,
{
    if i < s.len() && s[i] != c {
        lemma_find_from_bounds(s, c, i + 1);
    }
}

proof fn lemma_find_from_skip(s: Seq<char>, c: char, start: int, i: int)
    requires
        0 <= start <= i <= s.len(),
        forall|k: int| start <= k < i ==> s[k] != c,
    ensures
        find_from(s.skip(start), c, 0) == find_from(s.skip(start), c, i - start),
    decreases i - start,
{
    if i > start {
        lemma_find_from_skip(s, c, start, i - 1);
        let t = s.skip(start);
        assert(t[i - 1 - start] == s[i - 1]);
    }
}

/// The pieces of `s` between the occurrences of `c`, as `str::split` with a
/// character gives them: one more piece than there are occurrences.
pub open spec fn split_on(s: Seq<char>, c: char) -> Seq<Seq<char>>
    decreases s.len(),
{
    let e = find_from(s, c, 0);
    proof {
        lemma_find_from_bounds(s, c, 0);
    }
    if e >= s.len() {
        seq![s]
    } else {
        seq![s.take(e)] + split_on(s.skip(e + 1), c)
    }
}

/// The pieces of `s` between the occurrences of `c`.
pub fn split_on_char(s: &[char], c: char) -> (pieces: Vec<Vec<char>>)
    ensures
        pieces@.len() == split_on(s@, c).len(),
        forall|k: int| 0 <= k < pieces@.len() ==> #[trigger] pieces@[k]@ == split_on(s@, c)[k],
{
    let mut pieces: Vec<Vec<char>> = Vec::new();
    let mut current: Vec<char> = Vec::new();
    let mut start: usize = 0;
    let mut i: usize = 0;
    let ghost mut done: Seq<Seq<char>> = seq![];
    assert(s@.skip(0) == s@);
    while i < s.len()
        invariant
            start <= i <= s@.len(),
            current@ == s@.subrange(start as int, i as int),
            forall|k: int| start <= k < i ==> s@[k] != c,
            split_on(s@, c) == done + split_on(s@.skip(start as int), c),
            pieces@.len() == done.len(),
            forall|k: int| 0 <= k < pieces@.len() ==> #[trigger] pieces@[k]@ == done[k],
        decreases s@.len() - i,
    {
        let d = s[i];
        if d == c {
            proof {
                let t = s@.skip(start as int);
                lemma_find_from_skip(s@, c, start as int, i as int);
                assert(t[i - start] == c);
                assert(find_from(t, c, 0) == i - start);
                assert(t.take(i - start) == current@);
                assert(t.skip(i - start + 1) == s@.skip(i + 1));
                assert(split_on(t, c) == seq![current@] + split_on(s@.skip(i + 1), c));
                assert(split_on(s@, c) == done.push(current@) + split_on(s@.skip(i + 1), c));
                done = done.push(current@);
            }
            pieces.push(current);
            current = Vec::new();
            start = i + 1;
        } else {
            current.push(d);
        }
        i = i + 1;
    }
    proof {
        let t = s@.skip(start as int);
        lemma_find_from_skip(s@, c, start as int, s@.len() as int);
        assert(find_from(t, c, t.len() as int) == t.len());
        assert(current@ == t);
        assert(split_on(t, c) == seq![t]);
        done = done.push(current@);
    }
    pieces.push(current);
    assert(split_on(s@, c) == done);
    pieces
}

/// The text that `Debug` gives for a string: quoted, with escapes.
pub uninterp spec fn debug_text(s: Seq<char>) -> Seq<char>;

/// Trusted: formats `s` with `{:?}`, std's `Debug` for `str`. The result
/// is named as a function of the string alone.
#[verifier::external_body]
pub fn debug_str(s: &str) -> (r: String)
    ensures
        r@ == debug_text(s@),
{
    format!("{:?}", s)
}

/// Appends the characters of `s` to `out`.
pub fn push_str(out: &mut Vec<char>, s: &str)
    ensures
        final(out)@ == old(out)@ + s@,
{
    let c = chars_of(s);
    append_chars(out, c.as_slice());
}

/// The last `n` pieces of `p` (all of them when there are fewer), joined
/// with newlines.
pub open spec fn last_lines(p: Seq<Seq<char>>, n: nat) -> Seq<char> {
    let from = if p.len() > n {
        p.len() - n
    } else {
        0
    };
    join(p.skip(from), "\n"@)
}

/// The last `n` of the lines `p`, joined with newlines.
pub fn last_lines_joined(p: &[Vec<char>], n: usize) -> (r: Vec<char>)
    ensures
        r@ == last_lines(p@.map_values(|v: Vec<char>| v@), n as nat),
{
    let ghost q = p@.map_values(|v: Vec<char>| v@);
    let from = if p.len() > n {
        p.len() - n
    } else {
        0
    };
    let mut last: Vec<Vec<char>> = Vec::new();
    let mut j: usize = from;
    while j < p.len()
        invariant
            from <= j <= p@.len(),
            q == p@.map_values(|v: Vec<char>| v@),
            last@.map_values(|v: Vec<char>| v@) == q.subrange(from as int, j as int),
        decreases p@.len() - j,
    {
        let c = copy_chars(p[j].as_slice());
        let ghost before = last@;
        last.push(c);
        assert(last@.map_values(|v: Vec<char>| v@) =~= before.map_values(|v: Vec<char>| v@).push(
            q[j as int],
        ));
        assert(q.subrange(from as int, j + 1) =~= q.subrange(from as int, j as int).push(
            q[j as int],
        ));
        j = j + 1;
    }
    assert(q.subrange(from as int, p@.len() as int) == q.skip(from as int));
    let sep = chars_of("\n");
    join_chars(last.as_slice(), sep.as_slice())
}

/// `s` with every occurrence of the non-empty `pat` replaced by `to`,
/// occurrences taken from the left without overlap, as `str::replace`
/// gives it.
pub open spec fn replaced(s: Seq<char>, pat: Seq<char>, to: Seq<char>) -> Seq<char>
    decreases s.len(),
{
    if pat.len() == 0 || s.len() < pat.len() {
        s
    } else if s.take(pat.len() as int) == pat {
        to + replaced(s.skip(pat.len() as int), pat, to)
    } else {
        seq![s[0]] + replaced(s.drop_first(), pat, to)
    }
}

/// `s` with every occurrence of `pat` replaced by `to`.
pub fn replace_str(s: &str, pat: &str, to: &str) -> (r: String)
    requires
        pat@.len() > 0,
    ensures
        r@ == replaced(s@, pat@, to@),
{
    let cs = chars_of(s);
    let ps = chars_of(pat);
    let ts = chars_of(to);
    let mut out: Vec<char> = Vec::new();
    let mut i: usize = 0;
    assert(cs@.skip(0) == cs@);
    assert(out@ + replaced(cs@, ps@, ts@) == replaced(cs@, ps@, ts@));
    while i < cs.len()
        invariant
            i <= cs@.len(),
            ps@ == pat@,
            ps@.len() > 0,
            out@ + replaced(cs@.skip(i as int), ps@, ts@) == replaced(cs@, ps@, ts@),
        decreases cs@.len() - i,
    {
        let ghost rest = cs@.skip(i as int);
        if ps.len() <= cs.len() - i && occurs_at(cs.as_slice(), ps.as_slice(), i) {
            proof {
                assert(rest.take(ps@.len() as int) == cs@.subrange(i as int, i + ps@.len()));
                assert(rest.skip(ps@.len() as int) == cs@.skip(i + ps@.len()));
                assert(out@ + ts@ + replaced(cs@.skip(i + ps@.len()), ps@, ts@) == out@ + (ts@
                    + replaced(cs@.skip(i + ps@.len()), ps@, ts@)));
            }
            append_chars(&mut out, ts.as_slice());
            i = i + ps.len();
        } else {
            proof {
                if rest.len() >= ps@.len() {
                    assert(rest.take(ps@.len() as int) == cs@.subrange(i as int, i + ps@.len()));
                } else {
                    assert(replaced(rest, ps@, ts@) == rest);
                    assert(replaced(rest.drop_first(), ps@, ts@) == rest.drop_first());
                    assert(rest == seq![rest[0]] + rest.drop_first());
                }
                assert(rest.drop_first() == cs@.skip(i + 1));
                assert(rest[0] == cs@[i as int]);
                assert(out@.push(cs@[i as int]) + replaced(cs@.skip(i + 1), ps@, ts@) == out@ + (
                seq![cs@[i as int]] + replaced(cs@.skip(i + 1), ps@, ts@)));
            }
            out.push(cs[i]);
            i = i + 1;
        }
    }
    assert(cs@.skip(i as int).len() == 0);
    assert(out@ + cs@.skip(i as int) == out@);
    string_from_chars(out.as_slice())
}

/// `s` without the occurrences of `c` at its start.
pub open spec fn trim_start_char(s: Seq<char>, c: char) -> Seq<char>
    decreases s.len(),
{
    if s.len() > 0 && s[0] == c {
        trim_start_char(s.drop_first(), c)
    } else {
        s
    }
}

/// `s` without the occurrences of `c` at its end.
pub open spec fn trim_end_char(s: Seq<char>, c: char) -> Seq<char>
    decreases s.len(),
{
    if s.len() > 0 && s.last() == c {
        trim_end_char(s.drop_last(), c)
    } else {
        s
    }
}

/// `s` without the occurrences of `c` at either end, as `str::trim_matches`
/// with a character gives it.
pub open spec fn trim_matches_char(s: Seq<char>, c: char) -> Seq<char> {
    trim_end_char(trim_start_char(s, c), c)
}

/// `s` without the occurrences of `c` at either end.
pub fn trim_matches_chars(s: &[char], c: char) -> (r: Vec<char>)
    ensures
        r@ == trim_matches_char(s@, c),
{
    let mut a: usize = 0;
    assert(s@.skip(0) == s@);
    while a < s.len() && s[a] == c
        invariant
            a <= s@.len(),
            trim_start_char(s@, c) == trim_start_char(s@.skip(a as int), c),
        decreases s@.len() - a,
    {
        assert(s@.skip(a as int).drop_first() == s@.skip(a + 1));
        a = a + 1;
    }
    let mut b: usize = s.len();
    let ghost t = s@.skip(a as int);
    assert(trim_start_char(s@, c) == t);
    assert(t.take(t.len() as int) == t);
    while b > a && s[b - 1] == c
        invariant
            a <= b <= s@.len(),
            t == s@.skip(a as int),
            trim_end_char(t, c) == trim_end_char(t.take(b - a), c),
        decreases b,
    {
        assert(t.take(b - a).drop_last() == t.take(b - a - 1));
        b = b - 1;
    }
    assert(t.take(b - a) == s@.subrange(a as int, b as int));
    subrange_chars(s, a, b)
}

/// `s` without the repeated occurrences of the non-empty `p` at its end, as
/// `str::trim_end_matches` gives it.
pub open spec fn trim_end_pattern(s: Seq<char>, p: Seq<char>) -> Seq<char>
    decreases s.len(),
{
    if p.len() > 0 && ends_with(s, p) {
        trim_end_pattern(s.take(s.len() - p.len()), p)
    } else {
        s
    }
}

/// `s` without the repeated occurrences of `p` at its end.
pub fn trim_end_pattern_chars(s: &[char], p: &[char]) -> (r: Vec<char>)
    requires
        p@.len() > 0,
    ensures
        r@ == trim_end_pattern(s@, p@),
{
    let mut cur = copy_chars(s);
    while chars_end_with(cur.as_slice(), p)
        invariant
            p@.len() > 0,
            trim_end_pattern(s@, p@) == trim_end_pattern(cur@, p@),
        decreases cur@.len(),
    {
        let n = cur.len() - p.len();
        cur = subrange_chars(cur.as_slice(), 0, n);
    }
    cur
}

/// The lower-case form of `s`, as `str::to_lowercase` gives it.
pub uninterp spec fn lowercase(s: Seq<char>) -> Seq<char>;

/// Trusted: `str::to_lowercase`. Its result (Unicode's lower-case
/// mapping) is named as a function of the string.
#[verifier::external_body]
pub fn to_lowercase(s: &str) -> (r: String)
    ensures
        r@ == lowercase(s@),
{
    s.to_lowercase()
}

/// The index of the first character of `s` at or after `i` that is one of
/// `seps`, or the length of `s`.
pub open spec fn find_any_from(s: Seq<char>, seps: Seq<char>, i: int) -> int
    decreases s.len() - i,
{
    if i >= s.len() {
        s.len() as int
    } else if seps.contains(s[i]) {
        i
    } else {
        find_any_from(s, seps, i + 1)
    }
}

pub proof fn lemma_find_any_from_bounds(s: Seq<char>, seps: Seq<char>, i: int)
    requires
        0 <= i <= s.len(),
    ensures
        i <= find_any_from(s, seps, i) <= s.len(),
    decreases s.len() - i,
{
    if i < s.len() && !seps.contains(s[i]) {
        lemma_find_any_from_bounds(s, seps, i + 1);
    }
}

proof fn lemma_find_any_from_skip(s: Seq<char>, seps: Seq<char>, start: int, i: int)
    requires
        0 <= start <= i <= s.len(),
        forall|k: int| start <= k < i ==> !seps.contains(s[k]),
    ensures
        find_any_from(s.skip(start), seps, 0) == find_any_from(s.skip(start), seps, i - start),
    decreases i - start,
{
    if i > start {
        lemma_find_any_from_skip(s, seps, start, i - 1);
        let t = s.skip(start);
        assert(t[i - 1 - start] == s[i - 1]);
    }
}

/// The pieces of `s` between the characters that are one of `seps`, as
/// `str::split` with a set of characters gives them.
pub open spec fn split_on_any(s: Seq<char>, seps: Seq<char>) -> Seq<Seq<char>>
    decreases s.len(),
{
    let e = find_any_from(s, seps, 0);
    proof {
        lemma_find_any_from_bounds(s, seps, 0);
    }
    if e >= s.len() {
        seq![s]
    } else {
        seq![s.take(e)] + split_on_any(s.skip(e + 1), seps)
    }
}

/// The pieces of `s` between the characters that are one of `seps`.
pub fn split_on_any_chars(s: &[char], seps: &[char]) -> (pieces: Vec<Vec<char>>)
    ensures
        pieces@.len() == split_on_any(s@, seps@).len(),
        forall|k: int|
            0 <= k < pieces@.len() ==> #[trigger] pieces@[k]@ == split_on_any(s@, seps@)[k],
{
    let mut pieces: Vec<Vec<char>> = Vec::new();
    let mut current: Vec<char> = Vec::new();
    let mut start: usize = 0;
    let mut i: usize = 0;
    let ghost mut done: Seq<Seq<char>> = seq![];
    assert(s@.skip(0) == s@);
    while i < s.len()
        invariant
            start <= i <= s@.len(),
            current@ == s@.subrange(start as int, i as int),
            forall|k: int| start <= k < i ==> !seps@.contains(s@[k]),
            split_on_any(s@, seps@) == done + split_on_any(s@.skip(start as int), seps@),
            pieces@.len() == done.len(),
            forall|k: int| 0 <= k < pieces@.len() ==> #[trigger] pieces@[k]@ == done[k],
        decreases s@.len() - i,
    {
        let d = s[i];
        let mut is_sep = false;
        let mut j: usize = 0;
        while j < seps.len()
            invariant
                j <= seps@.len(),
                is_sep <==> exists|a: int| 0 <= a < j && seps@[a] == d,
            decreases seps@.len() - j,
        {
            if seps[j] == d {
                is_sep = true;
            }
            j = j + 1;
        }
        assert(is_sep == seps@.contains(d));
        if is_sep {
            proof {
                let t = s@.skip(start as int);
                lemma_find_any_from_skip(s@, seps@, start as int, i as int);
                assert(t[i - start] == d);
                assert(find_any_from(t, seps@, 0) == i - start);
                assert(t.take(i - start) == current@);
                assert(t.skip(i - start + 1) == s@.skip(i + 1));
                assert(split_on_any(t, seps@) == seq![current@] + split_on_any(s@.skip(i + 1), seps@));
                assert(split_on_any(s@, seps@) == done.push(current@) + split_on_any(
                    s@.skip(i + 1),
                    seps@,
                ));
                done = done.push(current@);
            }
            pieces.push(current);
            current = Vec::new();
            start = i + 1;
        } else {
            current.push(d);
        }
        i = i + 1;
    }
    proof {
        let t = s@.skip(start as int);
        lemma_find_any_from_skip(s@, seps@, start as int, s@.len() as int);
        assert(find_any_from(t, seps@, t.len() as int) == t.len());
        assert(current@ == t);
        assert(split_on_any(t, seps@) == seq![t]);
        done = done.push(current@);
    }
    pieces.push(current);
    assert(split_on_any(s@, seps@) == done);
    pieces
}

/// `b` joined onto the path `a` with `/` as the separator, as
/// `Path::join` does on Unix: an absolute `b` replaces `a`.
pub open spec fn joined_path(a: Seq<char>, b: Seq<char>) -> Seq<char> {
    if b.len() > 0 && b[0] == '/' {
        b
    } else if a.len() == 0 {
        b
    } else if a.last() == '/' {
        a + b
    } else {
        a + seq!['/'] + b
    }
}

/// `b` joined onto the path `a`.
pub fn join_path(a: &str, b: &str) -> (r: String)
    ensures
        r@ == joined_path(a@, b@),
{
    let bs = chars_of(b);
    if bs.len() > 0 && bs[0] == '/' {
        return b.to_string();
    }
    let mut out = chars_of(a);
    if out.len() == 0 {
        return b.to_string();
    }
    if out[out.len() - 1] != '/' {
        out.push('/');
    }
    append_chars(&mut out, bs.as_slice());
    string_from_chars(out.as_slice())
}

} // verus!
