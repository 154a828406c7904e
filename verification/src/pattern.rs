//! Regular expressions, through the `regex` crate, and globs, through the
//! `globset` crate.

use crate::text::{chars_of, push_str, string_from_chars};
use vstd::prelude::*;

verus! {

/// Whether `regex::Regex::new` accepts `pattern`.
pub uninterp spec fn regex_compiles(pattern: Seq<char>) -> bool;

/// What the first match of `pattern` in `haystack` holds for capture group
/// `group`: `None` when the pattern does not match (or does not compile),
/// `Some(None)` when it matches without that group taking part, else the
/// group's text.
pub uninterp spec fn regex_captures_group(pattern: Seq<char>, haystack: Seq<char>, group: nat) -> Option<
    Option<Seq<char>>,
>;

/// Trusted: whether `regex::Regex::new(pattern)` returns `Ok`. The result is
/// named, not described: the regex syntax is the crate's.
#[verifier::external_body]
pub(crate) fn is_valid_regex(pattern: &str) -> (r: bool)
    ensures
        r == regex_compiles(pattern@),
{
    regex::Regex::new(pattern).is_ok()
}

/// Trusted: compiles `pattern` with `regex::Regex::new`, takes the first
/// match in `haystack` with `Regex::captures`, and gives the text of capture
/// group `group` (`Captures::get`); nothing when the pattern does not
/// compile. The result is named as a function of the three arguments.
#[verifier::external_body]
pub(crate) fn captures_group(pattern: &str, haystack: &str, group: usize) -> (r: Option<Option<String>>)
    ensures
        match r {
            None => regex_captures_group(pattern@, haystack@, group as nat) is None,
            Some(None) => regex_captures_group(pattern@, haystack@, group as nat) == Some(
                None::<Seq<char>>,
            ),
            Some(Some(s)) => regex_captures_group(pattern@, haystack@, group as nat) == Some(
                Some(s@),
            ),
        },
{
    match regex::Regex::new(pattern) {
        Ok(re) => re.captures(haystack).map(|c| c.get(group).map(|m| m.as_str().to_string())),
        Err(_) => None,
    }
}

/// Whether `pattern` matches somewhere in `haystack` (false when it does
/// not compile).
pub uninterp spec fn regex_matches(pattern: Seq<char>, haystack: Seq<char>) -> bool;

/// Trusted: compiles `pattern` with `regex::Regex::new` and tells whether
/// it matches in `haystack` (`Regex::is_match`); false when the pattern
/// does not compile. The result is named as a function of both arguments.
#[verifier::external_body]
pub(crate) fn is_match(pattern: &str, haystack: &str) -> (r: bool)
    ensures
        r == regex_matches(pattern@, haystack@),
{
    match regex::Regex::new(pattern) {
        Ok(re) => re.is_match(haystack),
        Err(_) => false,
    }
}

/// A reference to an environment variable in a plugin setting:
/// `${env.NAME}`, the name being the first group.
pub const ENV_REFERENCE_PATTERN: &'static str = "\\$\\{env\\.(.+?)\\}";

/// The value of the variable `name` in `env`, pairs of a name and a value:
/// the first pair with that name, or nothing.
pub open spec fn env_lookup(env: Seq<(Seq<char>, Seq<char>)>, name: Seq<char>) -> Seq<char>
    decreases env.len(),
{
    if env.len() == 0 {
        seq![]
    } else if env[0].0 == name {
        env[0].1
    } else {
        env_lookup(env.drop_first(), name)
    }
}

/// The abstract value of a list of name and value pairs.
pub open spec fn pairs_view(env: Seq<(String, String)>) -> Seq<(Seq<char>, Seq<char>)> {
    env.map_values(|p: (String, String)| (p.0@, p.1@))
}

/// The value of the variable `name` in `env`, empty when it is not set.
pub fn env_value(env: &[(String, String)], name: &str) -> (r: String)
    ensures
        r@ == env_lookup(pairs_view(env@), name@),
{
    let ghost e = pairs_view(env@);
    let mut i: usize = 0;
    assert(e.skip(0) == e);
    while i < env.len()
        invariant
            i <= env@.len(),
            e == pairs_view(env@),
            env_lookup(e, name@) == env_lookup(e.skip(i as int), name@),
        decreases env@.len() - i,
    {
        assert(e.skip(i as int).drop_first() == e.skip(i + 1));
        assert(e.skip(i as int)[0] == e[i as int]);
        if crate::text::str_eq(env[i].0.as_str(), name) {
            return env[i].1.clone();
        }
        i = i + 1;
    }
    String::new()
}

/// The text around the `${env.NAME}` references of `value`, as
/// `regex::Regex::split` by [`ENV_REFERENCE_PATTERN`] gives it: the text
/// before the first reference, between each two, and after the last.
pub uninterp spec fn env_reference_gaps_of(value: Seq<char>) -> Seq<Seq<char>>;

/// The names of the `${env.NAME}` references of `value`, in order, as
/// `regex::Regex::captures_iter` of [`ENV_REFERENCE_PATTERN`] gives their
/// first groups.
pub uninterp spec fn env_reference_names_of(value: Seq<char>) -> Seq<Seq<char>>;

/// The reference `${env.NAME}` to the variable `name`.
pub open spec fn env_reference_text(name: Seq<char>) -> Seq<char> {
    "${env."@ + name + "}"@
}

/// The references to each of `names`.
pub open spec fn env_reference_texts(names: Seq<Seq<char>>) -> Seq<Seq<char>> {
    Seq::new(names.len(), |i: int| env_reference_text(names[i]))
}

/// The values in `env` of each of `names`.
pub open spec fn env_lookups(env: Seq<(Seq<char>, Seq<char>)>, names: Seq<Seq<char>>) -> Seq<Seq<char>> {
    Seq::new(names.len(), |i: int| env_lookup(env, names[i]))
}

/// The gaps `gaps` with each of `fills` between two of them: the first gap,
/// the first fill, the second gap, and so on.
pub open spec fn interleaved(gaps: Seq<Seq<char>>, fills: Seq<Seq<char>>) -> Seq<char>
    decreases fills.len(),
{
    if fills.len() == 0 {
        if gaps.len() > 0 {
            gaps[0]
        } else {
            seq![]
        }
    } else {
        interleaved(gaps.take(fills.len() as int), fills.drop_last()) + fills.last() + gaps[fills.len() as int]
    }
}

/// What `value` becomes when each `${env.NAME}` reference found by
/// [`ENV_REFERENCE_PATTERN`] is replaced by the value of `NAME` in `env`,
/// or by nothing when `env` does not set it.
pub open spec fn env_references_replaced(
    value: Seq<char>,
    env: Seq<(Seq<char>, Seq<char>)>,
) -> Seq<char> {
    interleaved(env_reference_gaps_of(value), env_lookups(env, env_reference_names_of(value)))
}

/// Trusted: `regex::Regex::split` of `value` by [`ENV_REFERENCE_PATTERN`],
/// named as a function of `value`.
#[verifier::external_body]
fn env_reference_gaps(value: &str) -> (r: Vec<String>)
    ensures
        texts(r@) == env_reference_gaps_of(value@),
{
    regex::Regex::new(ENV_REFERENCE_PATTERN).unwrap().split(value).map(|g| g.to_string()).collect()
}

/// Trusted: the first groups of `regex::Regex::captures_iter` of
/// [`ENV_REFERENCE_PATTERN`] on `value`, named as a function of `value`.
/// Claimed besides, as `split` and `captures_iter` walk the same matches:
/// there is one more gap than there are references, and `value` is its
/// gaps with the reference `${env.NAME}` of each name between them.
#[verifier::external_body]
fn env_reference_names(value: &str) -> (r: Vec<String>)
    ensures
        texts(r@) == env_reference_names_of(value@),
        env_reference_gaps_of(value@).len() == r@.len() + 1,
        value@ == interleaved(env_reference_gaps_of(value@), env_reference_texts(texts(r@))),
{
    regex::Regex::new(ENV_REFERENCE_PATTERN).unwrap().captures_iter(value).map(
        |c| c.get(1).map_or("", |m| m.as_str()).to_string(),
    ).collect()
}

proof fn lemma_interleaved_step(gaps: Seq<Seq<char>>, fills: Seq<Seq<char>>, i: int)
    requires
        0 <= i < fills.len(),
        gaps.len() == fills.len() + 1,
    ensures
        interleaved(gaps.take(i + 2), fills.take(i + 1)) == interleaved(gaps.take(i + 1), fills.take(i))
            + fills[i] + gaps[i + 1],
{
    let f = fills.take(i + 1);
    assert(f.drop_last() =~= fills.take(i));
    assert(gaps.take(i + 2).take(f.len() - 1 + 1) =~= gaps.take(i + 1));
}

/// `value` with each `${env.NAME}` reference replaced by the value of
/// `NAME` in `env`, or by nothing when `env` does not set it.
pub fn replace_env_references(value: &str, env: &[(String, String)]) -> (r: String)
    ensures
        r@ == env_references_replaced(value@, pairs_view(env@)),
{
    let gaps = env_reference_gaps(value);
    let names = env_reference_names(value);
    let ghost g = texts(gaps@);
    let ghost fills = env_lookups(pairs_view(env@), texts(names@));
    let mut out: Vec<char> = chars_of(gaps[0].as_str());
    proof {
        assert(fills.take(0).len() == 0);
        assert(g.take(1)[0] == g[0]);
    }
    let mut i: usize = 0;
    while i < names.len()
        invariant
            i <= names@.len(),
            gaps@.len() == names@.len() + 1,
            g == texts(gaps@),
            fills == env_lookups(pairs_view(env@), texts(names@)),
            out@ == interleaved(g.take(i + 1), fills.take(i as int)),
        decreases names@.len() - i,
    {
        let v = env_value(env, names[i].as_str());
        push_str(&mut out, v.as_str());
        push_str(&mut out, gaps[i + 1].as_str());
        proof {
            lemma_interleaved_step(g, fills, i as int);
        }
        i = i + 1;
    }
    proof {
        assert(g.take(names@.len() as int + 1) =~= g);
        assert(fills.take(names@.len() as int) =~= fills);
    }
    string_from_chars(out.as_slice())
}

/// Whether `globset::GlobBuilder` builds the glob `pattern` with
/// `literal_separator(true)`, so that `*` and `?` do not match `/`.
pub uninterp spec fn glob_builds(pattern: Seq<char>) -> bool;

/// The message of the error `globset::GlobBuilder` gives for the glob
/// `pattern` when it does not build.
pub uninterp spec fn glob_build_error(pattern: Seq<char>) -> Seq<char>;

/// The pattern text a built glob keeps.
pub uninterp spec fn glob_text(g: globset::Glob) -> Seq<char>;

/// The pattern texts of the globs added to a set builder, in order.
pub uninterp spec fn builder_globs(b: globset::GlobSetBuilder) -> Seq<Seq<char>>;

/// Whether `globset::GlobSetBuilder::build` builds a set from the globs
/// `patterns`, each built as [`build_glob`] builds it.
pub uninterp spec fn globset_builds(patterns: Seq<Seq<char>>) -> bool;

/// The message of the error `globset::GlobSetBuilder::build` gives for the
/// globs `patterns` when they do not build into a set.
pub uninterp spec fn globset_build_error(patterns: Seq<Seq<char>>) -> Seq<char>;

/// The pattern texts of the globs a built set was built from.
pub uninterp spec fn set_globs(s: globset::GlobSet) -> Seq<Seq<char>>;

/// Whether one of the globs `patterns`, built into a set, matches `path`.
pub uninterp spec fn globs_match(patterns: Seq<Seq<char>>, path: Seq<char>) -> bool;

#[verifier::external_type_specification]
#[verifier::external_body]
pub struct ExGlob(globset::Glob);

#[verifier::external_type_specification]
#[verifier::external_body]
pub struct ExGlobSetBuilder(globset::GlobSetBuilder);

#[verifier::external_type_specification]
#[verifier::external_body]
pub struct ExGlobSet(globset::GlobSet);

/// Trusted: `globset::GlobBuilder::new(pattern)` with
/// `literal_separator(true)`, then `build`. Whether it builds and its
/// error's message are named as functions of the pattern; a built glob
/// keeps the pattern's text.
#[verifier::external_body]
fn build_glob(pattern: &str) -> (r: Result<globset::Glob, String>)
    ensures
        r is Ok <==> glob_builds(pattern@),
        match r {
            Ok(g) => glob_text(g) == pattern@,
            Err(e) => e@ == glob_build_error(pattern@),
        },
{
    globset::GlobBuilder::new(pattern).literal_separator(true).build().map_err(|e| e.to_string())
}

/// Trusted: `globset::GlobSetBuilder::new`, a builder with no globs.
#[verifier::external_body]
fn new_glob_set_builder() -> (b: globset::GlobSetBuilder)
    ensures
        builder_globs(b) == Seq::<Seq<char>>::empty(),
{
    globset::GlobSetBuilder::new()
}

/// Trusted: `globset::GlobSetBuilder::add`, which appends `g` to the
/// builder's globs.
#[verifier::external_body]
fn add_glob(b: &mut globset::GlobSetBuilder, g: globset::Glob)
    ensures
        builder_globs(*final(b)) == builder_globs(*old(b)).push(glob_text(g)),
{
    b.add(g);
}

/// Trusted: `globset::GlobSetBuilder::build`. Whether the set builds and
/// its error's message are named as functions of the builder's globs; a
/// built set holds those globs.
#[verifier::external_body]
fn build_glob_set(b: &globset::GlobSetBuilder) -> (r: Result<globset::GlobSet, String>)
    ensures
        r is Ok <==> globset_builds(builder_globs(*b)),
        match r {
            Ok(s) => set_globs(s) == builder_globs(*b),
            Err(e) => e@ == globset_build_error(builder_globs(*b)),
        },
{
    b.build().map_err(|e| e.to_string())
}

/// Trusted: `globset::GlobSet::is_match` of `s` on `path`, named as a
/// function of the set's globs and the path.
#[verifier::external_body]
fn glob_set_is_match(s: &globset::GlobSet, path: &str) -> (r: bool)
    ensures
        r == globs_match(set_globs(*s), path@),
{
    s.is_match(path)
}

/// A set of globs, compiled.
pub struct GlobMatcher {
    set: globset::GlobSet,
}

/// The abstract values of a list of strings.
pub open spec fn texts(v: Seq<String>) -> Seq<Seq<char>> {
    v.map_values(|s: String| s@)
}

impl GlobMatcher {
    /// The globs of the set.
    pub closed spec fn globs(&self) -> Seq<Seq<char>> {
        set_globs(self.set)
    }
}

/// The first of `patterns` whose glob does not build, if one does not.
pub open spec fn failed_glob(patterns: Seq<Seq<char>>) -> Option<Seq<char>>
    decreases patterns.len(),
{
    if patterns.len() == 0 {
        None
    } else if !glob_builds(patterns[0]) {
        Some(patterns[0])
    } else {
        failed_glob(patterns.drop_first())
    }
}

/// Whether the globs of the first `n` of `patterns` all build.
pub open spec fn all_build_before(patterns: Seq<Seq<char>>, n: int) -> bool {
    forall|j: int| 0 <= j < n ==> glob_builds(#[trigger] patterns[j])
}

/// Whether `globset` builds a set from `patterns`: each glob builds, and
/// then the set does.
pub open spec fn globs_compile(patterns: Seq<Seq<char>>) -> bool {
    failed_glob(patterns) is None && globset_builds(patterns)
}

/// The message of the error `globset` gives for `patterns` when they do
/// not build: that of the first glob that fails, or else that of the set.
pub open spec fn glob_error_text(patterns: Seq<Seq<char>>) -> Seq<char> {
    match failed_glob(patterns) {
        Some(p) => glob_build_error(p),
        None => globset_build_error(patterns),
    }
}

/// The glob reported as failing is the first of the patterns whose glob
/// does not build; none is reported exactly when every glob builds.
pub proof fn law_failed_glob_is_the_first(patterns: Seq<Seq<char>>)
    ensures
        failed_glob(patterns) is None <==> all_build_before(patterns, patterns.len() as int),
        failed_glob(patterns) matches Some(p) ==> exists|i: int|
            0 <= i < patterns.len() && #[trigger] patterns[i] == p && !glob_builds(p)
                && all_build_before(patterns, i),
    decreases patterns.len(),
{
    if patterns.len() > 0 {
        let rest = patterns.drop_first();
        law_failed_glob_is_the_first(rest);
        if glob_builds(patterns[0]) {
            assert forall|j: int| 0 <= j < rest.len() implies #[trigger] rest[j] == patterns[j + 1] by {}
            if all_build_before(rest, rest.len() as int) {
                assert forall|j: int| 0 <= j < patterns.len() implies glob_builds(#[trigger] patterns[j]) by {
                    if j > 0 {
                        assert(patterns[j] == rest[j - 1]);
                    }
                }
            }
            if all_build_before(patterns, patterns.len() as int) {
                assert forall|j: int| 0 <= j < rest.len() implies glob_builds(#[trigger] rest[j]) by {
                    assert(rest[j] == patterns[j + 1]);
                }
            }
            if failed_glob(rest) is Some {
                let p = failed_glob(rest)->0;
                let i = choose|i: int|
                    0 <= i < rest.len() && #[trigger] rest[i] == p && !glob_builds(p) && all_build_before(rest, i);
                assert(patterns[i + 1] == p);
                assert forall|j: int| 0 <= j < i + 1 implies glob_builds(#[trigger] patterns[j]) by {
                    if j > 0 {
                        assert(patterns[j] == rest[j - 1]);
                    }
                }
            }
        } else {
            assert(patterns[0] == patterns[0]);
        }
    }
}

/// When the first `i` globs build and the next does not, it is the one
/// reported as failing.
proof fn lemma_failed_glob_at(patterns: Seq<Seq<char>>, i: int)
    requires
        0 <= i < patterns.len(),
        all_build_before(patterns, i),
        !glob_builds(patterns[i]),
    ensures
        failed_glob(patterns) == Some(patterns[i]),
    decreases i,
{
    if i > 0 {
        let rest = patterns.drop_first();
        assert(glob_builds(patterns[0]));
        assert forall|j: int| 0 <= j < i - 1 implies glob_builds(#[trigger] rest[j]) by {
            assert(rest[j] == patterns[j + 1]);
        }
        lemma_failed_glob_at(rest, i - 1);
    }
}

/// When every glob builds, none is reported as failing.
proof fn lemma_no_failed_glob(patterns: Seq<Seq<char>>)
    requires
        all_build_before(patterns, patterns.len() as int),
    ensures
        failed_glob(patterns) is None,
{
    law_failed_glob_is_the_first(patterns);
}

/// The abstract value of an optional string.
pub open spec fn opt_text(s: Option<String>) -> Option<Seq<char>> {
    match s {
        Some(x) => Some(x@),
        None => None,
    }
}

/// Builds each of `patterns` into a glob in which `*` and `?` do not match
/// `/`, in order, and the globs into a set. The first pattern whose glob
/// does not build is reported with its error; when all build but the set
/// does not, the set's error is.
pub(crate) fn compile_globs(patterns: &[String]) -> (r: Result<GlobMatcher, (Option<String>, String)>)
    ensures
        r is Ok <==> globs_compile(texts(patterns@)),
        match r {
            Ok(m) => m.globs() == texts(patterns@),
            Err((p, e)) => e@ == glob_error_text(texts(patterns@)) && opt_text(p) == failed_glob(
                texts(patterns@),
            ),
        },
{
    let ghost ps = texts(patterns@);
    let mut builder = new_glob_set_builder();
    let mut i: usize = 0;
    while i < patterns.len()
        invariant
            i <= patterns@.len(),
            ps == texts(patterns@),
            all_build_before(ps, i as int),
            builder_globs(builder) == ps.take(i as int),
        decreases patterns@.len() - i,
    {
        match build_glob(patterns[i].as_str()) {
            Ok(g) => {
                add_glob(&mut builder, g);
                assert(ps.take(i + 1) == ps.take(i as int).push(ps[i as int]));
            },
            Err(e) => {
                proof {
                    lemma_failed_glob_at(ps, i as int);
                }
                return Err((Some(patterns[i].clone()), e));
            },
        }
        i = i + 1;
    }
    proof {
        assert(ps.take(i as int) == ps);
        lemma_no_failed_glob(ps);
    }
    match build_glob_set(&builder) {
        Ok(set) => Ok(GlobMatcher { set }),
        Err(e) => Err((None, e)),
    }
}

/// Whether one of the globs of `m` matches `path`.
pub(crate) fn glob_is_match(m: &GlobMatcher, path: &str) -> (r: bool)
    ensures
        r == globs_match(m.globs(), path@),
{
    glob_set_is_match(&m.set, path)
}

/// The globs of configuration file names: the globset error when they do
/// not build.
pub fn config_globset(config_files: &[String]) -> (r: Result<GlobMatcher, String>)
    ensures
        r is Ok <==> globs_compile(texts(config_files@)),
        match r {
            Ok(m) => m.globs() == texts(config_files@),
            Err(e) => e@ == glob_error_text(texts(config_files@)),
        },
{
    match compile_globs(config_files) {
        Ok(m) => Ok(m),
        Err((_, e)) => Err(e),
    }
}

/// The message of exclude patterns that do not build: the pattern whose
/// glob fails first, or the globset error when the set as a whole fails.
pub open spec fn exclude_error_text(patterns: Seq<Seq<char>>) -> Seq<char> {
    match failed_glob(patterns) {
        Some(p) => "Failed to build glob for pattern: "@ + p,
        None => globset_build_error(patterns),
    }
}

/// The globs of exclude patterns: an error naming the first pattern that
/// does not build.
pub fn exclude_globset(patterns: &[String]) -> (r: Result<GlobMatcher, String>)
    ensures
        r is Ok <==> globs_compile(texts(patterns@)),
        match r {
            Ok(m) => m.globs() == texts(patterns@),
            Err(e) => e@ == exclude_error_text(texts(patterns@)),
        },
{
    match compile_globs(patterns) {
        Ok(m) => Ok(m),
        Err((Some(p), _)) => {
            let mut out: Vec<char> = Vec::new();
            push_str(&mut out, "Failed to build glob for pattern: ");
            push_str(&mut out, p.as_str());
            proof {
                reveal_strlit("Failed to build glob for pattern: ");
            }
            Err(string_from_chars(out.as_slice()))
        },
        Err((None, e)) => Err(e),
    }
}

impl GlobMatcher {
    /// Whether one of the globs matches `path`.
    pub fn is_match(&self, path: &str) -> (r: bool)
        ensures
            r == globs_match(self.globs(), path@),
    {
        glob_is_match(self, path)
    }
}

} // verus!
