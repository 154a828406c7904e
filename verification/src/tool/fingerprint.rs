//! What identifies an installation of a tool: the fingerprint of what it
//! installs, and the directories and files named after it.

use crate::pattern::texts;
use crate::text::{chars_of, join_path, joined_path, push_str, string_from_chars};
use crate::tool::{ExtraPackage, PluginDef};
use vstd::prelude::*;

verus! {

/// What a tool's fingerprint is made from: its runtime's, if it runs on
/// one, and its plugin with the contents of the plugin's package file.
#[derive(Debug)]
pub struct FingerprintSource {
    pub runtime: Option<Box<FingerprintSource>>,
    pub plugin: Option<PluginDef>,
    pub package_file_contents: Option<String>,
}

/// Whether `a` comes no later than `b` in the order of `String`: by their
/// characters' code points, a prefix first.
pub open spec fn text_le(a: Seq<char>, b: Seq<char>) -> bool
    decreases a.len(),
{
    if a.len() == 0 {
        true
    } else if b.len() == 0 {
        false
    } else if a[0] != b[0] {
        (a[0] as int) < (b[0] as int)
    } else {
        text_le(a.drop_first(), b.drop_first())
    }
}

/// `sorted` with `p` placed after every package whose name comes no later
/// than its own.
pub open spec fn insert_by_name(sorted: Seq<ExtraPackage>, p: ExtraPackage) -> Seq<ExtraPackage>
    decreases sorted.len(),
{
    if sorted.len() == 0 {
        seq![p]
    } else if text_le(sorted.last().name@, p.name@) {
        sorted.push(p)
    } else {
        insert_by_name(sorted.drop_last(), p).push(sorted.last())
    }
}

/// The packages sorted by name, those of equal names in their order.
pub open spec fn sorted_by_name(ps: Seq<ExtraPackage>) -> Seq<ExtraPackage>
    decreases ps.len(),
{
    if ps.len() == 0 {
        seq![]
    } else {
        insert_by_name(sorted_by_name(ps.drop_last()), ps.last())
    }
}

/// The names and versions of the packages, one after another.
pub open spec fn packages_text(ps: Seq<ExtraPackage>) -> Seq<char>
    decreases ps.len(),
{
    if ps.len() == 0 {
        seq![]
    } else {
        packages_text(ps.drop_last()) + ps.last().name@ + ps.last().version@
    }
}

/// The texts, one after another.
pub open spec fn concat_texts(s: Seq<Seq<char>>) -> Seq<char>
    decreases s.len(),
{
    if s.len() == 0 {
        seq![]
    } else {
        concat_texts(s.drop_last()) + s.last()
    }
}

/// What a plugin adds to a fingerprint: its package and version, its extra
/// packages sorted by name, its package file's contents and its package
/// filters.
pub open spec fn plugin_text(p: PluginDef, contents: Option<String>) -> Seq<char> {
    p.package->0@ + p.version->0@ + packages_text(sorted_by_name(p.extra_packages@)) + (match (
        p.package_file,
        contents,
    ) {
        (Some(_), Some(c)) => c@,
        _ => seq![],
    }) + concat_texts(texts(p.package_filters@))
}

/// What a tool's fingerprint is the digest of: its runtime's text, then its
/// plugin's.
pub open spec fn hash_input(s: FingerprintSource) -> Seq<char>
    decreases s,
{
    (match s.runtime {
        Some(r) => hash_input(*r),
        None => seq![],
    }) + match s.plugin {
        Some(p) => plugin_text(p, s.package_file_contents),
        None => seq![],
    }
}

/// Whether a fingerprint can be made: each plugin names its package and
/// version, and comes with the contents of its package file when it has
/// one.
pub open spec fn fingerprintable(s: FingerprintSource) -> bool
    decreases s,
{
    &&& match s.runtime {
        Some(r) => fingerprintable(*r),
        None => true,
    }
    &&& match s.plugin {
        Some(p) => p.package is Some && p.version is Some && (p.package_file is Some ==> s.package_file_contents
            is Some),
        None => true,
    }
}

/// The SHA-256 digest of the UTF-8 bytes of `data`, in lower-case
/// hexadecimal.
pub uninterp spec fn sha256_hex_of(data: Seq<char>) -> Seq<char>;

/// Trusted: `sha2::Sha256::digest` of the bytes of `data`, formatted with
/// `{:x}`, named as a function of `data`; its 32 bytes make 64 digits.
#[verifier::external_body]
fn sha256_hex(data: &str) -> (r: String)
    ensures
        r@ == sha256_hex_of(data@),
        r@.len() == 64,
{
    format!("{:x}", <sha2::Sha256 as sha2::Digest>::digest(data.as_bytes()))
}

/// Whether `a` comes no later than `b`.
fn name_le(a: &str, b: &str) -> (r: bool)
    ensures
        r == text_le(a@, b@),
{
    let x = chars_of(a);
    let y = chars_of(b);
    let mut i: usize = 0;
    assert(a@.skip(0) =~= a@);
    assert(b@.skip(0) =~= b@);
    while i < x.len() && i < y.len() && x[i] == y[i]
        invariant
            i <= x@.len(),
            i <= y@.len(),
            x@ == a@,
            y@ == b@,
            text_le(a@, b@) == text_le(a@.skip(i as int), b@.skip(i as int)),
        decreases x@.len() - i,
    {
        assert(a@.skip(i as int).drop_first() =~= a@.skip(i + 1));
        assert(b@.skip(i as int).drop_first() =~= b@.skip(i + 1));
        i = i + 1;
    }
    if i == x.len() {
        assert(a@.skip(i as int).len() == 0);
        true
    } else if i == y.len() {
        assert(b@.skip(i as int).len() == 0);
        false
    } else {
        assert(a@.skip(i as int)[0] == x@[i as int]);
        assert(b@.skip(i as int)[0] == y@[i as int]);
        x[i] < y[i]
    }
}

/// Placing `p` at `j` in `s` is inserting it by name when the packages
/// from `j` on come after it and the one before `j` does not.
proof fn lemma_insert_by_name(s: Seq<ExtraPackage>, p: ExtraPackage, j: int)
    requires
        0 <= j <= s.len(),
        forall|k: int| j <= k < s.len() ==> !text_le(#[trigger] s[k].name@, p.name@),
        j > 0 ==> text_le(s[j - 1].name@, p.name@),
    ensures
        insert_by_name(s, p) == s.insert(j, p),
    decreases s.len(),
{
    if s.len() == 0 {
        assert(s.insert(j, p) =~= seq![p]);
    } else if j == s.len() {
        assert(s.insert(j, p) =~= s.push(p));
    } else {
        assert(!text_le(s.last().name@, p.name@));
        lemma_insert_by_name(s.drop_last(), p, j);
        assert(s.drop_last().insert(j, p).push(s.last()) =~= s.insert(j, p));
    }
}

/// The packages sorted by name, those of equal names in their order.
pub fn sort_by_name(packages: &[ExtraPackage]) -> (r: Vec<ExtraPackage>)
    ensures
        r@ == sorted_by_name(packages@),
{
    let mut sorted: Vec<ExtraPackage> = Vec::new();
    let mut i: usize = 0;
    while i < packages.len()
        invariant
            i <= packages@.len(),
            sorted@ == sorted_by_name(packages@.take(i as int)),
        decreases packages@.len() - i,
    {
        assert(packages@.take(i + 1).drop_last() =~= packages@.take(i as int));
        assert(packages@.take(i + 1).last() == packages@[i as int]);
        let p = ExtraPackage { name: packages[i].name.clone(), version: packages[i].version.clone() };
        assert(p == packages@[i as int]);
        let mut j = sorted.len();
        while j > 0 && !name_le(sorted[j - 1].name.as_str(), p.name.as_str())
            invariant
                j <= sorted@.len(),
                forall|k: int| j <= k < sorted@.len() ==> !text_le(#[trigger] sorted@[k].name@, p.name@),
            decreases j,
        {
            j = j - 1;
        }
        proof {
            lemma_insert_by_name(sorted@, p, j as int);
        }
        sorted.insert(j, p);
        i = i + 1;
    }
    assert(packages@.take(i as int) =~= packages@);
    sorted
}

/// Appends the names and versions of the packages.
fn push_packages(out: &mut Vec<char>, packages: &[ExtraPackage])
    ensures
        final(out)@ == old(out)@ + packages_text(packages@),
{
    let ghost start = out@;
    let mut i: usize = 0;
    while i < packages.len()
        invariant
            i <= packages@.len(),
            out@ == start + packages_text(packages@.take(i as int)),
        decreases packages@.len() - i,
    {
        assert(packages@.take(i + 1).drop_last() =~= packages@.take(i as int));
        assert(packages@.take(i + 1).last() == packages@[i as int]);
        push_str(out, packages[i].name.as_str());
        push_str(out, packages[i].version.as_str());
        assert(out@ =~= start + packages_text(packages@.take(i + 1)));
        i = i + 1;
    }
    assert(packages@.take(i as int) =~= packages@);
}

/// Appends the texts.
fn push_texts(out: &mut Vec<char>, items: &[String])
    ensures
        final(out)@ == old(out)@ + concat_texts(texts(items@)),
{
    let ghost start = out@;
    let mut i: usize = 0;
    while i < items.len()
        invariant
            i <= items@.len(),
            out@ == start + concat_texts(texts(items@.take(i as int))),
        decreases items@.len() - i,
    {
        assert(texts(items@.take(i + 1)).drop_last() =~= texts(items@.take(i as int)));
        assert(texts(items@.take(i + 1)).last() == items@[i as int]@);
        push_str(out, items[i].as_str());
        assert(out@ =~= start + concat_texts(texts(items@.take(i + 1))));
        i = i + 1;
    }
    assert(items@.take(i as int) =~= items@);
}

/// Appends what `s` adds to a fingerprint.
fn push_hash_input(out: &mut Vec<char>, s: &FingerprintSource)
    requires
        fingerprintable(*s),
    ensures
        final(out)@ == old(out)@ + hash_input(*s),
    decreases s,
{
    let ghost start = out@;
    match &s.runtime {
        Some(r) => {
            push_hash_input(out, r);
        },
        None => {},
    }
    let ghost after_runtime = out@;
    match &s.plugin {
        Some(p) => {
            match (&p.package, &p.version) {
                (Some(package), Some(version)) => {
                    push_str(out, package.as_str());
                    push_str(out, version.as_str());
                },
                _ => {},
            }
            let sorted = sort_by_name(p.extra_packages.as_slice());
            push_packages(out, sorted.as_slice());
            match (&p.package_file, &s.package_file_contents) {
                (Some(_), Some(contents)) => {
                    push_str(out, contents.as_str());
                },
                _ => {},
            }
            push_texts(out, p.package_filters.as_slice());
            assert(out@ =~= after_runtime + plugin_text(*p, s.package_file_contents));
        },
        None => {},
    }
    assert(out@ =~= start + hash_input(*s));
}

/// The text a tool's fingerprint is the digest of.
pub fn fingerprint_input(s: &FingerprintSource) -> (r: String)
    requires
        fingerprintable(*s),
    ensures
        r@ == hash_input(*s),
{
    let mut out: Vec<char> = Vec::new();
    push_hash_input(&mut out, s);
    assert(out@ =~= hash_input(*s));
    string_from_chars(out.as_slice())
}

/// A tool's fingerprint: the first twelve hexadecimal digits of the
/// SHA-256 digest of what identifies it.
pub fn fingerprint(s: &FingerprintSource) -> (r: String)
    requires
        fingerprintable(*s),
    ensures
        r@ == sha256_hex_of(hash_input(*s)).take(12),
{
    let input = fingerprint_input(s);
    let digest = sha256_hex(input.as_str());
    let chars = chars_of(digest.as_str());
    let mut out: Vec<char> = Vec::new();
    let mut i: usize = 0;
    while i < 12
        invariant
            i <= 12,
            chars@.len() == 64,
            chars@ == sha256_hex_of(hash_input(*s)),
            out@ == chars@.take(i as int),
        decreases 12 - i,
    {
        out.push(chars[i]);
        assert(out@ =~= chars@.take(i + 1));
        i = i + 1;
    }
    string_from_chars(out.as_slice())
}

/// The name of a tool's installation directory: its version (`generic`
/// without one), a hyphen and its fingerprint.
pub fn directory_name(version: Option<&str>, fingerprint: &str) -> (r: String)
    ensures
        r@ == (match version {
            Some(v) => v@,
            None => "generic"@,
        }) + "-"@ + fingerprint@,
{
    let mut out: Vec<char> = match version {
        Some(v) => chars_of(v),
        None => chars_of("generic"),
    };
    push_str(&mut out, "-");
    push_str(&mut out, fingerprint);
    string_from_chars(out.as_slice())
}

/// The directory a tool named `name` is installed under, in `tools_root`.
pub fn parent_directory(tools_root: &str, name: &str) -> (r: String)
    ensures
        r@ == joined_path(tools_root@, name@),
{
    join_path(tools_root, name)
}

/// A tool's installation directory, named `directory_name` in its parent
/// directory.
pub fn directory(parent: &str, directory_name: &str) -> (r: String)
    ensures
        r@ == joined_path(parent@, directory_name@),
{
    join_path(parent, directory_name)
}

/// `directory` with `suffix` after it.
fn suffixed(directory: &str, suffix: &str) -> (r: String)
    ensures
        r@ == directory@ + suffix@,
{
    let mut out = chars_of(directory);
    push_str(&mut out, suffix);
    string_from_chars(out.as_slice())
}

/// The file that marks a finished installation in `directory`.
pub fn donefile_path(directory: &str) -> (r: String)
    ensures
        r@ == directory@ + ".done"@,
{
    suffixed(directory, ".done")
}

/// The file that locks an installation in `directory`.
pub fn lockfile_path(directory: &str) -> (r: String)
    ensures
        r@ == directory@ + ".lock"@,
{
    suffixed(directory, ".lock")
}

/// The directory of the debug files of an installation in `directory`.
pub fn debug_files_directory(directory: &str) -> (r: String)
    ensures
        r@ == directory@ + "-installation-debug-files"@,
{
    suffixed(directory, "-installation-debug-files")
}

/// The log of an installation named `directory_name` in `parent`.
pub fn install_log_path(parent: &str, directory_name: &str) -> (r: String)
    ensures
        r@ == joined_path(parent@, directory_name@ + "-install.log"@),
{
    let name = suffixed(directory_name, "-install.log");
    join_path(parent, name.as_str())
}

/// Whether no two of the packages share a name.
pub open spec fn names_distinct(s: Seq<ExtraPackage>) -> bool {
    forall|i: int, j: int| 0 <= i < j < s.len() ==> s[i].name@ != s[j].name@
}

/// Whether the packages are in order of their names.
pub open spec fn sorted_names(s: Seq<ExtraPackage>) -> bool {
    forall|i: int, j: int| 0 <= i < j < s.len() ==> text_le(s[i].name@, s[j].name@)
}

/// Of two texts, one comes no later than the other.
proof fn lemma_text_le_total(a: Seq<char>, b: Seq<char>)
    ensures
        text_le(a, b) || text_le(b, a),
    decreases a.len(),
{
    if a.len() > 0 && b.len() > 0 {
        if a[0] == b[0] {
            lemma_text_le_total(a.drop_first(), b.drop_first());
        } else {
            assert((a[0] as int) != (b[0] as int));
        }
    }
}

/// The order of texts is transitive.
proof fn lemma_text_le_transitive(a: Seq<char>, b: Seq<char>, c: Seq<char>)
    requires
        text_le(a, b),
        text_le(b, c),
    ensures
        text_le(a, c),
    decreases a.len(),
{
    if a.len() > 0 && b.len() > 0 && c.len() > 0 && a[0] == b[0] && b[0] == c[0] {
        lemma_text_le_transitive(a.drop_first(), b.drop_first(), c.drop_first());
    }
}

/// Texts that come no later than each other are equal.
proof fn lemma_text_le_antisymmetric(a: Seq<char>, b: Seq<char>)
    requires
        text_le(a, b),
        text_le(b, a),
    ensures
        a == b,
    decreases a.len(),
{
    if a.len() > 0 && b.len() > 0 {
        lemma_text_le_antisymmetric(a.drop_first(), b.drop_first());
        assert forall|k: int| 0 <= k < a.len() implies a[k] == b[k] by {
            if k > 0 {
                assert(a[k] == a.drop_first()[k - 1]);
                assert(b[k] == b.drop_first()[k - 1]);
            }
        }
    }
    assert(a =~= b);
}

/// Inserting by name keeps packages sorted, and adds the package.
proof fn lemma_insert_sorted(s: Seq<ExtraPackage>, p: ExtraPackage)
    requires
        sorted_names(s),
    ensures
        sorted_names(insert_by_name(s, p)),
        insert_by_name(s, p).to_multiset() == s.to_multiset().insert(p),
    decreases s.len(),
{
    broadcast use vstd::seq_lib::group_to_multiset_ensures, vstd::multiset::group_multiset_axioms;

    if s.len() == 0 {
        assert(seq![p] =~= Seq::<ExtraPackage>::empty().push(p));
    } else if text_le(s.last().name@, p.name@) {
        let r = s.push(p);
        assert forall|i: int, j: int| 0 <= i < j < r.len() implies text_le(r[i].name@, r[j].name@) by {
            if j == s.len() {
                if i < s.len() - 1 {
                    lemma_text_le_transitive(s[i].name@, s.last().name@, p.name@);
                }
            }
        }
    } else {
        let t = s.drop_last();
        let x = s.last();
        lemma_insert_sorted(t, p);
        let u = insert_by_name(t, p);
        lemma_text_le_total(x.name@, p.name@);
        assert(s =~= t.push(x));
        let r = u.push(x);
        assert forall|i: int, j: int| 0 <= i < j < r.len() implies text_le(r[i].name@, r[j].name@) by {
            if j == u.len() {
                let e = u[i];
                assert(u.contains(e));
                assert(u.to_multiset().count(e) > 0);
                if e == p {
                } else {
                    assert(t.to_multiset().count(e) > 0);
                    assert(t.contains(e));
                    let k = choose|k: int| 0 <= k < t.len() && t[k] == e;
                    assert(s[k] == e);
                }
            }
        }
    }
}

/// Sorting by name sorts, and keeps the packages.
proof fn lemma_sorted_by_name(s: Seq<ExtraPackage>)
    ensures
        sorted_names(sorted_by_name(s)),
        sorted_by_name(s).to_multiset() == s.to_multiset(),
    decreases s.len(),
{
    broadcast use vstd::seq_lib::group_to_multiset_ensures;

    if s.len() > 0 {
        lemma_sorted_by_name(s.drop_last());
        lemma_insert_sorted(sorted_by_name(s.drop_last()), s.last());
        assert(s =~= s.drop_last().push(s.last()));
    }
}

/// Packages with distinct names keep them distinct in any order.
proof fn lemma_distinct_transfer(s: Seq<ExtraPackage>, t: Seq<ExtraPackage>)
    requires
        s.to_multiset() == t.to_multiset(),
        names_distinct(s),
    ensures
        names_distinct(t),
{
    broadcast use vstd::seq_lib::group_to_multiset_ensures, vstd::multiset::group_multiset_axioms;

    assert forall|i: int, j: int| 0 <= i < j < t.len() implies t[i].name@ != t[j].name@ by {
        if t[i].name@ == t[j].name@ {
            assert(t.contains(t[i]));
            assert(t.contains(t[j]));
            assert(s.to_multiset().count(t[i]) > 0);
            assert(s.to_multiset().count(t[j]) > 0);
            assert(s.contains(t[i]));
            assert(s.contains(t[j]));
            let k = choose|k: int| 0 <= k < s.len() && s[k] == t[i];
            let m = choose|m: int| 0 <= m < s.len() && s[m] == t[j];
            assert(k == m);
            let e = s[k];
            assert(!s.remove(k).contains(e)) by {
                if s.remove(k).contains(e) {
                    let q = choose|q: int| 0 <= q < s.remove(k).len() && s.remove(k)[q] == e;
                    if q < k {
                        assert(s[q] == e);
                    } else {
                        assert(s[q + 1] == e);
                    }
                }
            }
            assert(s.remove(k).to_multiset().count(e) == 0);
            assert(s.to_multiset().count(e) == 1);
            assert(t.remove(j)[i] == e);
            assert(t.remove(j).contains(e));
            assert(t.remove(j).to_multiset().count(e) > 0);
            assert(t.to_multiset().count(e) >= 2);
        }
    }
}

/// Sorted packages with distinct names are fixed by which packages they
/// are.
proof fn lemma_sorted_unique(a: Seq<ExtraPackage>, b: Seq<ExtraPackage>)
    requires
        sorted_names(a),
        sorted_names(b),
        names_distinct(a),
        a.to_multiset() == b.to_multiset(),
    ensures
        a == b,
    decreases a.len(),
{
    broadcast use vstd::seq_lib::group_to_multiset_ensures, vstd::multiset::group_multiset_axioms;

    assert(a.len() == a.to_multiset().len());
    assert(b.len() == b.to_multiset().len());
    if a.len() == 0 {
        assert(a =~= b);
    } else {
        let n = a.len() - 1;
        let x = a.last();
        let y = b.last();
        assert(b.contains(y));
        assert(a.to_multiset().count(y) > 0);
        assert(a.contains(y));
        let k = choose|k: int| 0 <= k < a.len() && a[k] == y;
        assert(a.contains(x));
        assert(b.to_multiset().count(x) > 0);
        assert(b.contains(x));
        let m = choose|m: int| 0 <= m < b.len() && b[m] == x;
        if k < n {
            assert(text_le(y.name@, x.name@));
        }
        if m < n {
            assert(text_le(x.name@, y.name@));
        }
        if k < n && m < n {
            lemma_text_le_antisymmetric(x.name@, y.name@);
        }
        assert(k == n);
        assert(x == y);
        assert(a.remove(n) =~= a.drop_last());
        assert(b.remove(n) =~= b.drop_last());
        lemma_sorted_unique(a.drop_last(), b.drop_last());
        assert forall|i: int| 0 <= i < a.len() implies a[i] == b[i] by {
            if i < n {
                assert(a[i] == a.drop_last()[i]);
                assert(b[i] == b.drop_last()[i]);
            }
        }
        assert(a =~= b);
    }
}

/// The same packages, with distinct names, sort alike in whatever order
/// they are listed.
pub proof fn law_sorted_by_name_ignores_order(a: Seq<ExtraPackage>, b: Seq<ExtraPackage>)
    requires
        a.to_multiset() == b.to_multiset(),
        names_distinct(a),
    ensures
        sorted_by_name(a) == sorted_by_name(b),
{
    lemma_sorted_by_name(a);
    lemma_sorted_by_name(b);
    lemma_distinct_transfer(a, sorted_by_name(a));
    lemma_sorted_unique(sorted_by_name(a), sorted_by_name(b));
}

/// A plugin's part of a tool's fingerprint does not depend on the order in
/// which its extra packages, of distinct names, are listed.
pub proof fn law_fingerprint_ignores_extra_package_order(p: PluginDef, q: PluginDef, contents: Option<String>)
    requires
        p.package == q.package,
        p.version == q.version,
        p.package_file == q.package_file,
        p.package_filters@ == q.package_filters@,
        p.extra_packages@.to_multiset() == q.extra_packages@.to_multiset(),
        names_distinct(p.extra_packages@),
    ensures
        plugin_text(p, contents) == plugin_text(q, contents),
{
    law_sorted_by_name_ignores_order(p.extra_packages@, q.extra_packages@);
}

/// A tool's fingerprint does not depend on the order in which its plugin's
/// extra packages, of distinct names, are listed: they are hashed sorted
/// by name.
pub proof fn law_tool_fingerprint_ignores_extra_package_order(s: FingerprintSource, t: FingerprintSource)
    requires
        s.runtime == t.runtime,
        s.package_file_contents == t.package_file_contents,
        s.plugin matches Some(p) && t.plugin matches Some(q) && p.package == q.package
            && p.version == q.version && p.package_file == q.package_file
            && p.package_filters@ == q.package_filters@
            && p.extra_packages@.to_multiset() == q.extra_packages@.to_multiset()
            && names_distinct(p.extra_packages@),
    ensures
        hash_input(s) == hash_input(t),
        sha256_hex_of(hash_input(s)).take(12) == sha256_hex_of(hash_input(t)).take(12),
{
    law_fingerprint_ignores_extra_package_order(
        s.plugin->0,
        t.plugin->0,
        s.package_file_contents,
    );
}

} // verus!
