//! Paths as `std::path::Path` reads them: by components, so that
//! separators that repeat or trail and `.` components in the middle do not
//! count.

use crate::pattern::texts;
use crate::text::str_eq;
use vstd::prelude::*;

verus! {

/// The components of the path `p`, each as its text, as
/// `std::path::Path::components` gives them.
pub uninterp spec fn path_components_of(p: Seq<char>) -> Seq<Seq<char>>;

/// The final component of the path `p`, as `std::path::Path::file_name`
/// gives it.
pub uninterp spec fn path_file_name_of(p: Seq<char>) -> Option<Seq<char>>;

/// The path `p` relative to `base`, as `std::path::Path::strip_prefix`
/// gives it.
pub uninterp spec fn path_stripped_of(p: Seq<char>, base: Seq<char>) -> Option<Seq<char>>;

/// Trusted: `std::path::Path::components` of `p`, each component taken as
/// its text, named as a function of `p`.
#[verifier::external_body]
pub(crate) fn path_components(p: &str) -> (r: Vec<String>)
    ensures
        texts(r@) == path_components_of(p@),
{
    std::path::Path::new(p).components().map(|c| c.as_os_str().to_string_lossy().into_owned()).collect()
}

/// Trusted: `std::path::Path::file_name` of `p`, named as a function of
/// `p`.
#[verifier::external_body]
pub(crate) fn path_file_name(p: &str) -> (r: Option<String>)
    ensures
        match r {
            Some(s) => path_file_name_of(p@) == Some(s@),
            None => path_file_name_of(p@) is None,
        },
{
    std::path::Path::new(p).file_name().map(|n| n.to_string_lossy().into_owned())
}

/// Trusted: `std::path::Path::strip_prefix` of `p` by `base`, named as a
/// function of both.
#[verifier::external_body]
pub(crate) fn path_strip_prefix(p: &str, base: &str) -> (r: Option<String>)
    ensures
        match r {
            Some(s) => path_stripped_of(p@, base@) == Some(s@),
            None => path_stripped_of(p@, base@) is None,
        },
{
    std::path::Path::new(p).strip_prefix(base).ok().map(|q| q.to_string_lossy().into_owned())
}

/// Whether the component lists `a` and `b` are the same, component by
/// component.
pub fn same_components(a: &Vec<String>, b: &Vec<String>) -> (r: bool)
    ensures
        r == (texts(a@) == texts(b@)),
{
    if a.len() != b.len() {
        proof {
            assert(texts(a@).len() != texts(b@).len());
        }
        return false;
    }
    let mut i: usize = 0;
    while i < a.len()
        invariant
            i <= a@.len(),
            a@.len() == b@.len(),
            forall|k: int| 0 <= k < i ==> a@[k]@ == b@[k]@,
        decreases a@.len() - i,
    {
        if !str_eq(a[i].as_str(), b[i].as_str()) {
            proof {
                assert(texts(a@)[i as int] != texts(b@)[i as int]);
            }
            return false;
        }
        i = i + 1;
    }
    assert(texts(a@) =~= texts(b@));
    true
}

} // verus!
