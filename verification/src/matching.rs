use vstd::prelude::*;
use vstd::string::StrSliceExecFns;

verus! {

/// The character sequence that Unicode lowercasing maps a string to; the
/// mapping depends on the input characters alone.
pub uninterp spec fn lower_of(s: Seq<char>) -> Seq<char>;

/// Relies on str::to_lowercase: the returned string is the lowercase
/// equivalent of the input, a function of the input characters alone.
#[verifier::external_body]
fn lowercase(s: &str) -> (r: String)
    ensures
        r@ == lower_of(s@),
{
    s.to_lowercase()
}

/// `needle` occurs in `hay` starting at position `i`.
pub open spec fn matches_at(hay: Seq<char>, needle: Seq<char>, i: int) -> bool {
    &&& 0 <= i
    &&& i + needle.len() <= hay.len()
    &&& hay.subrange(i, i + needle.len() as int) == needle
}

/// `needle` occurs somewhere in `hay` as a contiguous run.
pub open spec fn contains_seq(hay: Seq<char>, needle: Seq<char>) -> bool {
    exists|i: int| matches_at(hay, needle, i)
}

/// Whether `needle` occurs at position `i` of `hay`.
fn match_at(hay: &str, needle: &str, i: usize, n: usize, m: usize) -> (r: bool)
    requires
        n == hay@.len(),
        m == needle@.len(),
        i + m <= n,
    ensures
        r == matches_at(hay@, needle@, i as int),
{
    let mut j: usize = 0;
    while j < m
        invariant
            j <= m,
            i + m <= n,
            n == hay@.len(),
            m == needle@.len(),
            forall|k: int| 0 <= k < j ==> hay@[i + k] == needle@[k],
        decreases m - j,
    {
        if hay.get_char(i + j) != needle.get_char(j) {
            assert(!matches_at(hay@, needle@, i as int)) by {
                if matches_at(hay@, needle@, i as int) {
                    assert(hay@.subrange(i as int, i + m)[j as int] == needle@[j as int]);
                }
            }
            return false;
        }
        j = j + 1;
    }
    assert(hay@.subrange(i as int, i + m) =~= needle@);
    true
}

/// Whether `needle` occurs in `hay`; the scan runs over Unicode characters.
fn contains_str(hay: &str, needle: &str) -> (r: bool)
    ensures
        r == contains_seq(hay@, needle@),
{
    let n = hay.unicode_len();
    let m = needle.unicode_len();
    if m == 0 {
        assert(matches_at(hay@, needle@, 0)) by {
            assert(hay@.subrange(0, 0) =~= needle@);
        }
        return true;
    }
    if m > n {
        assert(!contains_seq(hay@, needle@));
        return false;
    }
    let mut i: usize = 0;
    while i <= n - m
        invariant
            0 < m <= n,
            n == hay@.len(),
            m == needle@.len(),
            i <= n - m + 1,
            forall|k: int| 0 <= k < i ==> !matches_at(hay@, needle@, k),
        decreases n - m - i + 1,
    {
        if match_at(hay, needle, i, n, m) {
            return true;
        }
        i = i + 1;
    }
    assert(!contains_seq(hay@, needle@)) by {
        assert(forall|k: int| k > n - m ==> !matches_at(hay@, needle@, k));
    }
    false
}

/// A session's path matches a query fragment when the lowercased path
/// contains the lowercased fragment as a substring.
pub open spec fn session_matches(path: Seq<char>, fragment: Seq<char>) -> bool {
    contains_seq(lower_of(path), lower_of(fragment))
}

/// Case-insensitive containment test used by name resolution.
pub fn path_matches(path: &str, fragment: &str) -> (r: bool)
    ensures
        r == session_matches(path@, fragment@),
{
    let p = lowercase(path);
    let f = lowercase(fragment);
    contains_str(p.as_str(), f.as_str())
}

} // verus!
