use vstd::prelude::*;
use vstd::string::StrSliceExecFns;
use vstd::string::StringExecFns;

verus! {

/// A path separator character; both Windows and POSIX separators count.
pub open spec fn is_sep(c: char) -> bool {
    c == '\\' || c == '/'
}

/// The filename component of a path: the run of characters after the last
/// separator; the whole path when it holds no separator, and empty when the
/// path ends in a separator or is empty.
pub open spec fn file_name_of(s: Seq<char>) -> Seq<char>
    decreases s.len(),
{
    if s.len() == 0 {
        s
    } else if is_sep(s.last()) {
        Seq::empty()
    } else {
        file_name_of(s.drop_last()).push(s.last())
    }
}

/// Whether a dot occurs anywhere in the sequence.
pub open spec fn has_dot(s: Seq<char>) -> bool {
    exists|i: int| 0 <= i < s.len() && s[i] == '.'
}

/// A filename with everything from its last dot onward removed; a name
/// without a dot is kept unchanged.
pub open spec fn strip_ext(s: Seq<char>) -> Seq<char>
    decreases s.len(),
{
    if !has_dot(s) {
        s
    } else if s.last() == '.' {
        s.drop_last()
    } else {
        strip_ext(s.drop_last())
    }
}

/// The derived application identity of an executable path: the filename
/// component with its extension stripped; empty for an empty path.
pub open spec fn app_name_of(path: Seq<char>) -> Seq<char> {
    strip_ext(file_name_of(path))
}

/// When no separator occurs at or after `start` and `start` is either the
/// head of the path or sits right after a separator, the filename component
/// is exactly the suffix from `start`.
proof fn lemma_file_name_suffix(s: Seq<char>, start: int)
    requires
        0 <= start <= s.len(),
        forall|k: int| start <= k < s.len() ==> !is_sep(s[k]),
        start == 0 || is_sep(s[start - 1]),
    ensures
        file_name_of(s) == s.subrange(start, s.len() as int),
    decreases s.len(),
{
    if start == s.len() {
        if s.len() == 0 {
            assert(s.subrange(0, 0) =~= s);
        } else {
            assert(is_sep(s.last()));
            assert(s.subrange(start, s.len() as int) =~= Seq::<char>::empty());
        }
    } else {
        assert(!is_sep(s[s.len() - 1]));
        let t = s.drop_last();
        assert(forall|k: int| start <= k < t.len() ==> t[k] == s[k]);
        lemma_file_name_suffix(t, start);
        assert(t.subrange(start, t.len() as int).push(s.last()) =~= s.subrange(
            start,
            s.len() as int,
        ));
    }
}

/// A sequence without a dot is kept unchanged by extension stripping.
proof fn lemma_strip_ext_no_dot(s: Seq<char>)
    requires
        !has_dot(s),
    ensures
        strip_ext(s) == s,
{
}

/// When the last dot of the sequence sits at `e`, extension stripping keeps
/// exactly the prefix before `e`.
proof fn lemma_strip_ext_at(s: Seq<char>, e: int)
    requires
        0 <= e < s.len(),
        s[e] == '.',
        forall|k: int| e < k < s.len() ==> s[k] != '.',
    ensures
        strip_ext(s) == s.subrange(0, e),
    decreases s.len(),
{
    assert(has_dot(s));
    if s.last() == '.' {
        assert(e == s.len() - 1);
        assert(s.drop_last() =~= s.subrange(0, e));
    } else {
        assert(e < s.len() - 1);
        let t = s.drop_last();
        assert(forall|k: int| 0 <= k < t.len() ==> t[k] == s[k]);
        lemma_strip_ext_at(t, e);
        assert(t.subrange(0, e) =~= s.subrange(0, e));
    }
}

/// Whether a character is a path separator.
fn is_sep_char(c: char) -> (r: bool)
    ensures
        r == is_sep(c),
{
    c == '\\' || c == '/'
}

/// Derives the display name of a session: the filename component of its
/// executable path with the extension stripped; empty when the path is
/// empty, unchanged when the filename holds no dot.
pub fn derive_app_name(path: &str) -> (r: String)
    ensures
        r@ == app_name_of(path@),
{
    let n = path.unicode_len();
    let mut start: usize = n;
    while start > 0 && !is_sep_char(path.get_char(start - 1))
        invariant
            start <= n,
            n == path@.len(),
            forall|k: int| start <= k < n ==> !is_sep(path@[k]),
        decreases start,
    {
        start = start - 1;
    }
    proof {
        lemma_file_name_suffix(path@, start as int);
    }
    let mut end: usize = n;
    while end > start && path.get_char(end - 1) != '.'
        invariant
            start <= end <= n,
            n == path@.len(),
            forall|k: int| end <= k < n ==> path@[k] != '.',
        decreases end,
    {
        end = end - 1;
    }
    let ghost fname = path@.subrange(start as int, n as int);
    if end > start {
        proof {
            assert(path@[end - 1] == '.');
            assert(fname[end - 1 - start] == '.');
            assert(forall|k: int| end - 1 - start < k < fname.len() ==> fname[k] != '.');
            lemma_strip_ext_at(fname, end - 1 - start);
            assert(fname.subrange(0, end - 1 - start) =~= path@.subrange(
                start as int,
                end - 1,
            ));
        }
        let piece = path.substring_char(start, end - 1);
        String::from_str(piece)
    } else {
        proof {
            assert(forall|k: int| 0 <= k < fname.len() ==> fname[k] != '.');
            assert(!has_dot(fname));
            lemma_strip_ext_no_dot(fname);
        }
        let piece = path.substring_char(start, n);
        String::from_str(piece)
    }
}

} // verus!
