use vstd::prelude::*;
use vstd::string::*;

verus! {

/// A path separator. The backslash counts too, so an escaping segment is
/// refused under either separator convention.
pub open spec fn is_sep_char(c: char) -> bool {
    c == '/' || c == '\\'
}

/// A parent-directory segment (`..`) stands at offset `i` of `s`: two dots
/// bounded by the start of the path, the end of the path, or separators.
pub open spec fn parent_seg_at(s: Seq<char>, i: int) -> bool {
    &&& 0 <= i
    &&& i + 2 <= s.len()
    &&& s[i] == '.'
    &&& s[i + 1] == '.'
    &&& (i == 0 || is_sep_char(s[i - 1]))
    &&& (i + 2 == s.len() || is_sep_char(s[i + 2]))
}

/// `s` references a parent directory somewhere.
pub open spec fn has_parent_segment(s: Seq<char>) -> bool {
    exists|i: int| parent_seg_at(s, i)
}

/// A path is safe when it neither starts at the filesystem root nor
/// references a parent directory. Only safe paths may reach a backend's
/// native calls; everything else fails closed before any I/O.
pub open spec fn is_safe_path(s: Seq<char>) -> bool {
    &&& (s.len() > 0 ==> !is_sep_char(s[0]))
    &&& !has_parent_segment(s)
}

/// Decide [`is_sep_char`] for `c`.
fn sep_char(c: char) -> (r: bool)
    ensures
        r == is_sep_char(c),
{
    c == '/' || c == '\\'
}

/// Decide [`is_safe_path`] for `path`.
pub fn check_path_is_safe(path: &str) -> (r: bool)
    ensures
        r == is_safe_path(path@),
{
    let n = path.unicode_len();
    if n > 0 && sep_char(path.get_char(0)) {
        return false;
    }
    let mut i: usize = 0;
    while i < n
        invariant
            n == path@.len(),
            i <= n,
            n > 0 ==> !is_sep_char(path@[0]),
            forall|k: int| k < i ==> !parent_seg_at(path@, k),
        decreases n - i,
    {
        if n - i >= 2 && path.get_char(i) == '.' && path.get_char(i + 1) == '.' {
            let left_ok = i == 0 || sep_char(path.get_char(i - 1));
            let right_ok = i + 2 == n || sep_char(path.get_char(i + 2));
            if left_ok && right_ok {
                assert(parent_seg_at(path@, i as int));
                return false;
            }
        }
        i += 1;
    }
    assert forall|k: int| !parent_seg_at(path@, k) by {
        if 0 <= k && k + 2 <= path@.len() {
            assert(k < n);
        }
    }
    true
}

} // verus!
