use vstd::prelude::*;
use vstd::string::*;

verus! {

/// Whether `s` starts with `prefix`, character for character.
pub fn str_starts_with(s: &str, prefix: &str) -> (r: bool)
    ensures
        r == (s@.len() >= prefix@.len() && s@.take(prefix@.len() as int) == prefix@),
{
    let n = s.unicode_len();
    let m = prefix.unicode_len();
    if n < m {
        return false;
    }
    let mut i: usize = 0;
    while i < m
        invariant
            m == prefix@.len(),
            n == s@.len(),
            m <= n,
            i <= m,
            forall|k: int| 0 <= k < i ==> s@[k] == prefix@[k],
        decreases m - i,
    {
        if s.get_char(i) != prefix.get_char(i) {
            assert(s@.take(m as int)[i as int] != prefix@[i as int]);
            return false;
        }
        i += 1;
    }
    assert(s@.take(m as int) =~= prefix@);
    true
}

/// A blank character: space, tab, carriage return or line feed. Trimming
/// is deliberately limited to these four ASCII characters, so that what a
/// trim keeps is exactly specified.
pub open spec fn is_blank_char(c: char) -> bool {
    c == ' ' || c == '\t' || c == '\r' || c == '\n'
}

/// `r` is `s` with every leading and trailing blank removed.
pub open spec fn is_trim_of(r: Seq<char>, s: Seq<char>) -> bool {
    exists|i: int, j: int|
        {
            &&& 0 <= i <= j <= s.len()
            &&& r == #[trigger] s.subrange(i, j)
            &&& (forall|k: int| 0 <= k < i ==> is_blank_char(s[k]))
            &&& (forall|k: int| j <= k < s.len() ==> is_blank_char(s[k]))
            &&& (i < j ==> !is_blank_char(s[i]) && !is_blank_char(s[j - 1]))
        }
}

/// Whether `c` is blank.
pub fn blank_char(c: char) -> (r: bool)
    ensures
        r == is_blank_char(c),
{
    c == ' ' || c == '\t' || c == '\r' || c == '\n'
}

/// `s` with leading and trailing ASCII blanks removed.
pub fn str_trim(s: &str) -> (r: String)
    ensures
        is_trim_of(r@, s@),
{
    let n = s.unicode_len();
    let mut i: usize = 0;
    while i < n && blank_char(s.get_char(i))
        invariant
            n == s@.len(),
            i <= n,
            forall|k: int| 0 <= k < i ==> is_blank_char(s@[k]),
        decreases n - i,
    {
        i += 1;
    }
    if i == n {
        let r = String::new();
        proof {
            assert(r@ =~= s@.subrange(n as int, n as int));
        }
        return r;
    }
    let mut j: usize = n;
    while j > i && blank_char(s.get_char(j - 1))
        invariant
            n == s@.len(),
            i <= j <= n,
            i < n,
            !is_blank_char(s@[i as int]),
            forall|k: int| j <= k < n ==> is_blank_char(s@[k]),
        decreases j,
    {
        j -= 1;
    }
    let piece = s.substring_char(i, j);
    let r = String::from_str(piece);
    proof {
        assert(r@ == s@.subrange(i as int, j as int));
        assert(i < j);
        assert(!is_blank_char(s@[j - 1]));
    }
    r
}

/// `b` is the longest slash-free prefix of `s`.
pub open spec fn is_first_segment(b: Seq<char>, s: Seq<char>) -> bool {
    exists|m: int|
        {
            &&& 0 <= m <= s.len()
            &&& b == #[trigger] s.subrange(0, m)
            &&& (forall|k: int| 0 <= k < m ==> s[k] != '/')
            &&& (m == s.len() || s[m] == '/')
        }
}

/// The part of `s` before its first slash (all of `s` when it has none).
pub fn first_segment(s: &str) -> (r: String)
    ensures
        is_first_segment(r@, s@),
        r@.len() > 0 <==> s@.len() > 0 && s@[0] != '/',
{
    let n = s.unicode_len();
    let mut m: usize = 0;
    while m < n && s.get_char(m) != '/'
        invariant
            n == s@.len(),
            m <= n,
            forall|k: int| 0 <= k < m ==> s@[k] != '/',
        decreases n - m,
    {
        m += 1;
    }
    let piece = s.substring_char(0, m);
    let r = String::from_str(piece);
    proof {
        assert(r@ == s@.subrange(0, m as int));
        if s@.len() > 0 && s@[0] != '/' {
            assert(m > 0);
        }
    }
    r
}

} // verus!
