use vstd::prelude::*;
use vstd::string::*;

verus! {

/// The wildcard component `*`.
pub open spec fn mime_wildcard() -> Seq<char> {
    "*"@
}

/// A media type, split into its type and subtype components.
#[derive(Debug)]
pub struct MimeType {
    kind: String,
    subtype: String,
}

/// `(a_kind, a_sub)` admits the concrete type `(m_kind, m_sub)`: either it
/// admits everything, or its subtype is the wildcard and the types agree,
/// or both components agree exactly.
pub open spec fn mime_matches(
    m_kind: Seq<char>,
    m_sub: Seq<char>,
    a_kind: Seq<char>,
    a_sub: Seq<char>,
) -> bool {
    ||| (a_kind == mime_wildcard() && a_sub == mime_wildcard())
    ||| (a_sub == mime_wildcard() && a_kind == m_kind)
    ||| (a_kind == m_kind && a_sub == m_sub)
}

/// Some entry of `allowed` admits `(m_kind, m_sub)`; nothing is admitted by
/// an empty list.
pub open spec fn mime_allowed_by(m_kind: Seq<char>, m_sub: Seq<char>, allowed: Seq<MimeType>) -> bool {
    exists|i: int|
        0 <= i < allowed.len() && mime_matches(
            m_kind,
            m_sub,
            allowed[i].spec_kind(),
            allowed[i].spec_subtype(),
        )
}

impl MimeType {
    /// The type component.
    pub closed spec fn spec_kind(&self) -> Seq<char> {
        self.kind@
    }

    /// The subtype component.
    pub closed spec fn spec_subtype(&self) -> Seq<char> {
        self.subtype@
    }

    /// Parse `type/subtype`: the part before the first slash and the part
    /// after it, both non-empty.
    pub fn parse(s: &str) -> (r: Option<MimeType>)
        ensures
            r matches Some(m) ==> exists|i: int|
                {
                    &&& 0 < i < s@.len() - 1
                    &&& s@[i] == '/'
                    &&& (forall|k: int| 0 <= k < i ==> s@[k] != '/')
                    &&& m.spec_kind() == s@.take(i)
                    &&& m.spec_subtype() == s@.skip(i + 1)
                },
            r is None ==> (forall|i: int|
                0 < i < s@.len() - 1 && (forall|k: int| 0 <= k < i ==> s@[k] != '/') ==> s@[i]
                    != '/'),
    {
        let n = s.unicode_len();
        let mut i: usize = 0;
        while i < n && s.get_char(i) != '/'
            invariant
                n == s@.len(),
                i <= n,
                forall|k: int| 0 <= k < i ==> s@[k] != '/',
            decreases n - i,
        {
            i += 1;
        }
        if i == 0 || i >= n || i + 1 >= n {
            return None;
        }
        let kind = String::from_str(s.substring_char(0, i));
        let subtype = String::from_str(s.substring_char(i + 1, n));
        Some(MimeType { kind, subtype })
    }
}

/// Whether `mime` is admitted by the allow-list `allowed`: an empty list
/// admits nothing, `*/*` admits everything, `type/*` admits every subtype
/// of `type`, and otherwise both components must agree.
pub fn is_mime_allowed(mime: &MimeType, allowed: &Vec<MimeType>) -> (r: bool)
    ensures
        r == mime_allowed_by(mime.spec_kind(), mime.spec_subtype(), allowed@),
{
    let mut i: usize = 0;
    while i < allowed.len()
        invariant
            i <= allowed@.len(),
            forall|k: int|
                0 <= k < i ==> !mime_matches(
                    mime.spec_kind(),
                    mime.spec_subtype(),
                    (#[trigger] allowed@[k]).spec_kind(),
                    allowed@[k].spec_subtype(),
                ),
        decreases allowed@.len() - i,
    {
        let a = &allowed[i];
        let both_wild = str_is_wildcard(a.kind.as_str()) && str_is_wildcard(a.subtype.as_str());
        let sub_wild = str_is_wildcard(a.subtype.as_str()) && strings_equal(&a.kind, &mime.kind);
        let exact = strings_equal(&a.kind, &mime.kind) && strings_equal(&a.subtype, &mime.subtype);
        if both_wild || sub_wild || exact {
            assert(mime_matches(
                mime.spec_kind(),
                mime.spec_subtype(),
                allowed@[i as int].spec_kind(),
                allowed@[i as int].spec_subtype(),
            ));
            return true;
        }
        i += 1;
    }
    false
}

/// Whether `s` is exactly `*`.
fn str_is_wildcard(s: &str) -> (r: bool)
    ensures
        r == (s@ == mime_wildcard()),
{
    proof {
        reveal_strlit("*");
    }
    if s.unicode_len() == 1 && s.get_char(0) == '*' {
        proof {
            assert(s@ =~= mime_wildcard());
        }
        true
    } else {
        proof {
            if s@ == mime_wildcard() {
                assert(s@.len() == 1);
                assert(s@[0] == '*');
            }
        }
        false
    }
}

/// Whether two strings hold the same characters.
fn strings_equal(a: &String, b: &String) -> (r: bool)
    ensures
        r == (a@ == b@),
{
    a.eq(b)
}

} // verus!
