use vstd::prelude::*;
use vstd::string::*;
use crate::text::is_blank_char;
use chacha20poly1305::aead::rand_core::RngCore;
use chacha20poly1305::aead::OsRng;

verus! {

/// Character count of a freshly created salt.
pub const SALT_LEN: usize = 32;

/// The characters a salt is made of.
pub open spec fn salt_alphabet() -> Seq<char> {
    "ABCDEFGHIJKLMNOPQRSTUVWXYZabcdefghijklmnopqrstuvwxyz0123456789"@
}

/// The salt character a random byte selects.
pub open spec fn salt_char_of(b: u8) -> char {
    salt_alphabet()[b as int % 62]
}

/// The salt alphabet, for selecting characters.
fn salt_alphabet_str() -> (r: &'static str)
    ensures
        r@ == salt_alphabet(),
        r@.len() == 62,
{
    proof {
        reveal_strlit("ABCDEFGHIJKLMNOPQRSTUVWXYZabcdefghijklmnopqrstuvwxyz0123456789");
    }
    "ABCDEFGHIJKLMNOPQRSTUVWXYZabcdefghijklmnopqrstuvwxyz0123456789"
}

/// Relies on rand_core's `OsRng` (as chacha20poly1305 re-exports it):
/// `fill_bytes` fills the buffer from the operating system's entropy
/// source. Nothing can be promised of the values, only of the count.
#[verifier::external_body]
fn fill_random_bytes(n: usize) -> (r: Vec<u8>)
    ensures
        r@.len() == n,
{
    let mut v = vec![0u8; n];
    OsRng.fill_bytes(&mut v);
    v
}

/// The salt text that `bytes` selects: one alphabet character per byte.
pub fn salt_from_bytes(bytes: &Vec<u8>) -> (r: String)
    ensures
        r@.len() == bytes@.len(),
        forall|i: int| 0 <= i < r@.len() ==> r@[i] == salt_char_of(bytes@[i]),
{
    let alphabet = salt_alphabet_str();
    let mut out = String::new();
    let mut i: usize = 0;
    while i < bytes.len()
        invariant
            i <= bytes@.len(),
            alphabet@ == salt_alphabet(),
            alphabet@.len() == 62,
            out@.len() == i,
            forall|k: int| 0 <= k < i ==> out@[k] == salt_char_of(bytes@[k]),
        decreases bytes@.len() - i,
    {
        let idx = (bytes[i] % 62) as usize;
        let ch = alphabet.substring_char(idx, idx + 1);
        out.append(ch);
        i += 1;
    }
    out
}

/// A fresh cryptographically random salt: [`SALT_LEN`] characters drawn
/// from the salt alphabet.
pub fn generate_salt() -> (r: String)
    ensures
        r@.len() == SALT_LEN,
        forall|i: int| 0 <= i < r@.len() ==> salt_alphabet().contains(#[trigger] r@[i]),
{
    let bytes = fill_random_bytes(SALT_LEN);
    let r = salt_from_bytes(&bytes);
    proof {
        assert forall|i: int| 0 <= i < r@.len() implies salt_alphabet().contains(
            #[trigger] r@[i],
        ) by {
            reveal_strlit("ABCDEFGHIJKLMNOPQRSTUVWXYZabcdefghijklmnopqrstuvwxyz0123456789");
            assert(salt_alphabet().len() == 62);
            assert(r@[i] == salt_alphabet()[bytes@[i] as int % 62]);
        }
    }
    r
}

/// Whether persisted salt text is usable: it holds at least one character
/// that is not blank.
pub fn salt_is_usable(s: &str) -> (r: bool)
    ensures
        r == exists|i: int| 0 <= i < s@.len() && !is_blank_char(#[trigger] s@[i]),
{
    let n = s.unicode_len();
    let mut i: usize = 0;
    while i < n
        invariant
            n == s@.len(),
            i <= n,
            forall|k: int| 0 <= k < i ==> is_blank_char(#[trigger] s@[k]),
        decreases n - i,
    {
        if !crate::text::blank_char(s.get_char(i)) {
            return true;
        }
        i += 1;
    }
    false
}

} // verus!
