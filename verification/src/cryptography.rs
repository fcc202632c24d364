use vstd::prelude::*;
use vstd::string::*;
use base64ct::Encoding;
use chacha20poly1305::aead::{Aead, OsRng, Payload};
use chacha20poly1305::{AeadCore, ChaCha20Poly1305, KeyInit};

verus! {

/// Byte length of the nonce that prefixes every ciphertext blob.
pub const NONCE_LEN: usize = 12;
/// Byte length of a symmetric key.
pub const KEY_LEN: usize = 32;
/// Byte length of the authentication tag the AEAD seal appends.
pub const TAG_LEN: usize = 16;
/// Content at or above this many bytes is hashed with worker threads.
pub const PARALLEL_HASH_THRESHOLD: usize = 0x100000;
/// The cipher counts 64-byte blocks in a 32-bit counter: every message
/// shorter than this many bytes seals successfully.
pub const SEAL_MSG_LIMIT: u64 = 64 * 0xffff_ffff;

/// What `ChaCha20Poly1305` sealing returns for a given key, nonce, message
/// and associated data.
pub uninterp spec fn seal_bytes(key: Seq<u8>, nonce: Seq<u8>, msg: Seq<u8>, aad: Seq<u8>) -> Seq<u8>;

/// What `ChaCha20Poly1305` opening returns for a given key, nonce, ciphertext
/// and associated data: the message, or nothing when authentication fails.
pub uninterp spec fn open_bytes(key: Seq<u8>, nonce: Seq<u8>, ct: Seq<u8>, aad: Seq<u8>) -> Option<
    Seq<u8>,
>;

/// What the URL-safe unpadded Base64 encoding of `bytes` is.
pub uninterp spec fn b64url_of(bytes: Seq<u8>) -> Seq<char>;

/// What decoding `text` as URL-safe unpadded Base64 returns: the bytes, or
/// nothing when `text` is not a canonical encoding.
pub uninterp spec fn b64url_decoded(text: Seq<char>) -> Option<Seq<u8>>;

/// What the hex digest of content followed by salt is under BLAKE3.
pub uninterp spec fn salted_hash_hex(content: Seq<u8>, salt: Seq<u8>) -> Seq<char>;

/// Errors of the cryptography component.
#[derive(Clone, Copy, Debug, PartialEq, Eq)]
pub enum CryptoError {
    /// Wrong key, wrong associated data, or tampered ciphertext.
    AuthenticationFailure,
    /// The cipher or the entropy source failed while sealing.
    EncryptionFailure,
}

/// Relies on chacha20poly1305: `ChaCha20Poly1305::generate_key` draws a fresh
/// 256-bit key from the operating system's entropy source. Nothing can be
/// promised of the value, only of its length.
#[verifier::external_body]
fn generate_key_bytes() -> (r: Vec<u8>)
    ensures
        r@.len() == KEY_LEN,
{
    ChaCha20Poly1305::generate_key(&mut OsRng).to_vec()
}

/// Relies on chacha20poly1305: `AeadCore::generate_nonce` draws a fresh
/// 96-bit nonce from the operating system's entropy source. Nothing can be
/// promised of the value, only of its length.
#[verifier::external_body]
fn generate_nonce_bytes() -> (r: Vec<u8>)
    ensures
        r@.len() == NONCE_LEN,
{
    ChaCha20Poly1305::generate_nonce(&mut OsRng).to_vec()
}

/// Relies on chacha20poly1305: `Aead::encrypt` seals `msg` under the key and
/// nonce with `aad` bound in. The result is the message plus a 16-byte tag,
/// and the crate documents that `Aead::decrypt` with the same parameters
/// returns the message again. The cipher's one failure is a message of at
/// least [`SEAL_MSG_LIMIT`] bytes, past its 32-bit block counter.
#[verifier::external_body]
fn aead_seal(key: &[u8], nonce: &[u8], msg: &[u8], aad: &[u8]) -> (r: Result<Vec<u8>, CryptoError>)
    requires
        key@.len() == KEY_LEN,
        nonce@.len() == NONCE_LEN,
    ensures
        msg@.len() < SEAL_MSG_LIMIT as int ==> r is Ok,
        r matches Ok(ct) ==> {
            &&& ct@ == seal_bytes(key@, nonce@, msg@, aad@)
            &&& ct@.len() == msg@.len() + TAG_LEN
            &&& open_bytes(key@, nonce@, ct@, aad@) == Some(msg@)
        },
        r matches Err(e) ==> e == CryptoError::EncryptionFailure,
{
    let cipher = match ChaCha20Poly1305::new_from_slice(key) {
        Ok(c) => c,
        Err(_) => {
            return Err(CryptoError::EncryptionFailure);
        },
    };
    match cipher.encrypt(chacha20poly1305::Nonce::from_slice(nonce), Payload { msg, aad }) {
        Ok(ct) => Ok(ct),
        Err(_) => Err(CryptoError::EncryptionFailure),
    }
}

/// Relies on chacha20poly1305: `Aead::decrypt` opens a sealed ciphertext and
/// fails whenever key, nonce, associated data or ciphertext do not match what
/// was sealed; the outcome is a function of those four inputs alone.
#[verifier::external_body]
fn aead_open(key: &[u8], nonce: &[u8], ct: &[u8], aad: &[u8]) -> (r: Result<Vec<u8>, CryptoError>)
    requires
        key@.len() == KEY_LEN,
        nonce@.len() == NONCE_LEN,
    ensures
        r is Ok <==> open_bytes(key@, nonce@, ct@, aad@) is Some,
        r matches Ok(m) ==> open_bytes(key@, nonce@, ct@, aad@) == Some(m@),
        r matches Err(e) ==> e == CryptoError::AuthenticationFailure,
{
    let cipher = match ChaCha20Poly1305::new_from_slice(key) {
        Ok(c) => c,
        Err(_) => {
            return Err(CryptoError::AuthenticationFailure);
        },
    };
    match cipher.decrypt(chacha20poly1305::Nonce::from_slice(nonce), Payload { msg: ct, aad }) {
        Ok(m) => Ok(m),
        Err(_) => Err(CryptoError::AuthenticationFailure),
    }
}

/// Relies on base64ct: `Base64UrlUnpadded::encode_string` produces the
/// canonical URL-safe unpadded Base64 text, and the crate documents that
/// `decode_vec` inverts it.
#[verifier::external_body]
fn b64url_encode(bytes: &[u8]) -> (r: String)
    requires
        bytes@.len() * 4 <= usize::MAX,
    ensures
        r@ == b64url_of(bytes@),
        b64url_decoded(r@) == Some(bytes@),
{
    base64ct::Base64UrlUnpadded::encode_string(bytes)
}

/// Relies on base64ct: `Base64UrlUnpadded::decode_vec` decodes canonical
/// URL-safe unpadded Base64 and rejects everything else; the outcome is a
/// function of the text alone.
#[verifier::external_body]
fn b64url_decode(text: &str) -> (r: Result<Vec<u8>, CryptoError>)
    ensures
        r is Ok <==> b64url_decoded(text@) is Some,
        r matches Ok(b) ==> b64url_decoded(text@) == Some(b@),
{
    match base64ct::Base64UrlUnpadded::decode_vec(text) {
        Ok(b) => Ok(b),
        Err(_) => Err(CryptoError::AuthenticationFailure),
    }
}

/// Relies on blake3: `Hasher::update` over the content and then the salt,
/// `finalize`, and `Hash::to_hex`; the 64-character digest is a function of
/// the hashed bytes alone.
#[verifier::external_body]
fn blake3_salted_hex(content: &[u8], salt: &[u8]) -> (r: String)
    ensures
        r@ == salted_hash_hex(content@, salt@),
        r@.len() == 64,
{
    let mut hasher = blake3::Hasher::new();
    hasher.update(content);
    hasher.update(salt);
    hasher.finalize().to_hex().to_string()
}

/// Relies on blake3: `Hasher::update_rayon` hashes with worker threads and is
/// documented to produce the same digest as `Hasher::update`.
#[verifier::external_body]
fn blake3_salted_hex_rayon(content: &[u8], salt: &[u8]) -> (r: String)
    ensures
        r@ == salted_hash_hex(content@, salt@),
        r@.len() == 64,
{
    let mut hasher = blake3::Hasher::new();
    hasher.update_rayon(content);
    hasher.update(salt);
    hasher.finalize().to_hex().to_string()
}

/// The mathematical outcome of decrypting `ct` with the encoded key
/// `key_text` under associated data `aad`: the plaintext, or nothing when the
/// blob is too short for a nonce prefix, the key text does not decode to a
/// key-sized byte string, or the seal does not open.
pub open spec fn decrypt_outcome(ct: Seq<u8>, key_text: Seq<char>, aad: Seq<u8>) -> Option<Seq<u8>> {
    if ct.len() < NONCE_LEN {
        None
    } else {
        match b64url_decoded(key_text) {
            Some(kb) => {
                if kb.len() == KEY_LEN {
                    open_bytes(kb, ct.take(NONCE_LEN as int), ct.skip(NONCE_LEN as int), aad)
                } else {
                    None
                }
            },
            None => None,
        }
    }
}

/// Stateless authenticated encryption, decryption and salted hashing.
pub struct Cryptography;

impl Cryptography {
    /// Encrypt `bytes` under a fresh random key and nonce, binding `aad` into
    /// the authentication tag. On success the encoded key and the blob
    /// `nonce || sealed bytes` are returned, and decrypting that blob with
    /// that key under the same associated data yields `bytes` again.
    pub fn encrypt(bytes: &[u8], aad: &[u8]) -> (r: Result<(String, Vec<u8>), CryptoError>)
        ensures
            bytes@.len() < SEAL_MSG_LIMIT as int ==> r is Ok,
            r matches Ok((key_text, ct)) ==> {
                &&& ct@.len() == bytes@.len() + NONCE_LEN + TAG_LEN
                &&& exists|kb: Seq<u8>, n: Seq<u8>|
                    {
                        &&& kb.len() == KEY_LEN
                        &&& n.len() == NONCE_LEN
                        &&& key_text@ == b64url_of(kb)
                        &&& ct@ == n + #[trigger] seal_bytes(kb, n, bytes@, aad@)
                    }
                &&& decrypt_outcome(ct@, key_text@, aad@) == Some(bytes@)
            },
            r matches Err(e) ==> e == CryptoError::EncryptionFailure,
    {
        let key = generate_key_bytes();
        let nonce = generate_nonce_bytes();
        let mut sealed = match aead_seal(key.as_slice(), nonce.as_slice(), bytes, aad) {
            Ok(s) => s,
            Err(e) => {
                return Err(e);
            },
        };
        let ghost n = nonce@;
        let mut ct = nonce;
        ct.append(&mut sealed);
        let key_text = b64url_encode(key.as_slice());
        proof {
            assert(ct@.take(NONCE_LEN as int) =~= n);
            assert(ct@.skip(NONCE_LEN as int) =~= seal_bytes(key@, n, bytes@, aad@));
        }
        Ok((key_text, ct))
    }

    /// Decrypt a blob produced by [`Cryptography::encrypt`]. Succeeds exactly
    /// when the blob opens under the presented key and associated data; every
    /// failure — wrong key, wrong associated data, tampering, or a malformed
    /// blob — is the same `AuthenticationFailure`.
    pub fn decrypt(bytes: &[u8], key: &str, aad: &[u8]) -> (r: Result<Vec<u8>, CryptoError>)
        ensures
            r is Ok <==> decrypt_outcome(bytes@, key@, aad@) is Some,
            r matches Ok(m) ==> decrypt_outcome(bytes@, key@, aad@) == Some(m@),
            r matches Err(e) ==> e == CryptoError::AuthenticationFailure,
    {
        if bytes.len() < NONCE_LEN {
            return Err(CryptoError::AuthenticationFailure);
        }
        let kb = match b64url_decode(key) {
            Ok(kb) => kb,
            Err(_) => {
                return Err(CryptoError::AuthenticationFailure);
            },
        };
        if kb.len() != KEY_LEN {
            return Err(CryptoError::AuthenticationFailure);
        }
        let nonce = vstd::slice::slice_subrange(bytes, 0, NONCE_LEN);
        let rest = vstd::slice::slice_subrange(bytes, NONCE_LEN, bytes.len());
        proof {
            assert(nonce@ =~= bytes@.take(NONCE_LEN as int));
            assert(rest@ =~= bytes@.skip(NONCE_LEN as int));
        }
        match aead_open(kb.as_slice(), nonce, rest, aad) {
            Ok(m) => Ok(m),
            Err(e) => Err(e),
        }
    }

    /// Hash `bytes` and fold the salt into the digest state after the
    /// content. Large inputs are hashed across worker threads, small ones
    /// serially; the digest does not depend on which path ran.
    pub fn hash_bytes(bytes: &[u8], salt: &str) -> (r: Result<String, CryptoError>)
        ensures
            r is Ok,
            r matches Ok(h) ==> h@ == salted_hash_hex(bytes@, salt.spec_bytes()) && h@.len() == 64,
    {
        let h = if bytes.len() >= PARALLEL_HASH_THRESHOLD {
            blake3_salted_hex_rayon(bytes, salt.as_bytes())
        } else {
            blake3_salted_hex(bytes, salt.as_bytes())
        };
        Ok(h)
    }
}

/// The content-addressed id of an upload: the first ten characters of the
/// salted content hash, then a dot and the inferred extension when one was
/// given.
pub fn derive_upload_id(bytes: &[u8], salt: &str, extension: &str) -> (r: String)
    ensures
        extension@.len() == 0 ==> r@ == salted_hash_hex(bytes@, salt.spec_bytes()).take(10),
        extension@.len() > 0 ==> r@ == salted_hash_hex(bytes@, salt.spec_bytes()).take(10) + "."@
            + extension@,
{
    let h = match Cryptography::hash_bytes(bytes, salt) {
        Ok(h) => h,
        Err(_) => {
            // hash_bytes promises success, so this arm is unreachable
            assert(false);
            String::new()
        },
    };
    let prefix = h.as_str().substring_char(0, 10);
    let mut id = String::from_str(prefix);
    if extension.unicode_len() > 0 {
        id.append(".");
        id.append(extension);
    }
    id
}

/// Round trip, spelled out: a blob `nonce || sealed` decrypts to `msg`
/// under any key text that decodes to the sealing key, whenever the seal
/// opens back to `msg`. [`Cryptography::encrypt`] promises exactly these
/// premises of what it returns, and [`Cryptography::decrypt`] returns
/// `decrypt_outcome`.
pub proof fn lemma_decrypt_of_sealed(
    kb: Seq<u8>,
    n: Seq<u8>,
    sealed: Seq<u8>,
    aad: Seq<u8>,
    key_text: Seq<char>,
    msg: Seq<u8>,
)
    requires
        kb.len() == KEY_LEN,
        n.len() == NONCE_LEN,
        b64url_decoded(key_text) == Some(kb),
        open_bytes(kb, n, sealed, aad) == Some(msg),
    ensures
        decrypt_outcome(n + sealed, key_text, aad) == Some(msg),
{
    assert((n + sealed).take(NONCE_LEN as int) =~= n);
    assert((n + sealed).skip(NONCE_LEN as int) =~= sealed);
}

} // verus!
