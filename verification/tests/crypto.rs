use base64ct::Encoding;
use dollhouse::cryptography::{derive_upload_id, CryptoError, Cryptography};

fn reference_salted_hash(content: &[u8], salt: &str) -> String {
    let mut hasher = blake3::Hasher::new();
    hasher.update(content);
    hasher.update(salt.as_bytes());
    hasher.finalize().to_hex().to_string()
}

#[test]
fn round_trip_small() {
    let bytes = b"hello world";
    let aad = b"abc123.png";
    let (key, ct) = Cryptography::encrypt(bytes, aad).unwrap();
    let back = Cryptography::decrypt(&ct, &key, aad).unwrap();
    assert_eq!(back, bytes);
}

#[test]
fn round_trip_empty() {
    let bytes: &[u8] = b"";
    let aad = b"empty";
    let (key, ct) = Cryptography::encrypt(bytes, aad).unwrap();
    assert_eq!(ct.len(), 12 + 16);
    let back = Cryptography::decrypt(&ct, &key, aad).unwrap();
    assert!(back.is_empty());
}

#[test]
fn ciphertext_layout() {
    let bytes = b"abcd";
    let (_, ct) = Cryptography::encrypt(bytes, b"x").unwrap();
    assert_eq!(ct.len(), bytes.len() + 12 + 16);
}

#[test]
fn tamper_rejection_every_bit() {
    let bytes = b"tamper me";
    let aad = b"id";
    let (key, ct) = Cryptography::encrypt(bytes, aad).unwrap();
    for byte_idx in 0..ct.len() {
        for bit in 0..8 {
            let mut bad = ct.clone();
            bad[byte_idx] ^= 1 << bit;
            let r = Cryptography::decrypt(&bad, &key, aad);
            assert_eq!(r.unwrap_err(), CryptoError::AuthenticationFailure);
        }
    }
}

#[test]
fn wrong_key_rejected() {
    let aad = b"same-id";
    let (_key1, ct1) = Cryptography::encrypt(b"first", aad).unwrap();
    let (key2, _ct2) = Cryptography::encrypt(b"second", aad).unwrap();
    let r = Cryptography::decrypt(&ct1, &key2, aad);
    assert_eq!(r.unwrap_err(), CryptoError::AuthenticationFailure);
}

#[test]
fn wrong_aad_rejected() {
    let (key, ct) = Cryptography::encrypt(b"payload", b"id-one").unwrap();
    let r = Cryptography::decrypt(&ct, &key, b"id-two");
    assert_eq!(r.unwrap_err(), CryptoError::AuthenticationFailure);
}

#[test]
fn short_blob_rejected() {
    let r = Cryptography::decrypt(b"short", "anykey", b"aad");
    assert_eq!(r.unwrap_err(), CryptoError::AuthenticationFailure);
}

#[test]
fn malformed_key_text_rejected() {
    let (_key, ct) = Cryptography::encrypt(b"payload", b"id").unwrap();
    let r = Cryptography::decrypt(&ct, "!!! not base64 !!!", b"id");
    assert_eq!(r.unwrap_err(), CryptoError::AuthenticationFailure);
}

#[test]
fn key_text_is_urlsafe_unpadded_base64() {
    let (key, _ct) = Cryptography::encrypt(b"bytes", b"id").unwrap();
    // 32 key bytes, canonically encoded without padding.
    let raw = base64ct::Base64UrlUnpadded::decode_vec(&key).unwrap();
    assert_eq!(raw.len(), 32);
    assert_eq!(base64ct::Base64UrlUnpadded::encode_string(&raw), key);
    assert_eq!(key.len(), 43);
}

#[test]
fn hash_deterministic() {
    let h1 = Cryptography::hash_bytes(b"some content", "salt").unwrap();
    let h2 = Cryptography::hash_bytes(b"some content", "salt").unwrap();
    assert_eq!(h1, h2);
    assert_eq!(h1.len(), 64);
    assert_eq!(h1, reference_salted_hash(b"some content", "salt"));
}

#[test]
fn hash_parallel_path_matches_serial() {
    // Two mebibytes: hashed on the worker-thread path, which must agree
    // with the serial reference digest.
    let big = vec![0xabu8; 2 * 0x100000];
    let h = Cryptography::hash_bytes(&big, "pepper").unwrap();
    assert_eq!(h, reference_salted_hash(&big, "pepper"));
}

#[test]
fn hash_salt_sensitivity() {
    let h1 = Cryptography::hash_bytes(b"content", "salt-one").unwrap();
    let h2 = Cryptography::hash_bytes(b"content", "salt-two").unwrap();
    assert_ne!(h1, h2);
}

#[test]
fn upload_id_from_hash_and_extension() {
    let expected_hash = reference_salted_hash(b"picture bytes", "s");
    let id = derive_upload_id(b"picture bytes", "s", "png");
    assert_eq!(id, format!("{}.{}", &expected_hash[..10], "png"));
    let bare = derive_upload_id(b"picture bytes", "s", "");
    assert_eq!(bare, expected_hash[..10].to_string());
}
