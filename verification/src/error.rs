use vstd::prelude::*;

verus! {

/// Errors reported by the storage engine and the backends.
///
/// `Unavailable` deliberately covers both "the object is absent" and "the
/// presented key failed to authenticate": a caller without the right key must
/// not be able to tell the two apart, so no existence oracle arises.
#[derive(Clone, Debug, PartialEq, Eq)]
pub enum StorageError {
    /// The object is absent, or decryption failed under the presented key.
    Unavailable,
    /// The path escapes the storage namespace; the call fails closed.
    PermissionDenied,
    /// The cipher or the entropy source failed while encrypting.
    Encryption,
    /// A fatal backend fault (disk or network), with a short description.
    Backend(String),
}

impl StorageError {
    /// A short description of the error, fit for a log line or response body.
    pub fn message(&self) -> (r: &'static str)
        ensures
            r@.len() > 0,
    {
        let m: &'static str = match self {
            StorageError::Unavailable => {
                "object unavailable: it does not exist or the decryption key is invalid"
            },
            StorageError::PermissionDenied => "permission denied: path escapes the storage namespace",
            StorageError::Encryption => "encryption failure",
            StorageError::Backend(_) => "backend failure",
        };
        proof {
            reveal_strlit("object unavailable: it does not exist or the decryption key is invalid");
            reveal_strlit("permission denied: path escapes the storage namespace");
            reveal_strlit("encryption failure");
            reveal_strlit("backend failure");
        }
        m
    }
}

} // verus!
