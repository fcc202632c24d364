use vstd::prelude::*;
use vstd::string::*;
use crate::clock::now_millis;
use crate::cryptography::{decrypt_outcome, Cryptography, NONCE_LEN, SEAL_MSG_LIMIT, TAG_LEN};
use crate::error::StorageError;
use crate::paths::{check_path_is_safe, is_safe_path};
use crate::storage::{StorageCapabilities, StorageOperations};

verus! {

/// The namespace prefix under which every upload is stored.
pub open spec fn upload_prefix() -> Seq<char> {
    "uploads/"@
}

/// The full backend path of upload `id`.
pub open spec fn upload_path_of(id: Seq<char>) -> Seq<char> {
    upload_prefix() + id
}

/// `k` is an entry of `m` that a sweep at `now` evicts: it lies in the
/// upload namespace and its last access is at least `expire_after` in the
/// past.
pub open spec fn expired_key(
    m: Map<Seq<char>, (Seq<u8>, u64)>,
    k: Seq<char>,
    expire_after: u64,
    now: u64,
) -> bool {
    &&& m.contains_key(k)
    &&& k.len() >= upload_prefix().len()
    &&& k.take(upload_prefix().len() as int) == upload_prefix()
    &&& m[k].1 + expire_after <= now
}

/// What remains of contents `m` after a completed sweep at `now`.
pub open spec fn sweep_survivors(
    m: Map<Seq<char>, (Seq<u8>, u64)>,
    expire_after: u64,
    now: u64,
) -> Map<Seq<char>, (Seq<u8>, u64)> {
    Map::new(
        |k: Seq<char>| m.contains_key(k) && !expired_key(m, k, expire_after, now),
        |k: Seq<char>| m[k],
    )
}

/// How a sweep pass relates the contents before (`pre`) and after (`post`):
/// it never invents or alters entries, it only evicts entries expired at
/// `now`, and a completed pass evicts exactly those.
pub open spec fn sweep_outcome(
    pre: Map<Seq<char>, (Seq<u8>, u64)>,
    post: Map<Seq<char>, (Seq<u8>, u64)>,
    expire_after: u64,
    now: u64,
    complete: bool,
) -> bool {
    &&& (complete ==> post == sweep_survivors(pre, expire_after, now))
    &&& (forall|k: Seq<char>|
        #[trigger] post.contains_key(k) ==> pre.contains_key(k) && post[k] == pre[k])
    &&& (forall|k: Seq<char>|
        pre.contains_key(k) && !post.contains_key(k) ==> #[trigger] expired_key(
            pre,
            k,
            expire_after,
            now,
        ))
}

/// `post` is `pre` with at most the last-access stamp of `path` refreshed.
pub open spec fn touched_only(
    pre: Map<Seq<char>, (Seq<u8>, u64)>,
    post: Map<Seq<char>, (Seq<u8>, u64)>,
    path: Seq<char>,
) -> bool {
    ||| post == pre
    ||| exists|t: u64| post == pre.insert(path, (pre[path].0, t))
}

/// Encrypted, content-addressed upload storage over one backend.
///
/// Every operation rejects a path-escaping id before the backend is
/// reached, and a missing object and a failed decryption produce the same
/// outward `Unavailable` result.
pub struct AppStorage<P: StorageOperations> {
    provider: P,
}

impl<P: StorageOperations> AppStorage<P> {
    /// The backend's contents.
    pub closed spec fn store(&self) -> Map<Seq<char>, (Seq<u8>, u64)> {
        self.provider.store()
    }

    /// Whether the backend supports the expiry sweep.
    pub closed spec fn spec_supports_expiry(&self) -> bool {
        self.provider.spec_supports_expiry()
    }

    /// An engine that owns `provider`.
    pub fn new(provider: P) -> (r: Self)
        ensures
            r.store() == provider.store(),
            r.spec_supports_expiry() == provider.spec_supports_expiry(),
    {
        AppStorage { provider }
    }

    /// The upload namespace prefix.
    pub fn upload_path() -> (r: &'static str)
        ensures
            r@ == upload_prefix(),
    {
        "uploads/"
    }

    /// The backend path of upload `id`.
    fn full_path(id: &str) -> (r: String)
        ensures
            r@ == upload_path_of(id@),
    {
        let mut p = String::from_str(Self::upload_path());
        p.append(id);
        p
    }

    /// Whether the backend can evict expired uploads.
    pub fn provider_supports_expiry(&self) -> (r: bool)
        ensures
            r == self.spec_supports_expiry(),
    {
        self.provider.supports_expiry()
    }

    /// Encrypt `bytes` with the id bound in as associated data and store the
    /// blob under the upload namespace. The fresh decryption key is returned
    /// and never kept: on success the stored blob decrypts back to `bytes`
    /// with that key alone.
    pub fn save_upload(&mut self, id: &str, bytes: &[u8]) -> (r: Result<String, StorageError>)
        ensures
            final(self).spec_supports_expiry() == old(self).spec_supports_expiry(),
            r matches Err(StorageError::PermissionDenied) <==> !is_safe_path(id@),
            r matches Err(e) ==> (e matches StorageError::PermissionDenied
                || e matches StorageError::Encryption || e matches StorageError::Backend(_)),
            r matches Err(StorageError::Encryption) ==> bytes@.len() >= SEAL_MSG_LIMIT as int,
            r is Err ==> final(self).store() == old(self).store(),
            r matches Ok(key) ==> {
                &&& is_safe_path(id@)
                &&& final(self).store().contains_key(upload_path_of(id@))
                &&& decrypt_outcome(
                    final(self).store()[upload_path_of(id@)].0,
                    key@,
                    id.spec_bytes(),
                ) == Some(bytes@)
                &&& final(self).store()[upload_path_of(id@)].0.len() == bytes@.len() + NONCE_LEN
                    + TAG_LEN
                &&& exists|t: u64|
                    final(self).store() == old(self).store().insert(
                        upload_path_of(id@),
                        (final(self).store()[upload_path_of(id@)].0, t),
                    )
            },
    {
        if !check_path_is_safe(id) {
            return Err(StorageError::PermissionDenied);
        }
        let (key, ct) = match Cryptography::encrypt(bytes, id.as_bytes()) {
            Ok(p) => p,
            Err(_) => {
                return Err(StorageError::Encryption);
            },
        };
        let path = Self::full_path(id);
        match self.provider.write(path.as_str(), ct.as_slice()) {
            Ok(_) => {
                proof {
                    let t = choose|t: u64|
                        self.provider.store() == old(self).provider.store().insert(
                            path@,
                            (ct@, t),
                        );
                    assert(self.store()[upload_path_of(id@)].0 == ct@);
                    assert(self.store() == old(self).store().insert(
                        upload_path_of(id@),
                        (self.store()[upload_path_of(id@)].0, t),
                    ));
                }
                Ok(key)
            },
            Err(e) => Err(as_fatal(e)),
        }
    }

    /// Fetch and decrypt upload `id` with `key`. A missing object and a
    /// failed decryption — wrong key, wrong id, tampering — yield the same
    /// `Unavailable` error, so existence cannot be probed without the key.
    /// Reading refreshes the entry's last-access stamp and changes nothing
    /// else.
    pub fn get_upload(&mut self, id: &str, key: &str) -> (r: Result<Vec<u8>, StorageError>)
        ensures
            final(self).spec_supports_expiry() == old(self).spec_supports_expiry(),
            r matches Err(StorageError::PermissionDenied) <==> !is_safe_path(id@),
            r matches Err(e) ==> (e matches StorageError::PermissionDenied
                || e matches StorageError::Unavailable || e matches StorageError::Backend(_)),
            touched_only(old(self).store(), final(self).store(), upload_path_of(id@)),
            r matches Ok(b) ==> {
                &&& old(self).store().contains_key(upload_path_of(id@))
                &&& decrypt_outcome(
                    old(self).store()[upload_path_of(id@)].0,
                    key@,
                    id.spec_bytes(),
                ) == Some(b@)
            },
            r matches Err(StorageError::Unavailable) ==> (!old(self).store().contains_key(
                upload_path_of(id@),
            ) || decrypt_outcome(
                old(self).store()[upload_path_of(id@)].0,
                key@,
                id.spec_bytes(),
            ) is None),
    {
        if !check_path_is_safe(id) {
            return Err(StorageError::PermissionDenied);
        }
        let path = Self::full_path(id);
        let data = match self.provider.read(path.as_str()) {
            Ok(Some(d)) => d,
            Ok(None) => {
                return Err(StorageError::Unavailable);
            },
            Err(e) => {
                return Err(as_fatal(e));
            },
        };
        match Cryptography::decrypt(data.as_slice(), key, id.as_bytes()) {
            Ok(m) => Ok(m),
            Err(_) => Err(StorageError::Unavailable),
        }
    }

    /// Whether upload `id` is stored. Existence only: nothing is decrypted.
    pub fn upload_exists(&self, id: &str) -> (r: Result<bool, StorageError>)
        ensures
            r matches Err(StorageError::PermissionDenied) <==> !is_safe_path(id@),
            r matches Err(e) ==> (e matches StorageError::PermissionDenied
                || e matches StorageError::Backend(_)),
            r matches Ok(b) ==> b == self.store().contains_key(upload_path_of(id@)),
    {
        if !check_path_is_safe(id) {
            return Err(StorageError::PermissionDenied);
        }
        let path = Self::full_path(id);
        match self.provider.path_exists(path.as_str()) {
            Ok(b) => Ok(b),
            Err(e) => Err(as_fatal(e)),
        }
    }

    /// Remove upload `id`. Idempotent: deleting an absent id succeeds.
    pub fn delete_upload(&mut self, id: &str) -> (r: Result<(), StorageError>)
        ensures
            final(self).spec_supports_expiry() == old(self).spec_supports_expiry(),
            r matches Err(StorageError::PermissionDenied) <==> !is_safe_path(id@),
            r matches Err(e) ==> (e matches StorageError::PermissionDenied
                || e matches StorageError::Backend(_)),
            r is Ok ==> final(self).store() == old(self).store().remove(upload_path_of(id@)),
            r is Err ==> final(self).store() == old(self).store(),
    {
        if !check_path_is_safe(id) {
            return Err(StorageError::PermissionDenied);
        }
        let path = Self::full_path(id);
        match self.provider.delete(path.as_str()) {
            Ok(_) => Ok(()),
            Err(e) => Err(as_fatal(e)),
        }
    }

    /// Whether the entry at `path` has been unused for at least
    /// `expire_after` milliseconds at instant `now`. Without expiry support
    /// nothing ever counts as expired.
    fn is_upload_expired(&self, path: &str, expire_after: u64, now: u64) -> (r: Result<
        bool,
        StorageError,
    >)
        ensures
            !self.spec_supports_expiry() ==> (r matches Ok(b) && b == false),
            self.spec_supports_expiry() ==> match r {
                Ok(b) => self.store().contains_key(path@) && (b <==> self.store()[path@].1
                    + expire_after <= now),
                Err(_) => true,
            },
    {
        if !self.provider.supports_expiry() {
            return Ok(false);
        }
        match self.provider.last_access(path) {
            Ok(Some(t)) => match t.checked_add(expire_after) {
                Some(sum) => Ok(sum <= now),
                None => Ok(false),
            },
            Ok(None) => Err(
                StorageError::Backend(String::from_str("file does not have a last access time")),
            ),
            Err(e) => Err(e),
        }
    }

    /// Evict every upload whose last access predates `now - expire_after`.
    /// A no-op when the backend cannot track access times. A completed pass
    /// evicts exactly the expired uploads; a pass aborted by a backend fault
    /// has evicted only expired uploads and altered nothing else.
    pub fn remove_all_expired_uploads(&mut self, expire_after: u64) -> (r: Result<
        (),
        StorageError,
    >)
        ensures
            final(self).spec_supports_expiry() == old(self).spec_supports_expiry(),
            !old(self).spec_supports_expiry() ==> r is Ok && final(self).store() == old(
                self,
            ).store(),
            old(self).spec_supports_expiry() && r is Ok ==> exists|now: u64|
                #[trigger] sweep_outcome(old(self).store(), final(self).store(), expire_after, now, true),
            old(self).spec_supports_expiry() && r is Err ==> exists|now: u64|
                #[trigger] sweep_outcome(old(self).store(), final(self).store(), expire_after, now, false),
    {
        if !self.provider.supports_expiry() {
            return Ok(());
        }
        let now = now_millis();
        let ghost m0 = self.provider.store();
        let paths = match self.provider.list(Self::upload_path()) {
            Ok(p) => p,
            Err(e) => {
                proof {
                    assert(sweep_outcome(old(self).store(), self.store(), expire_after, now, false));
                }
                return Err(e);
            },
        };
        let mut idx: usize = 0;
        while idx < paths.len()
            invariant
                idx <= paths@.len(),
                old(self).spec_supports_expiry(),
                self.provider.spec_supports_expiry() == old(self).spec_supports_expiry(),
                m0 == old(self).store(),
                // what the listing said of the contents at entry
                forall|i: int|
                    0 <= i < paths@.len() ==> {
                        &&& (#[trigger] paths@[i])@.len() >= upload_prefix().len()
                        &&& paths@[i]@.take(upload_prefix().len() as int) == upload_prefix()
                        &&& m0.contains_key(paths@[i]@)
                    },
                forall|i: int, j: int| 0 <= i < j < paths@.len() ==> paths@[i]@ != paths@[j]@,
                forall|k: Seq<char>|
                    #[trigger] m0.contains_key(k) && k.len() >= upload_prefix().len() && k.take(
                        upload_prefix().len() as int,
                    ) == upload_prefix() ==> exists|i: int|
                        0 <= i < paths@.len() && (#[trigger] paths@[i])@ == k,
                // how the contents have evolved
                forall|k: Seq<char>|
                    #[trigger] self.provider.store().contains_key(k) ==> m0.contains_key(k)
                        && self.provider.store()[k] == m0[k],
                forall|k: Seq<char>|
                    m0.contains_key(k) && !self.provider.store().contains_key(k)
                        ==> #[trigger] expired_key(m0, k, expire_after, now),
                forall|k: Seq<char>|
                    m0.contains_key(k) && !(#[trigger] self.provider.store().contains_key(k))
                        ==> exists|j: int| 0 <= j < idx && (#[trigger] paths@[j])@ == k,
                // every processed expired entry is gone
                forall|j: int|
                    0 <= j < idx ==> (expired_key(m0, (#[trigger] paths@[j])@, expire_after, now)
                        ==> !self.provider.store().contains_key(paths@[j]@)),
            decreases paths@.len() - idx,
        {
            let p = &paths[idx];
            let expired = match self.is_upload_expired(p.as_str(), expire_after, now) {
                Ok(b) => b,
                Err(e) => {
                    proof {
                        assert(sweep_outcome(m0, self.provider.store(), expire_after, now, false));
                        assert(sweep_outcome(
                            old(self).store(),
                            self.store(),
                            expire_after,
                            now,
                            false,
                        ));
                    }
                    return Err(e);
                },
            };
            if expired {
                proof {
                    assert(expired_key(m0, p@, expire_after, now));
                }
                match self.provider.delete(p.as_str()) {
                    Ok(_) => {},
                    Err(e) => {
                        proof {
                            assert(sweep_outcome(
                                m0,
                                self.provider.store(),
                                expire_after,
                                now,
                                false,
                            ));
                            assert(sweep_outcome(
                                old(self).store(),
                                self.store(),
                                expire_after,
                                now,
                                false,
                            ));
                        }
                        return Err(e);
                    },
                }
            }
            idx += 1;
        }
        proof {
            let m1 = self.provider.store();
            assert forall|k: Seq<char>| #[trigger] m1.contains_key(k) implies m0.contains_key(k)
                && !expired_key(m0, k, expire_after, now) by {
                assert(m0.contains_key(k));
                if expired_key(m0, k, expire_after, now) {
                    let i = choose|i: int| 0 <= i < paths@.len() && (#[trigger] paths@[i])@ == k;
                    assert(!m1.contains_key(paths@[i]@));
                }
            }
            assert forall|k: Seq<char>|
                #[trigger] m0.contains_key(k) && !expired_key(m0, k, expire_after, now) implies
            m1.contains_key(k) && m1[k] == m0[k] by {
                if !m1.contains_key(k) {
                    assert(expired_key(m0, k, expire_after, now));
                }
            }
            assert(m1 =~= sweep_survivors(m0, expire_after, now));
            assert(sweep_outcome(m0, m1, expire_after, now, true));
            assert(sweep_outcome(old(self).store(), self.store(), expire_after, now, true));
        }
        Ok(())
    }
}


/// Expiry: a completed sweep at `now` evicts an upload whose last access
/// predates `now - expire_after`, and keeps every entry accessed within
/// the window, unchanged.
pub proof fn lemma_sweep_expiry(
    m: Map<Seq<char>, (Seq<u8>, u64)>,
    k: Seq<char>,
    expire_after: u64,
    now: u64,
)
    ensures
        expired_key(m, k, expire_after, now) ==> !sweep_survivors(
            m,
            expire_after,
            now,
        ).contains_key(k),
        m.contains_key(k) && m[k].1 + expire_after > now ==> sweep_survivors(
            m,
            expire_after,
            now,
        ).contains_key(k) && sweep_survivors(m, expire_after, now)[k] == m[k],
{
}

/// A backend fault propagated through the engine: whatever the backend
/// reported, the engine's own `Unavailable` and `PermissionDenied` answers
/// keep their exact meanings, so any other variant collapses to `Backend`.
fn as_fatal(e: StorageError) -> (r: StorageError)
    ensures
        r matches StorageError::Backend(_),
{
    match e {
        StorageError::Backend(s) => StorageError::Backend(s),
        _ => StorageError::Backend(String::from_str("backend failure")),
    }
}

} // verus!
