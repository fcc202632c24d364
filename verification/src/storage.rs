use vstd::prelude::*;
use vstd::string::*;
use crate::error::StorageError;
use crate::filesystem::FilesystemStorage;
use crate::memory::MemoryStorage;
use crate::s3::S3Storage;
use crate::text::{first_segment, is_first_segment, is_trim_of, str_starts_with, str_trim};

verus! {

/// The empty backend contents.
pub open spec fn empty_store() -> Map<Seq<char>, (Seq<u8>, u64)> {
    Map::empty()
}

/// Capability query, part of every backend's interface contract rather than
/// a side channel.
pub trait StorageCapabilities: Sized {
    /// Whether this backend tracks last-access times, and so can take part
    /// in the expiry sweep. Unverified implementations leave the default in
    /// place; nothing is proved about them through this trait.
    open spec fn spec_supports_expiry(&self) -> bool {
        false
    }

    /// Capability gate: callers consult this before any expiry operation.
    fn supports_expiry(&self) -> (r: bool)
        ensures
            r == self.spec_supports_expiry(),
    ;
}

/// Raw byte storage addressed by a logical relative path.
///
/// The contract is stated over `store`, the mathematical map from each
/// stored path to its bytes and its last-access stamp. A backend may fail
/// with a fatal I/O error at any call; whenever it reports success, the
/// clauses below pin down the result and the new contents.
pub trait StorageOperations: StorageCapabilities {
    /// The backend's contents: each stored path with its bytes and its
    /// last-access stamp (milliseconds since the Unix epoch). Unverified
    /// implementations leave the default in place; nothing is proved about
    /// them through this trait.
    open spec fn store(&self) -> Map<Seq<char>, (Seq<u8>, u64)> {
        empty_store()
    }

    /// Read the bytes at `path`. An absent path yields `None`, not an
    /// error. Where the backend tracks access, the entry's stamp is
    /// refreshed as a side effect; the bytes of every entry are untouched.
    fn read(&mut self, path: &str) -> (r: Result<Option<Vec<u8>>, StorageError>)
        ensures
            final(self).spec_supports_expiry() == old(self).spec_supports_expiry(),
            match r {
                Ok(Some(data)) => {
                    &&& old(self).store().contains_key(path@)
                    &&& data@ == old(self).store()[path@].0
                    &&& exists|t: u64|
                        final(self).store() == old(self).store().insert(
                            path@,
                            (old(self).store()[path@].0, t),
                        )
                },
                Ok(None) => {
                    &&& !old(self).store().contains_key(path@)
                    &&& final(self).store() == old(self).store()
                },
                Err(_) => final(self).store() == old(self).store(),
            },
    ;

    /// Write `data` at `path`: a full overwrite that creates the entry if
    /// absent, stamped with the current time.
    fn write(&mut self, path: &str, data: &[u8]) -> (r: Result<(), StorageError>)
        ensures
            final(self).spec_supports_expiry() == old(self).spec_supports_expiry(),
            match r {
                Ok(_) => exists|t: u64|
                    final(self).store() == old(self).store().insert(path@, (data@, t)),
                Err(_) => final(self).store() == old(self).store(),
            },
    ;

    /// Remove the entry at `path`. Yields whether something was removed;
    /// deleting an absent path is not an error.
    fn delete(&mut self, path: &str) -> (r: Result<bool, StorageError>)
        ensures
            final(self).spec_supports_expiry() == old(self).spec_supports_expiry(),
            match r {
                Ok(b) => {
                    &&& b == old(self).store().contains_key(path@)
                    &&& final(self).store() == old(self).store().remove(path@)
                },
                Err(_) => final(self).store() == old(self).store(),
            },
    ;

    /// Whether an entry is stored at `path`.
    fn path_exists(&self, path: &str) -> (r: Result<bool, StorageError>)
        ensures
            r matches Ok(b) ==> b == self.store().contains_key(path@),
    ;

    /// The stored paths that start with `prefix`, without duplicates. A
    /// backend that supports expiry lists every such path; one that does not
    /// may return a bounded page and miss entries.
    fn list(&self, prefix: &str) -> (r: Result<Vec<String>, StorageError>)
        ensures
            r matches Ok(v) ==> {
                &&& forall|i: int|
                    0 <= i < v@.len() ==> {
                        &&& (#[trigger] v@[i])@.len() >= prefix@.len()
                        &&& v@[i]@.take(prefix@.len() as int) == prefix@
                        &&& self.store().contains_key(v@[i]@)
                    }
                &&& forall|i: int, j: int| 0 <= i < j < v@.len() ==> v@[i]@ != v@[j]@
                &&& self.spec_supports_expiry() ==> forall|k: Seq<char>|
                    #[trigger] self.store().contains_key(k) && k.len() >= prefix@.len()
                        && k.take(prefix@.len() as int) == prefix@ ==> exists|i: int|
                        0 <= i < v@.len() && (#[trigger] v@[i])@ == k
            },
    ;

    /// The last-access stamp of the entry at `path`. A backend that cannot
    /// track access times fails; one that can reports the stored stamp, and
    /// `None` only for an absent path.
    fn last_access(&self, path: &str) -> (r: Result<Option<u64>, StorageError>)
        ensures
            r matches Ok(Some(t)) ==> self.store().contains_key(path@) && t == self.store()[path@].1,
            r matches Ok(None) && self.spec_supports_expiry() ==> !self.store().contains_key(path@),
    ;
}

/// A configured backend, selected by a `memory://`, `fs://<path>` or
/// `s3://<bucket>` source string.
pub enum StorageProvider {
    /// Concurrent in-memory map; supports expiry.
    Memory(MemoryStorage),
    /// One file per object under a base directory; supports expiry.
    Filesystem(FilesystemStorage),
    /// One remote object per path in a bucket; cannot track last access.
    S3(S3Storage),
}

/// `source` selects the in-memory backend.
pub open spec fn selects_memory(source: Seq<char>) -> bool {
    source == "memory://"@
}

/// `source` selects the filesystem backend.
pub open spec fn selects_filesystem(source: Seq<char>) -> bool {
    source.len() >= 5 && source.take(5) == "fs://"@
}

/// `source` selects the object-store backend with a non-empty bucket name.
pub open spec fn selects_s3(source: Seq<char>) -> bool {
    source.len() >= 5 && source.take(5) == "s3://"@ && source.len() > 5 && source[5] != '/'
}

impl StorageProvider {
    /// Parse a backend source string: exactly `memory://`, or `fs://`
    /// followed by a base directory (surrounding blanks dropped), or `s3://`
    /// followed by a non-empty bucket name reaching to the first slash.
    /// Everything else is refused with a descriptive message.
    pub fn parse(source: &str) -> (r: Result<StorageProvider, String>)
        ensures
            r is Ok <==> selects_memory(source@) || selects_filesystem(source@) || selects_s3(
                source@,
            ),
            r matches Ok(p) ==> match p {
                StorageProvider::Memory(m) => selects_memory(source@) && m.store()
                    == empty_store(),
                StorageProvider::Filesystem(f) => selects_filesystem(source@) && is_trim_of(
                    f.spec_base_path(),
                    source@.skip(5),
                ),
                StorageProvider::S3(s) => selects_s3(source@) && is_first_segment(
                    s.spec_bucket(),
                    source@.skip(5),
                ) && s.spec_bucket().len() > 0,
            },
    {
        proof {
            reveal_strlit("memory://");
            reveal_strlit("fs://");
            reveal_strlit("s3://");
        }
        if str_starts_with(source, "memory://") && source.unicode_len() == 9 {
            proof {
                assert(source@ =~= "memory://"@);
            }
            return Ok(StorageProvider::Memory(MemoryStorage::new()));
        }
        if str_starts_with(source, "fs://") {
            let rest = source.substring_char(5, source.unicode_len());
            proof {
                assert(rest@ =~= source@.skip(5));
            }
            let trimmed = str_trim(rest);
            return Ok(StorageProvider::Filesystem(FilesystemStorage::new(trimmed)));
        }
        if str_starts_with(source, "s3://") {
            let rest = source.substring_char(5, source.unicode_len());
            proof {
                assert(rest@ =~= source@.skip(5));
            }
            let bucket = first_segment(rest);
            if bucket.as_str().unicode_len() == 0 {
                return Err(String::from_str("S3 bucket name cannot be empty"));
            }
            return Ok(StorageProvider::S3(S3Storage::new(bucket)));
        }
        proof {
            if selects_memory(source@) {
                assert(source@.len() == 9);
                assert(source@.take(9) =~= "memory://"@);
            }
        }
        Err(String::from_str("Valid sources are: 'memory://', 'fs://path', 's3://bucket'"))
    }
}

impl StorageCapabilities for StorageProvider {
    open spec fn spec_supports_expiry(&self) -> bool {
        match self {
            StorageProvider::Memory(s) => s.spec_supports_expiry(),
            StorageProvider::Filesystem(s) => s.spec_supports_expiry(),
            StorageProvider::S3(s) => s.spec_supports_expiry(),
        }
    }

    fn supports_expiry(&self) -> (r: bool) {
        match self {
            StorageProvider::Memory(s) => s.supports_expiry(),
            StorageProvider::Filesystem(s) => s.supports_expiry(),
            StorageProvider::S3(s) => s.supports_expiry(),
        }
    }
}

/// Backend contract parity, at the level of the contents every backend's
/// contract is stated over: writing `b` at `p` makes exactly `b` readable
/// at `p`, a delete after it leaves `p` absent, and deleting an absent path
/// removes nothing.
pub proof fn lemma_backend_parity(
    m: Map<Seq<char>, (Seq<u8>, u64)>,
    p: Seq<char>,
    b: Seq<u8>,
    t: u64,
)
    ensures
        m.insert(p, (b, t)).contains_key(p),
        m.insert(p, (b, t))[p].0 == b,
        !m.insert(p, (b, t)).remove(p).contains_key(p),
        !m.contains_key(p) ==> m.remove(p) == m,
{
    if !m.contains_key(p) {
        assert(m.remove(p) =~= m);
    }
}

} // verus!
