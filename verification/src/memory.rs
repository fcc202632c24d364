use vstd::prelude::*;
use vstd::string::*;
use crate::clock::now_millis;
use crate::error::StorageError;
use crate::storage::{StorageCapabilities, StorageOperations, empty_store};
use crate::text::str_starts_with;
use dashmap::DashMap;

verus! {

/// A concurrent map from path to bytes and last-access stamp, safely usable
/// from many tasks at once. The inner `DashMap` is opaque to verification;
/// the trusted wrappers below state what each operation does to
/// [`map_entries`].
#[verifier::external_body]
pub struct ConcurrentMap {
    inner: DashMap<String, (Vec<u8>, u64)>,
}

/// What the concurrent map holds: each stored path with its bytes and its
/// last-access stamp.
pub uninterp spec fn map_entries(m: &ConcurrentMap) -> Map<Seq<char>, (Seq<u8>, u64)>;

impl ConcurrentMap {
    /// The map's contents, as [`map_entries`] gives them.
    pub open spec fn entries(&self) -> Map<Seq<char>, (Seq<u8>, u64)> {
        map_entries(self)
    }

    /// Relies on dashmap: `DashMap::new` creates an empty map.
    #[verifier::external_body]
    pub fn new() -> (r: ConcurrentMap)
        ensures
            map_entries(&r) == empty_store(),
    {
        ConcurrentMap { inner: DashMap::new() }
    }

    /// Relies on dashmap: `DashMap::insert` maps the key to the value,
    /// replacing any previous entry for the same key.
    #[verifier::external_body]
    pub fn insert(&mut self, key: &str, data: Vec<u8>, stamp: u64)
        ensures
            map_entries(final(self)) == map_entries(old(self)).insert(key@, (data@, stamp)),
    {
        self.inner.insert(key.to_string(), (data, stamp));
    }

    /// Relies on dashmap: `DashMap::get` yields the entry stored for the
    /// key, or nothing when the key is absent.
    #[verifier::external_body]
    pub fn get(&self, key: &str) -> (r: Option<(Vec<u8>, u64)>)
        ensures
            match r {
                Some(e) => map_entries(self).contains_key(key@) && map_entries(self)[key@] == (
                    e.0@,
                    e.1,
                ),
                None => !map_entries(self).contains_key(key@),
            },
    {
        match self.inner.get(key) {
            Some(e) => Some((e.value().0.clone(), e.value().1)),
            None => None,
        }
    }

    /// Relies on dashmap: `DashMap::remove` takes the entry out and reports
    /// whether one was there.
    #[verifier::external_body]
    pub fn remove(&mut self, key: &str) -> (r: bool)
        ensures
            r == map_entries(old(self)).contains_key(key@),
            map_entries(final(self)) == map_entries(old(self)).remove(key@),
    {
        self.inner.remove(key).is_some()
    }

    /// Relies on dashmap: `DashMap::contains_key`.
    #[verifier::external_body]
    pub fn contains_key(&self, key: &str) -> (r: bool)
        ensures
            r == map_entries(self).contains_key(key@),
    {
        self.inner.contains_key(key)
    }

    /// Relies on dashmap: `DashMap::iter` visits every entry exactly once,
    /// in no promised order.
    #[verifier::external_body]
    pub fn keys(&self) -> (r: Vec<String>)
        ensures
            forall|i: int, j: int| 0 <= i < j < r@.len() ==> r@[i]@ != r@[j]@,
            forall|i: int| 0 <= i < r@.len() ==> map_entries(self).contains_key((#[trigger] r@[i])@),
            forall|k: Seq<char>|
                #[trigger] map_entries(self).contains_key(k) ==> exists|i: int|
                    0 <= i < r@.len() && (#[trigger] r@[i])@ == k,
    {
        self.inner.iter().map(|e| e.key().clone()).collect()
    }
}

/// In-memory backend: everything lives in a concurrent map, so last-access
/// stamps are tracked and expiry is supported. The map itself has no fault
/// source, so every operation also promises success.
pub struct MemoryStorage {
    memory: ConcurrentMap,
}

impl MemoryStorage {
    /// An empty in-memory backend.
    pub fn new() -> (r: MemoryStorage)
        ensures
            r.store() == empty_store(),
    {
        MemoryStorage { memory: ConcurrentMap::new() }
    }
}

impl StorageCapabilities for MemoryStorage {
    open spec fn spec_supports_expiry(&self) -> bool {
        true
    }

    fn supports_expiry(&self) -> (r: bool)
        ensures
            r == self.spec_supports_expiry(),
    {
        true
    }
}

impl StorageOperations for MemoryStorage {
    closed spec fn store(&self) -> Map<Seq<char>, (Seq<u8>, u64)> {
        map_entries(&self.memory)
    }

    fn read(&mut self, path: &str) -> (r: Result<Option<Vec<u8>>, StorageError>)
        ensures
            r is Ok,
    {
        match self.memory.get(path) {
            Some((data, _stamp)) => {
                let now = now_millis();
                let copy = clone_bytes(&data);
                self.memory.insert(path, data, now);
                proof {
                    assert(self.store() == old(self).store().insert(
                        path@,
                        (old(self).store()[path@].0, now),
                    ));
                }
                Ok(Some(copy))
            },
            None => Ok(None),
        }
    }

    fn write(&mut self, path: &str, data: &[u8]) -> (r: Result<(), StorageError>)
        ensures
            r is Ok,
    {
        let now = now_millis();
        let owned = vstd::slice::slice_to_vec(data);
        self.memory.insert(path, owned, now);
        proof {
            assert(self.store() == old(self).store().insert(path@, (data@, now)));
        }
        Ok(())
    }

    fn delete(&mut self, path: &str) -> (r: Result<bool, StorageError>)
        ensures
            r is Ok,
    {
        let removed = self.memory.remove(path);
        Ok(removed)
    }

    fn path_exists(&self, path: &str) -> (r: Result<bool, StorageError>)
        ensures
            r is Ok,
    {
        Ok(self.memory.contains_key(path))
    }

    fn list(&self, prefix: &str) -> (r: Result<Vec<String>, StorageError>)
        ensures
            r is Ok,
    {
        let keys = self.memory.keys();
        let (out, witness) = filter_by_prefix(&keys, prefix);
        proof {
            let src = witness@.0;
            let pos = witness@.1;
            assert(self.store() == map_entries(&self.memory));
            // soundness: each listed path is a stored key with the prefix
            assert forall|b: int| 0 <= b < out@.len() implies {
                &&& (#[trigger] out@[b])@.len() >= prefix@.len()
                &&& out@[b]@.take(prefix@.len() as int) == prefix@
                &&& self.store().contains_key(out@[b]@)
            } by {
                assert(out@[b]@ == keys@[src[b]]@);
                assert(map_entries(&self.memory).contains_key(keys@[src[b]]@));
            }
            // no duplicates: the witnesses increase strictly and keys are unique
            assert forall|a: int, b: int| 0 <= a < b < out@.len() implies out@[a]@ != out@[b]@ by {
                assert(0 <= src[a] < src[b] < keys@.len());
                assert(keys@[src[a]]@ != keys@[src[b]]@);
                assert(out@[a]@ == keys@[src[a]]@ && out@[b]@ == keys@[src[b]]@);
            }
            // completeness: every stored key with the prefix is listed
            assert forall|k: Seq<char>|
                #[trigger] self.store().contains_key(k) && k.len() >= prefix@.len() && k.take(
                    prefix@.len() as int,
                ) == prefix@ implies exists|b: int|
                0 <= b < out@.len() && (#[trigger] out@[b])@ == k by {
                assert(map_entries(&self.memory).contains_key(k));
                let a = choose|a: int| 0 <= a < keys@.len() && (#[trigger] keys@[a])@ == k;
                assert(0 <= pos[a] < out@.len() && out@[pos[a]]@ == keys@[a]@);
                assert(out@[pos[a]]@ == k);
            }
        }
        let r: Result<Vec<String>, StorageError> = Ok(out);
        proof {
            // tie the result's payload to `out`, so the facts above carry over
            assert(r->Ok_0 == out);
        }
        r
    }

    fn last_access(&self, path: &str) -> (r: Result<Option<u64>, StorageError>)
        ensures
            r is Ok,
    {
        match self.memory.get(path) {
            Some((_data, stamp)) => Ok(Some(stamp)),
            None => Ok(None),
        }
    }
}

/// The entries of `keys` that start with `prefix`, in order. Beside the
/// result stand its ghost witnesses: for each result index the key index it
/// came from (strictly increasing), and for each kept key index its result
/// index.
fn filter_by_prefix(keys: &Vec<String>, prefix: &str) -> (r: (Vec<String>, Ghost<
    (Seq<int>, Seq<int>),
>))
    ensures
        r.1@.0.len() == r.0@.len(),
        forall|b: int|
            0 <= b < r.0@.len() ==> 0 <= (#[trigger] r.1@.0[b]) < keys@.len() && r.0@[b]@
                == keys@[r.1@.0[b]]@,
        forall|a: int, b: int|
            #![trigger r.1@.0[a], r.1@.0[b]]
            0 <= a < b < r.0@.len() ==> r.1@.0[a] < r.1@.0[b],
        forall|b: int|
            0 <= b < r.0@.len() ==> (#[trigger] r.0@[b])@.len() >= prefix@.len() && r.0@[b]@.take(
                prefix@.len() as int,
            ) == prefix@,
        forall|a: int|
            0 <= a < keys@.len() && ((#[trigger] keys@[a])@.len() >= prefix@.len() && keys@[a]@.take(
                prefix@.len() as int,
            ) == prefix@) ==> 0 <= r.1@.1[a] < r.0@.len() && r.0@[r.1@.1[a]]@ == keys@[a]@,
{
    let mut out: Vec<String> = Vec::new();
    let mut i: usize = 0;
    let ghost mut src_idx: Seq<int> = Seq::empty();
    let ghost mut pos_idx: Seq<int> = Seq::empty();
    while i < keys.len()
        invariant
            i <= keys@.len(),
            src_idx.len() == out@.len(),
            pos_idx.len() == i,
            forall|b: int| 0 <= b < src_idx.len() ==> 0 <= #[trigger] src_idx[b] < i,
            forall|b: int|
                0 <= b < out@.len() ==> (#[trigger] out@[b])@ == keys@[src_idx[b]]@,
            forall|a: int, b: int|
                #![trigger src_idx[a], src_idx[b]]
                0 <= a < b < src_idx.len() ==> src_idx[a] < src_idx[b],
            forall|b: int|
                0 <= b < out@.len() ==> (#[trigger] out@[b])@.len() >= prefix@.len()
                    && out@[b]@.take(prefix@.len() as int) == prefix@,
            forall|a: int|
                0 <= a < i && ((#[trigger] keys@[a])@.len() >= prefix@.len() && keys@[a]@.take(
                    prefix@.len() as int,
                ) == prefix@) ==> 0 <= pos_idx[a] < out@.len() && out@[pos_idx[a]]@ == keys@[a]@,
        decreases keys@.len() - i,
    {
        let k = &keys[i];
        if str_starts_with(k.as_str(), prefix) {
            out.push(k.clone());
            proof {
                src_idx = src_idx.push(i as int);
                pos_idx = pos_idx.push(src_idx.len() - 1);
            }
        } else {
            proof {
                pos_idx = pos_idx.push(-1);
            }
        }
        i += 1;
    }
    (out, Ghost((src_idx, pos_idx)))
}

/// An owned copy of a byte vector.
fn clone_bytes(v: &Vec<u8>) -> (r: Vec<u8>)
    ensures
        r@ == v@,
{
    vstd::slice::slice_to_vec(v.as_slice())
}

} // verus!
