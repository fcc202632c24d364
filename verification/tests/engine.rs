use dollhouse::app_storage::AppStorage;
use dollhouse::error::StorageError;
use dollhouse::memory::MemoryStorage;
use dollhouse::storage::{StorageCapabilities, StorageOperations};
use std::collections::HashMap;

fn engine() -> AppStorage<MemoryStorage> {
    AppStorage::new(MemoryStorage::new())
}

#[test]
fn scenario_save_then_get() {
    let mut storage = engine();
    let bytes = b"picture contents";
    let key = storage.save_upload("abc123.png", bytes).unwrap();
    let back = storage.get_upload("abc123.png", &key).unwrap();
    assert_eq!(back, bytes);

    let wrong = storage.get_upload("abc123.png", "wrong-key").unwrap_err();
    let missing = storage.get_upload("does-not-exist.png", &key).unwrap_err();
    // A wrong key and a missing object are indistinguishable from outside.
    assert_eq!(wrong, missing);
    assert_eq!(wrong, StorageError::Unavailable);
}

#[test]
fn scenario_overwrite_is_full_replace() {
    let mut storage = engine();
    let key1 = storage.save_upload("a", b"first version").unwrap();
    let key2 = storage.save_upload("a", b"second version").unwrap();
    assert_eq!(storage.get_upload("a", &key2).unwrap(), b"second version");
    // The first ciphertext is gone, so its key no longer opens anything.
    assert_eq!(
        storage.get_upload("a", &key1).unwrap_err(),
        StorageError::Unavailable
    );
}

#[test]
fn scenario_immediate_expiry() {
    let mut storage = engine();
    storage.save_upload("a", b"bytes").unwrap();
    storage.remove_all_expired_uploads(0).unwrap();
    assert!(!storage.upload_exists("a").unwrap());
}

#[test]
fn sweep_keeps_fresh_uploads() {
    let mut storage = engine();
    storage.save_upload("fresh", b"bytes").unwrap();
    // A year-long window: nothing saved just now can be expired.
    storage.remove_all_expired_uploads(365 * 24 * 3600 * 1000).unwrap();
    assert!(storage.upload_exists("fresh").unwrap());
}

#[test]
fn delete_is_idempotent() {
    let mut storage = engine();
    storage.save_upload("gone", b"bytes").unwrap();
    storage.delete_upload("gone").unwrap();
    assert!(!storage.upload_exists("gone").unwrap());
    storage.delete_upload("gone").unwrap();
}

#[test]
fn upload_exists_reports_presence() {
    let mut storage = engine();
    assert!(!storage.upload_exists("x.png").unwrap());
    storage.save_upload("x.png", b"b").unwrap();
    assert!(storage.upload_exists("x.png").unwrap());
}

#[test]
fn path_escapes_fail_closed() {
    let mut storage = engine();
    for id in ["../secret", "/etc/passwd", "a/../b", "..", "..\\secret", "a\\..\\b", "\\abs"] {
        assert_eq!(
            storage.save_upload(id, b"b").unwrap_err(),
            StorageError::PermissionDenied
        );
        assert_eq!(
            storage.get_upload(id, "k").unwrap_err(),
            StorageError::PermissionDenied
        );
        assert_eq!(
            storage.upload_exists(id).unwrap_err(),
            StorageError::PermissionDenied
        );
        assert_eq!(
            storage.delete_upload(id).unwrap_err(),
            StorageError::PermissionDenied
        );
    }
    // Dots that do not form a parent segment are fine.
    storage.save_upload("a..b", b"b").unwrap();
    storage.save_upload("...", b"b").unwrap();
}

/// A stand-in for a backend that cannot track access times, as the remote
/// object store cannot.
struct NoExpiryBackend {
    objects: HashMap<String, Vec<u8>>,
}

impl StorageCapabilities for NoExpiryBackend {
    fn supports_expiry(&self) -> bool {
        false
    }
}

impl StorageOperations for NoExpiryBackend {
    fn read(&mut self, path: &str) -> Result<Option<Vec<u8>>, StorageError> {
        Ok(self.objects.get(path).cloned())
    }

    fn write(&mut self, path: &str, data: &[u8]) -> Result<(), StorageError> {
        self.objects.insert(path.to_string(), data.to_vec());
        Ok(())
    }

    fn delete(&mut self, path: &str) -> Result<bool, StorageError> {
        Ok(self.objects.remove(path).is_some())
    }

    fn path_exists(&self, path: &str) -> Result<bool, StorageError> {
        Ok(self.objects.contains_key(path))
    }

    fn list(&self, prefix: &str) -> Result<Vec<String>, StorageError> {
        Ok(self
            .objects
            .keys()
            .filter(|k| k.starts_with(prefix))
            .cloned()
            .collect())
    }

    fn last_access(&self, _path: &str) -> Result<Option<u64>, StorageError> {
        Err(StorageError::Backend("unsupported operation".to_string()))
    }
}

#[test]
fn scenario_sweep_noop_without_expiry_support() {
    let mut storage = AppStorage::new(NoExpiryBackend {
        objects: HashMap::new(),
    });
    let key = storage.save_upload("old.png", b"ancient bytes").unwrap();
    // Whatever the object's age, the sweep must not touch this backend —
    // it must not even ask it for access times.
    storage.remove_all_expired_uploads(0).unwrap();
    assert!(storage.upload_exists("old.png").unwrap());
    assert_eq!(storage.get_upload("old.png", &key).unwrap(), b"ancient bytes");
}
