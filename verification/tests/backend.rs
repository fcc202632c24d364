use dollhouse::error::StorageError;
use dollhouse::filesystem::FilesystemStorage;
use dollhouse::memory::MemoryStorage;
use dollhouse::s3::S3Storage;
use dollhouse::storage::{StorageCapabilities, StorageOperations, StorageProvider};

#[test]
fn memory_write_then_read() {
    let mut m = MemoryStorage::new();
    m.write("uploads/a", b"payload").unwrap();
    assert_eq!(m.read("uploads/a").unwrap().unwrap(), b"payload");
}

#[test]
fn memory_overwrite_replaces() {
    let mut m = MemoryStorage::new();
    m.write("p", b"one").unwrap();
    m.write("p", b"two").unwrap();
    assert_eq!(m.read("p").unwrap().unwrap(), b"two");
}

#[test]
fn memory_read_absent_is_none() {
    let mut m = MemoryStorage::new();
    assert!(m.read("nothing").unwrap().is_none());
}

#[test]
fn memory_delete_then_exists() {
    let mut m = MemoryStorage::new();
    m.write("p", b"bytes").unwrap();
    assert!(m.delete("p").unwrap());
    assert!(!m.path_exists("p").unwrap());
}

#[test]
fn memory_delete_absent_reports_nothing_removed() {
    let mut m = MemoryStorage::new();
    assert!(!m.delete("never-there").unwrap());
}

#[test]
fn memory_list_filters_by_prefix() {
    let mut m = MemoryStorage::new();
    m.write("uploads/a", b"1").unwrap();
    m.write("uploads/b", b"2").unwrap();
    m.write("other/c", b"3").unwrap();
    let mut listed = m.list("uploads/").unwrap();
    listed.sort();
    assert_eq!(listed, vec!["uploads/a".to_string(), "uploads/b".to_string()]);
}

#[test]
fn memory_last_access_present_and_absent() {
    let mut m = MemoryStorage::new();
    m.write("p", b"bytes").unwrap();
    assert!(m.last_access("p").unwrap().is_some());
    assert!(m.last_access("missing").unwrap().is_none());
}

#[test]
fn memory_supports_expiry() {
    assert!(MemoryStorage::new().supports_expiry());
}

#[test]
fn capability_flags_per_variant() {
    assert!(FilesystemStorage::new("/tmp/base".to_string()).supports_expiry());
    assert!(!S3Storage::new("bucket".to_string()).supports_expiry());
}

#[test]
fn join_to_base_joins_safe_paths() {
    let fs = FilesystemStorage::new("/data".to_string());
    assert_eq!(fs.join_to_base("a/b.png").unwrap(), "/data/a/b.png");
    assert_eq!(fs.join_to_base("a..b").unwrap(), "/data/a..b");
}

#[test]
fn join_to_base_rejects_escapes() {
    let fs = FilesystemStorage::new("/data".to_string());
    for path in ["/etc/passwd", "..", "../x", "a/../b", "a/..", "x/y/../z", "..\\x", "\\root"] {
        assert_eq!(
            fs.join_to_base(path).unwrap_err(),
            StorageError::PermissionDenied
        );
    }
}

#[test]
fn parse_memory_source() {
    match StorageProvider::parse("memory://").unwrap() {
        StorageProvider::Memory(_) => {}
        _ => panic!("expected the memory backend"),
    }
}

#[test]
fn parse_filesystem_source_trims_path() {
    match StorageProvider::parse("fs://  /var/data  ").unwrap() {
        StorageProvider::Filesystem(f) => assert_eq!(f.base_path(), "/var/data"),
        _ => panic!("expected the filesystem backend"),
    }
}

#[test]
fn parse_s3_source_takes_bucket() {
    match StorageProvider::parse("s3://my-bucket/ignored/rest").unwrap() {
        StorageProvider::S3(s) => assert_eq!(s.bucket(), "my-bucket"),
        _ => panic!("expected the object-store backend"),
    }
}

#[test]
fn parse_rejects_bad_sources() {
    assert!(StorageProvider::parse("s3://").is_err());
    assert!(StorageProvider::parse("s3:///no-bucket").is_err());
    assert!(StorageProvider::parse("memory:/").is_err());
    assert!(StorageProvider::parse("ftp://x").is_err());
    let msg = match StorageProvider::parse("junk") {
        Err(m) => m,
        Ok(_) => panic!("junk must be refused"),
    };
    assert!(msg.contains("Valid sources"));
}

#[test]
fn provider_capability_follows_variant() {
    assert!(StorageProvider::parse("memory://").unwrap().supports_expiry());
    assert!(StorageProvider::parse("fs://x").unwrap().supports_expiry());
    assert!(!StorageProvider::parse("s3://b").unwrap().supports_expiry());
}
