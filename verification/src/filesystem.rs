use vstd::prelude::*;
use vstd::string::*;
use crate::error::StorageError;
use crate::paths::{check_path_is_safe, is_safe_path};
use crate::storage::StorageCapabilities;

verus! {

/// Filesystem backend configuration: one file per object under a base
/// directory. The I/O itself happens at the edge; this type carries the root
/// and decides, before any filesystem call, which object paths may reach it.
pub struct FilesystemStorage {
    base_path: String,
}

impl FilesystemStorage {
    /// The configured base directory.
    pub closed spec fn spec_base_path(&self) -> Seq<char> {
        self.base_path@
    }

    /// A filesystem backend rooted at `base_path`. Creating and
    /// canonicalising the directory is I/O and stays at the edge.
    pub fn new(base_path: String) -> (r: Self)
        ensures
            r.spec_base_path() == base_path@,
    {
        FilesystemStorage { base_path }
    }

    /// The base directory, for the I/O layer.
    pub fn base_path(&self) -> (r: &String)
        ensures
            r@ == self.spec_base_path(),
    {
        &self.base_path
    }

    /// Join `path` to the base directory. An absolute path or one that
    /// references a parent directory fails closed with `PermissionDenied`
    /// before it can reach any filesystem call.
    pub fn join_to_base(&self, path: &str) -> (r: Result<String, StorageError>)
        ensures
            r is Ok <==> is_safe_path(path@),
            r matches Ok(p) ==> p@ == self.spec_base_path() + "/"@ + path@,
            r matches Err(e) ==> e == StorageError::PermissionDenied,
    {
        if !check_path_is_safe(path) {
            return Err(StorageError::PermissionDenied);
        }
        let mut p = self.base_path.clone();
        p.append("/");
        p.append(path);
        Ok(p)
    }
}

impl StorageCapabilities for FilesystemStorage {
    open spec fn spec_supports_expiry(&self) -> bool {
        true
    }

    fn supports_expiry(&self) -> (r: bool) {
        true
    }
}

} // verus!
