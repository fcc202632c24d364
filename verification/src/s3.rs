use vstd::prelude::*;
use vstd::string::*;
use crate::storage::StorageCapabilities;

verus! {

/// Remote object-store backend configuration: one remote object per path in
/// a pre-provisioned bucket. The client and its network calls live at the
/// edge; this type carries the bucket and the capability contract. The
/// provider cannot report last-access times, so `supports_expiry` is false
/// and the expiry sweep leaves this backend alone.
pub struct S3Storage {
    bucket: String,
}

impl S3Storage {
    /// The configured bucket name.
    pub closed spec fn spec_bucket(&self) -> Seq<char> {
        self.bucket@
    }

    /// An object-store backend bound to `bucket`. Creating the client and
    /// the bucket, when absent, is network I/O and stays at the edge.
    pub fn new(bucket: String) -> (r: Self)
        ensures
            r.spec_bucket() == bucket@,
    {
        S3Storage { bucket }
    }

    /// The bucket name, for the I/O layer.
    pub fn bucket(&self) -> (r: &String)
        ensures
            r@ == self.spec_bucket(),
    {
        &self.bucket
    }
}

impl StorageCapabilities for S3Storage {
    open spec fn spec_supports_expiry(&self) -> bool {
        false
    }

    fn supports_expiry(&self) -> (r: bool) {
        false
    }
}

} // verus!
