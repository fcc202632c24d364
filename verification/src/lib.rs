//! Ephemeral object storage: encrypted at rest, named by salted content hash,
//! retrievable only with a per-object key that is never persisted.

pub mod app_storage;
pub mod authentication;
pub mod clock;
pub mod cryptography;
pub mod elapsed;
pub mod error;
pub mod filesystem;
pub mod memory;
pub mod mime;
pub mod paths;
pub mod s3;
pub mod salt;
pub mod stats;
pub mod storage;
pub mod text;
