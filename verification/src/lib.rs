//! Resources that stay synchronized with a storage medium.
//!
//! The library keeps a resource in memory and tells its driver what to do with
//! the storage medium (probe it, prepare it, write the resource or its default,
//! read the resource back, copy the default through the storage format). The
//! driver performs that work and hands the outcome back; the library decides
//! what follows. Every decision is verified against the contracts stated here.

pub mod builder;
pub mod error;
pub mod format;
pub mod medium;
pub mod persistent;
pub mod storage;

pub use crate::builder::PersistentBuilder;
pub use crate::error::PersistenceError;
pub use crate::format::{Serialized, StorageFormat};
pub use crate::persistent::Persistent;
pub use crate::storage::Storage;
