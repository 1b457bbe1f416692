//! Errors of the storage layer.

use vstd::prelude::*;

verus! {

/// What a storage operation reports when it fails.
#[derive(Debug, Clone, Copy, PartialEq, Eq, Structural)]
pub enum StorageError {
    /// The connection pool could not be built.
    DBPoolError,
    /// No connection could be taken from the pool.
    PoolClientFailure,
    /// A query failed (or, for a merchant insert, sealing the key failed).
    FindError,
    /// A stored record could not be unsealed with the given key.
    DecryptionError,
    /// A new locker entry could not be sealed with the given key.
    EncryptionError,
}

/// How a database query failed, as far as the storage logic tells failures apart.
#[derive(Debug, Clone, Copy, PartialEq, Eq, Structural)]
pub enum QueryError {
    /// No row matched.
    NotFound,
    /// An insert collided with an existing row on a unique constraint.
    UniqueViolation,
    /// Any other failure.
    Other,
}

} // verus!
