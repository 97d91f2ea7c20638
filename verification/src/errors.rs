//! Error taxonomy of the backend core.

use vstd::prelude::*;

verus! {

/// Errors surfaced by the directory-backed service flows.
///
/// `DatabaseError` stands for a failure inside the storage collaborator
/// (or an operation the store cannot complete); the remaining variants are
/// client-fault conditions.
#[derive(Clone, Copy, Debug, PartialEq, Eq, Structural)]
pub enum BackendError {
    DatabaseError,
    ResourceAlreadyInsertedError,
    ResourceNotFoundError,
    ResourceConflitUpdateError,
    InvalidCredentialsError,
    InvalidValuesError,
}

/// Errors surfaced by the authentication gate.
///
/// `Unauthenticated`: no bearer token was presented.
/// `InvalidToken`: the token failed the signature or expiry check.
/// `Forbidden`: the subject is real but its role tier is insufficient.
/// `DirectoryError`: the directory failed or holds inconsistent state
/// (for example, the token's subject no longer exists); an internal error,
/// never an implicit allow.
#[derive(Clone, Copy, Debug, PartialEq, Eq, Structural)]
pub enum AuthError {
    Unauthenticated,
    InvalidToken,
    Forbidden,
    DirectoryError,
}

/// Fatal startup-only configuration faults: the process must refuse to
/// start rather than run with an undefined hashing cost.
#[derive(Clone, Copy, Debug, PartialEq, Eq, Structural)]
pub enum ConfigError {
    CostNotNumericError,
    CostOutOfRangeError,
}

} // verus!
