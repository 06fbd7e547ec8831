//! Error taxonomy of the forum core.
//!
//! Validation and authentication failures are typed outcomes returned to the
//! caller; they are distinguishable from store-level integrity violations and
//! from infrastructure faults so that a presentation layer can render an
//! appropriate message for each.

use vstd::prelude::*;

verus! {

/// Failure of the credential collaborator that hashes and verifies
/// passwords: the secret key, password or stored hash is malformed, or the
/// hash computation itself failed. The service surfaces it as
/// `ForumError::InfrastructureError`; a genuine mismatch is not an error but
/// `InvalidCredential`.
#[derive(Debug, Clone, Copy, PartialEq, Eq, Structural)]
pub enum CredentialError {
    /// The secret key, password or stored hash could not be processed.
    MalformedInput,
    /// The hash computation itself failed.
    HashFailed,
}

/// Typed failure of a data-store operation.
#[derive(Debug, Clone, Copy, PartialEq, Eq, Structural)]
pub enum StoreError {
    /// An insert would duplicate a username that is already registered.
    DuplicateUsername,
    /// The requested row does not exist.
    NotFound,
    /// A foreign key (author or thread reference) points to no existing row.
    ForeignKeyViolation,
    /// A parent-comment reference is absent or belongs to another thread.
    InvalidParent,
    /// A store-level integrity violation not otherwise classified: an empty
    /// required column, or id space exhausted.
    ConstraintError,
}

/// Outcome of a forum-service operation, as seen by the caller.
#[derive(Debug, Clone, Copy, PartialEq, Eq, Structural)]
pub enum ForumError {
    /// Bad input, user-correctable (an empty required field).
    ValidationError,
    /// No session token was presented, or it did not resolve.
    Unauthenticated,
    /// A referenced entity is absent.
    NotFound,
    /// The username is already registered.
    DuplicateUsername,
    /// The password did not match the stored credential.
    InvalidCredential,
    /// A session resolved to a username with no user row behind it.
    UserNotFound,
    /// The referenced thread does not exist.
    ThreadNotFound,
    /// A parent-comment reference is absent or belongs to another thread.
    InvalidParent,
    /// A store-level integrity violation not otherwise classified.
    ConstraintError,
    /// A fault of a collaborator (credential backend); never caused by user
    /// input alone.
    InfrastructureError,
}

} // verus!
