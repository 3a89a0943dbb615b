//! Error taxonomy of the gateway core.

use vstd::prelude::*;

verus! {

/// Everything that can go wrong inside the core.
///
/// `DuplicateTweak` is recoverable: the issuer retries with the next
/// candidate tweak. `BackendUnavailable` surfaces to the caller of an
/// issuance or subscription attempt and is not retried here.
/// `MalformedOperationId` is fatal only to the one recovery entry it
/// occurs on.
#[derive(Clone, Copy, Debug, PartialEq, Eq, Structural)]
pub enum CoreError {
    /// The user's primary federation id does not parse or is not
    /// registered in the directory.
    UnknownFederation,
    /// No user with the given id or name exists.
    UnknownUser,
    /// The backend reports the tweaked key as already in use.
    DuplicateTweak,
    /// The backend could not be reached or failed an invoice call.
    BackendUnavailable,
    /// A store write or read failed.
    PersistenceFailure,
    /// An invoice's operation id is not in the backend's format.
    MalformedOperationId,
    /// No further tweak index can be allocated for the user.
    TweakExhausted,
    /// The requested amount is below the minimum this gateway accepts
    /// or above what the store can record.
    InvalidAmount,
    /// An invoice with the same operation id is already stored.
    DuplicateOperationId,
    /// No invoice with the given id is stored.
    InvoiceNotFound,
    /// A user with the same name is already stored.
    DuplicateUserName,
    /// The assembled verification URL does not parse as an absolute
    /// URL.
    InvalidUrl,
    /// The requested state change is not a legal lifecycle transition.
    IllegalTransition,
}

impl CoreError {
    /// A short description, for logs and HTTP error bodies.
    pub fn message(&self) -> &'static str {
        match self {
            CoreError::UnknownFederation => "federation id is invalid or not registered",
            CoreError::UnknownUser => "user not found",
            CoreError::DuplicateTweak => "tweaked key already in use",
            CoreError::BackendUnavailable => "payment backend unavailable",
            CoreError::PersistenceFailure => "store operation failed",
            CoreError::MalformedOperationId => "operation id is malformed",
            CoreError::TweakExhausted => "no further tweak can be allocated",
            CoreError::InvalidAmount => "amount outside the accepted range",
            CoreError::DuplicateOperationId => "operation id already stored",
            CoreError::InvoiceNotFound => "invoice not found",
            CoreError::DuplicateUserName => "user name already taken",
            CoreError::InvalidUrl => "verification url does not parse",
            CoreError::IllegalTransition => "illegal lifecycle transition",
        }
    }
}

} // verus!
