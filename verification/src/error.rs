//! The error taxonomy of the client surface.
//!
//! Every failure is returned to the immediate caller as a typed value;
//! nothing is retried and nothing is thrown.

use vstd::prelude::*;

use crate::value::{NativeValue, ValueKind};

verus! {

/// The name of a structured engine failure, the model of a DOM exception.
#[derive(Clone, Copy, Debug, PartialEq, Eq, Structural)]
pub enum DomErrorName {
    AbortError,
    ConstraintError,
    DataError,
    InvalidStateError,
    NotFoundError,
    QuotaExceededError,
    UnknownError,
}

/// A failure surfaced by the client surface.
#[derive(Debug, PartialEq, Eq)]
pub enum Error {
    /// A notification fired but its origin could not be resolved to the
    /// expected handle.
    EventTargetNotFound,
    /// An error notification fired with no attached error object.
    DomExceptionNotFound,
    /// The engine's structured failure reason, surfaced verbatim.
    DomException(DomErrorName),
    /// A success payload did not match the caller's expected shape.
    UnexpectedType { expected: ValueKind, value: NativeValue },
    /// A settlement channel was dropped without ever being fulfilled.
    OneshotChannelReceiveError,
    /// The engine rejected an `add` submission synchronously.
    AddFailed(DomErrorName),
    /// The engine rejected a `put` submission synchronously.
    UpdateFailed(DomErrorName),
    /// No index of the requested name exists on the store.
    IndexNotFound,
    /// The engine rejected the creation of an index.
    IndexCreateFailed(DomErrorName),
    /// The engine rejected the deletion of an index.
    IndexDeleteFailed(DomErrorName),
    /// The engine rejected a commit directive synchronously.
    TransactionCommitFailed(DomErrorName),
    /// The engine rejected an abort directive synchronously.
    TransactionAbortFailed(DomErrorName),
}

} // verus!
