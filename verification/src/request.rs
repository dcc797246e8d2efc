//! Requests, their settlement notifications, and outcome extraction.
//!
//! A request is a handle to one in-flight, single-shot operation. Its
//! settlement payload is decided by the engine when the operation is
//! submitted; consuming the handle delivers the one notification the
//! engine fires for it. Extraction turns a notification into the caller's
//! typed result or into a structured error.

use vstd::prelude::*;

use crate::error::{DomErrorName, Error};
use crate::value::{convert, kind_matches, NativeValue, ValueKind};

verus! {

/// The settlement payload of one request: a success value to be
/// type-converted, or a failure with the engine's attached error object
/// (which a misbehaving engine may omit).
#[derive(Debug, PartialEq, Eq)]
pub enum Outcome {
    Success(NativeValue),
    Failure(Option<DomErrorName>),
}

/// Which notification an event delivers.
#[derive(Clone, Copy, Debug, PartialEq, Eq, Structural)]
pub enum EventKind {
    Success,
    Error,
}

/// A handle to one in-flight operation. The handle is owned solely by the
/// code path that awaits it, and settles exactly once: consuming it yields
/// the single notification the engine fires.
#[derive(Debug, PartialEq, Eq)]
pub struct StoreRequest {
    /// The settlement payload the engine decided at submission.
    pub outcome: Outcome,
}

/// A settlement notification. Its target is the originating request, when
/// the event's origin can be resolved to one.
#[derive(Debug, PartialEq, Eq)]
pub struct SettlementEvent {
    pub kind: EventKind,
    pub target: Option<StoreRequest>,
}

impl StoreRequest {
    /// A request whose submission the engine has resolved to `outcome`.
    pub fn new(outcome: Outcome) -> (r: Self)
        ensures
            r == (StoreRequest { outcome }),
    {
        StoreRequest { outcome }
    }

    /// The engine fires the request's one settlement notification: a
    /// success event when the submission succeeded, an error event when it
    /// failed. Consuming the handle is what makes the settlement single:
    /// no second notification can be produced for the same request.
    pub fn settle(self) -> (ev: SettlementEvent)
        ensures
            ev.kind == (match self.outcome {
                Outcome::Success(_) => EventKind::Success,
                Outcome::Failure(_) => EventKind::Error,
            }),
            ev.target == Some(self),
    {
        let kind = match &self.outcome {
            Outcome::Success(_) => EventKind::Success,
            Outcome::Failure(_) => EventKind::Error,
        };
        SettlementEvent { kind, target: Some(self) }
    }
}

/// An engine-produced event: its kind agrees with its target's outcome.
/// Success and error notifications for one request are mutually exclusive.
pub open spec fn consistent(ev: SettlementEvent) -> bool {
    ev.target matches Some(req) ==> ((ev.kind == EventKind::Success) <==> req.outcome is Success)
}

/// What the success path extracts from a notification: resolve the origin
/// to a request, read its result value, and attempt the typed conversion.
/// Reading the result of a request that did not succeed is an
/// invalid-state read.
pub open spec fn success_extraction(ev: SettlementEvent, expected: ValueKind) -> Result<
    NativeValue,
    Error,
> {
    match ev.target {
        None => Err(Error::EventTargetNotFound),
        Some(req) => match req.outcome {
            Outcome::Success(v) => if kind_matches(expected, v) {
                Ok(v)
            } else {
                Err(Error::UnexpectedType { expected, value: v })
            },
            Outcome::Failure(_) => Err(Error::DomException(DomErrorName::InvalidStateError)),
        },
    }
}

/// What the error path extracts from a notification: resolve the origin to
/// a request and wrap its attached error object; a request without one
/// (including one that did not fail) has no exception to surface.
pub open spec fn error_extraction(ev: SettlementEvent) -> Result<NativeValue, Error> {
    match ev.target {
        None => Err(Error::EventTargetNotFound),
        Some(req) => match req.outcome {
            Outcome::Failure(Some(e)) => Err(Error::DomException(e)),
            _ => Err(Error::DomExceptionNotFound),
        },
    }
}

/// The success-notification handler: extracts the originating request's
/// result value and converts it to the caller's expected shape.
pub fn success_callback(event: SettlementEvent, expected: ValueKind) -> (r: Result<
    NativeValue,
    Error,
>)
    ensures
        r == success_extraction(event, expected),
{
    match event.target {
        None => Err(Error::EventTargetNotFound),
        Some(req) => match req.outcome {
            Outcome::Success(v) => convert(v, expected),
            Outcome::Failure(_) => Err(Error::DomException(DomErrorName::InvalidStateError)),
        },
    }
}

/// The error-notification handler: extracts and wraps the originating
/// request's attached error object. It never yields a success.
pub fn error_callback(event: SettlementEvent) -> (r: Result<NativeValue, Error>)
    ensures
        r == error_extraction(event),
        r is Err,
{
    match event.target {
        None => Err(Error::EventTargetNotFound),
        Some(req) => match req.outcome {
            Outcome::Failure(attached) => match attached {
                Some(e) => Err(Error::DomException(e)),
                None => Err(Error::DomExceptionNotFound),
            },
            Outcome::Success(_) => Err(Error::DomExceptionNotFound),
        },
    }
}

} // verus!
