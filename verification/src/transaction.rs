//! The transaction lifecycle and its three waitable operations.
//!
//! A transaction moves through
//! `active -> { committing -> committed | erroring -> aborted } | aborting -> aborted`,
//! and fires exactly one terminal notification (complete or abort), apart
//! from any per-request notifications during its lifetime. The adapter
//! exposes three waits built on the same channel race as the request
//! bridge: await natural completion, force-commit-then-await, and
//! force-abort-then-await-confirmation.

use vstd::prelude::*;

use crate::channel::{race, SettlementChannel};
use crate::error::{DomErrorName, Error};

verus! {

/// The durability/access mode a transaction was opened with.
#[derive(Clone, Copy, Debug, PartialEq, Eq, Structural)]
pub enum TransactionMode {
    ReadOnly,
    ReadWrite,
    VersionChange,
}

/// The lifecycle state of a transaction.
#[derive(Clone, Copy, Debug, PartialEq, Eq, Structural)]
pub enum TransactionState {
    Active,
    Committing,
    Committed,
    Erroring,
    Aborting,
    Aborted,
}

/// The two terminal states. Exactly one terminal notification is fired per
/// transaction, and a terminal state is never left.
pub open spec fn is_terminal(s: TransactionState) -> bool {
    s == TransactionState::Committed || s == TransactionState::Aborted
}

/// States in which the engine may fire the completion notification.
pub open spec fn can_fire_complete(s: TransactionState) -> bool {
    s == TransactionState::Active || s == TransactionState::Committing
}

/// States in which the engine may report an unrecoverable error.
pub open spec fn can_fire_error(s: TransactionState) -> bool {
    s == TransactionState::Active || s == TransactionState::Committing
}

/// States in which the engine may fire the abort confirmation.
pub open spec fn can_fire_abort(s: TransactionState) -> bool {
    s == TransactionState::Erroring || s == TransactionState::Aborting
}

/// Which notification a transaction-level event delivers.
#[derive(Clone, Copy, Debug, PartialEq, Eq, Structural)]
pub enum TransactionEventKind {
    Complete,
    Abort,
    Error,
}

/// The origin of a transaction-level event, carrying the failure reason
/// the transaction holds (if any) at the moment the event fires.
#[derive(Clone, Copy, Debug, PartialEq, Eq)]
pub struct TransactionTarget {
    pub error: Option<DomErrorName>,
}

/// A transaction-level notification. Its target is the originating
/// transaction, when the event's origin can be resolved.
#[derive(Clone, Copy, Debug, PartialEq, Eq)]
pub struct TransactionEvent {
    pub kind: TransactionEventKind,
    pub target: Option<TransactionTarget>,
}

/// A handle to a multi-operation unit of work scoped to a set of stores.
#[derive(Debug, PartialEq, Eq)]
pub struct Transaction {
    state: TransactionState,
    error: Option<DomErrorName>,
    mode: TransactionMode,
    store_names: Vec<String>,
}

impl Transaction {
    /// The lifecycle state.
    pub closed spec fn state(&self) -> TransactionState {
        self.state
    }

    /// The failure reason the engine attached, if it reported an error.
    pub closed spec fn error_of(&self) -> Option<DomErrorName> {
        self.error
    }

    /// The mode the transaction was opened with.
    pub closed spec fn mode_of(&self) -> TransactionMode {
        self.mode
    }

    /// The names of the stores in the transaction's scope.
    pub closed spec fn scope(&self) -> Seq<String> {
        self.store_names@
    }

    /// A failure reason is attached exactly from the moment the engine
    /// reports an error, and survives into the aborted state.
    pub open spec fn wf(&self) -> bool {
        self.error_of() is Some ==> (self.state() == TransactionState::Erroring || self.state()
            == TransactionState::Aborted)
    }

    /// Opens a transaction over the given stores: active, with no error.
    pub fn new(store_names: Vec<String>, mode: TransactionMode) -> (t: Self)
        ensures
            t.state() == TransactionState::Active,
            t.error_of() is None,
            t.mode_of() == mode,
            t.scope() == store_names@,
            t.wf(),
    {
        Transaction { state: TransactionState::Active, error: None, mode, store_names }
    }

    /// The lifecycle state, for callers.
    pub fn current_state(&self) -> (s: TransactionState)
        ensures
            s == self.state(),
    {
        self.state
    }

    /// The attached failure reason, for callers.
    pub fn error(&self) -> (e: Option<DomErrorName>)
        ensures
            e == self.error_of(),
    {
        self.error
    }

    /// The mode the transaction was opened with, for callers.
    pub fn mode(&self) -> (m: TransactionMode)
        ensures
            m == self.mode_of(),
    {
        self.mode
    }

    /// The names of the stores in the transaction's scope, for callers.
    pub fn store_names(&self) -> (names: &Vec<String>)
        ensures
            names@ == self.scope(),
    {
        &self.store_names
    }

    /// Issues the commit directive. The engine accepts it only on an active
    /// transaction and rejects it synchronously otherwise.
    pub fn commit(&mut self) -> (r: Result<(), Error>)
        ensures
            old(self).state() == TransactionState::Active ==> {
                &&& final(self).state() == TransactionState::Committing
                &&& r == Ok::<(), Error>(())
            },
            old(self).state() != TransactionState::Active ==> {
                &&& *final(self) == *old(self)
                &&& r == Err::<(), Error>(Error::TransactionCommitFailed(
                    DomErrorName::InvalidStateError,
                ))
            },
            final(self).error_of() == old(self).error_of(),
            final(self).mode_of() == old(self).mode_of(),
            final(self).scope() == old(self).scope(),
            old(self).wf() ==> final(self).wf(),
    {
        match self.state {
            TransactionState::Active => {
                self.state = TransactionState::Committing;
                Ok(())
            },
            _ => Err(Error::TransactionCommitFailed(DomErrorName::InvalidStateError)),
        }
    }

    /// Issues the abort directive. The engine accepts it only on an active
    /// transaction and rejects it synchronously otherwise.
    pub fn abort(&mut self) -> (r: Result<(), Error>)
        ensures
            old(self).state() == TransactionState::Active ==> {
                &&& final(self).state() == TransactionState::Aborting
                &&& r == Ok::<(), Error>(())
            },
            old(self).state() != TransactionState::Active ==> {
                &&& *final(self) == *old(self)
                &&& r == Err::<(), Error>(Error::TransactionAbortFailed(
                    DomErrorName::InvalidStateError,
                ))
            },
            final(self).error_of() == old(self).error_of(),
            final(self).mode_of() == old(self).mode_of(),
            final(self).scope() == old(self).scope(),
            old(self).wf() ==> final(self).wf(),
    {
        match self.state {
            TransactionState::Active => {
                self.state = TransactionState::Aborting;
                Ok(())
            },
            _ => Err(Error::TransactionAbortFailed(DomErrorName::InvalidStateError)),
        }
    }

    /// The engine fires the completion notification: all submitted requests
    /// finished and the transaction committed (auto-commit needs no
    /// explicit directive).
    pub fn fire_complete(&mut self) -> (ev: TransactionEvent)
        requires
            can_fire_complete(old(self).state()),
            old(self).wf(),
        ensures
            final(self).state() == TransactionState::Committed,
            final(self).error_of() == old(self).error_of(),
            final(self).mode_of() == old(self).mode_of(),
            final(self).scope() == old(self).scope(),
            final(self).wf(),
            ev == (TransactionEvent {
                kind: TransactionEventKind::Complete,
                target: Some(TransactionTarget { error: old(self).error_of() }),
            }),
    {
        self.state = TransactionState::Committed;
        TransactionEvent {
            kind: TransactionEventKind::Complete,
            target: Some(TransactionTarget { error: self.error }),
        }
    }

    /// The engine reports an unrecoverable request error: the transaction
    /// attaches the reason and will auto-abort.
    pub fn fire_error(&mut self, reason: DomErrorName) -> (ev: TransactionEvent)
        requires
            can_fire_error(old(self).state()),
            old(self).wf(),
        ensures
            final(self).state() == TransactionState::Erroring,
            final(self).error_of() == Some(reason),
            final(self).mode_of() == old(self).mode_of(),
            final(self).scope() == old(self).scope(),
            final(self).wf(),
            ev == (TransactionEvent {
                kind: TransactionEventKind::Error,
                target: Some(TransactionTarget { error: Some(reason) }),
            }),
    {
        self.state = TransactionState::Erroring;
        self.error = Some(reason);
        TransactionEvent {
            kind: TransactionEventKind::Error,
            target: Some(TransactionTarget { error: Some(reason) }),
        }
    }

    /// The engine fires the abort confirmation, ending the transaction.
    pub fn fire_abort(&mut self) -> (ev: TransactionEvent)
        requires
            can_fire_abort(old(self).state()),
            old(self).wf(),
        ensures
            final(self).state() == TransactionState::Aborted,
            final(self).error_of() == old(self).error_of(),
            final(self).mode_of() == old(self).mode_of(),
            final(self).scope() == old(self).scope(),
            final(self).wf(),
            ev == (TransactionEvent {
                kind: TransactionEventKind::Abort,
                target: Some(TransactionTarget { error: old(self).error_of() }),
            }),
    {
        self.state = TransactionState::Aborted;
        TransactionEvent {
            kind: TransactionEventKind::Abort,
            target: Some(TransactionTarget { error: self.error }),
        }
    }
}

/// A terminal state admits no further notification: once committed or
/// aborted, neither completion, nor error, nor abort can fire again, so
/// exactly one terminal notification is delivered per transaction.
pub proof fn lemma_terminal_is_final(s: TransactionState)
    ensures
        is_terminal(s) ==> !can_fire_complete(s) && !can_fire_error(s) && !can_fire_abort(s),
{
}

/// Whether an event can have originated from the given transaction: the
/// failure reason it carries is the one the transaction holds.
pub open spec fn from_transaction(ev: TransactionEvent, tx: Transaction) -> bool {
    ev.target matches Some(t) ==> t.error == tx.error_of()
}

/// What the completion path extracts: the origin must resolve, and the
/// wait resolves with plain success.
pub open spec fn completion_extraction(ev: TransactionEvent) -> Result<(), Error> {
    match ev.target {
        None => Err(Error::EventTargetNotFound),
        Some(_) => Ok(()),
    }
}

/// What the error path extracts: the origin must resolve, and its attached
/// failure reason is wrapped; an origin without one has no exception.
pub open spec fn transaction_error_extraction(ev: TransactionEvent) -> Result<(), Error> {
    match ev.target {
        None => Err(Error::EventTargetNotFound),
        Some(t) => match t.error {
            None => Err(Error::DomExceptionNotFound),
            Some(e) => Err(Error::DomException(e)),
        },
    }
}

/// The single resolution of a completion/commit wait. Such a wait registers
/// handlers for the completion and error notifications only: an abort
/// notification fulfils neither channel, so the wait reports the channels'
/// closure as a receive error.
pub open spec fn transaction_wait_outcome(event: Option<TransactionEvent>) -> Result<(), Error> {
    match event {
        None => Err(Error::OneshotChannelReceiveError),
        Some(ev) => match ev.kind {
            TransactionEventKind::Complete => completion_extraction(ev),
            TransactionEventKind::Error => transaction_error_extraction(ev),
            TransactionEventKind::Abort => Err(Error::OneshotChannelReceiveError),
        },
    }
}

/// The single resolution of an abort wait: only the abort confirmation
/// fulfils its one channel, whatever origin the event carries.
pub open spec fn abort_wait_outcome(event: Option<TransactionEvent>) -> Result<(), Error> {
    match event {
        None => Err(Error::OneshotChannelReceiveError),
        Some(ev) => if ev.kind == TransactionEventKind::Abort {
            Ok(())
        } else {
            Err(Error::OneshotChannelReceiveError)
        },
    }
}

/// The completion-notification handler.
fn completion_callback(event: TransactionEvent) -> (r: Result<(), Error>)
    ensures
        r == completion_extraction(event),
{
    match event.target {
        None => Err(Error::EventTargetNotFound),
        Some(_) => Ok(()),
    }
}

/// The error-notification handler, sourced from the transaction's error.
fn transaction_error_callback(event: TransactionEvent) -> (r: Result<(), Error>)
    ensures
        r == transaction_error_extraction(event),
{
    match event.target {
        None => Err(Error::EventTargetNotFound),
        Some(t) => match t.error {
            None => Err(Error::DomExceptionNotFound),
            Some(e) => Err(Error::DomException(e)),
        },
    }
}

/// Resolves a delivered transaction-level notification against freshly
/// registered completion and error handlers, racing their two channels.
fn resolve_transaction_wait(event: Option<TransactionEvent>) -> (r: Result<(), Error>)
    ensures
        r == transaction_wait_outcome(event),
{
    let mut error_channel: SettlementChannel<Result<(), Error>> = SettlementChannel::new();
    let mut success_channel: SettlementChannel<Result<(), Error>> = SettlementChannel::new();

    match event {
        None => {},
        Some(ev) => {
            let kind = ev.kind;
            match kind {
                TransactionEventKind::Complete => success_channel.send(completion_callback(ev)),
                TransactionEventKind::Error => error_channel.send(
                    transaction_error_callback(ev),
                ),
                TransactionEventKind::Abort => {},
            }
        },
    }

    race(error_channel, success_channel)
}

/// Awaits the transaction's natural completion: registers an error handler
/// and a completion handler and resolves with whichever notification
/// arrives, without issuing any directive (the engine auto-commits once
/// all submitted requests finish).
///
/// `event` is the one notification delivered to these handlers (`None`
/// when neither ever fired).
pub fn wait_transaction(transaction: &Transaction, event: Option<TransactionEvent>) -> (r: Result<
    (),
    Error,
>)
    requires
        event matches Some(ev) ==> from_transaction(ev, *transaction),
    ensures
        r == transaction_wait_outcome(event),
        r is Ok <==> ({
            &&& event matches Some(ev)
            &&& ev.kind == TransactionEventKind::Complete
            &&& ev.target is Some
        }),
        r matches Err(Error::DomException(e)) ==> transaction.error_of() == Some(e),
{
    resolve_transaction_wait(event)
}

/// Issues the commit directive, then awaits the terminal notification as
/// `wait_transaction` does. When the engine rejects the commit
/// synchronously (the transaction is no longer active), the rejection is
/// returned at once and no wait is registered: the transaction is left
/// exactly as it was.
pub fn wait_transaction_commit(transaction: &mut Transaction, event: Option<TransactionEvent>) -> (r:
    Result<(), Error>)
    requires
        event matches Some(ev) ==> from_transaction(ev, *old(transaction)),
    ensures
        old(transaction).state() != TransactionState::Active ==> {
            &&& r == Err::<(), Error>(Error::TransactionCommitFailed(
                DomErrorName::InvalidStateError,
            ))
            &&& *final(transaction) == *old(transaction)
        },
        old(transaction).state() == TransactionState::Active ==> {
            &&& final(transaction).state() == TransactionState::Committing
            &&& r == transaction_wait_outcome(event)
        },
        final(transaction).error_of() == old(transaction).error_of(),
        final(transaction).mode_of() == old(transaction).mode_of(),
        final(transaction).scope() == old(transaction).scope(),
        old(transaction).wf() ==> final(transaction).wf(),
{
    match transaction.commit() {
        Err(e) => Err(e),
        Ok(()) => resolve_transaction_wait(event),
    }
}

/// Issues the abort directive, then awaits the abort confirmation on a
/// single channel: abort has no independent failure notification, so there
/// is no race against an error path. When the engine rejects the abort
/// synchronously, the rejection is returned at once and no wait is
/// registered.
pub fn wait_transaction_abort(transaction: &mut Transaction, event: Option<TransactionEvent>) -> (r:
    Result<(), Error>)
    ensures
        old(transaction).state() != TransactionState::Active ==> {
            &&& r == Err::<(), Error>(Error::TransactionAbortFailed(
                DomErrorName::InvalidStateError,
            ))
            &&& *final(transaction) == *old(transaction)
        },
        old(transaction).state() == TransactionState::Active ==> {
            &&& final(transaction).state() == TransactionState::Aborting
            &&& r == abort_wait_outcome(event)
        },
        final(transaction).error_of() == old(transaction).error_of(),
        final(transaction).mode_of() == old(transaction).mode_of(),
        final(transaction).scope() == old(transaction).scope(),
        old(transaction).wf() ==> final(transaction).wf(),
{
    match transaction.abort() {
        Err(e) => Err(e),
        Ok(()) => {
            let mut confirmation: SettlementChannel<()> = SettlementChannel::new();
            match event {
                None => {},
                Some(ev) => {
                    let kind = ev.kind;
                    match kind {
                        TransactionEventKind::Abort => confirmation.send(()),
                        _ => {},
                    }
                },
            }
            confirmation.receive()
        },
    }
}

/// One terminal notification, one observation per waiter: for any single
/// delivered event, a completion/commit waiter and an abort waiter each
/// resolve to exactly one deterministic outcome, commit success and abort
/// success exclude each other, and every waiter that saw the same event
/// observes the same outcome.
pub proof fn lemma_one_terminal_observation(event: TransactionEvent)
    ensures
        (transaction_wait_outcome(Some(event)) is Ok) <==> (event.kind
            == TransactionEventKind::Complete && event.target is Some),
        (abort_wait_outcome(Some(event)) is Ok) <==> event.kind == TransactionEventKind::Abort,
        !((transaction_wait_outcome(Some(event)) is Ok) && (abort_wait_outcome(Some(event))
            is Ok)),
{
}

/// The abort wait resolves through the abort-confirmation path only: it
/// never races against an error, and an error notification leaves its one
/// channel unfulfilled.
pub proof fn lemma_abort_wait_confirmation_only(event: Option<TransactionEvent>)
    ensures
        (abort_wait_outcome(event) is Ok) <==> (event matches Some(ev) && ev.kind
            == TransactionEventKind::Abort),
        event matches Some(ev) && ev.kind == TransactionEventKind::Error ==> abort_wait_outcome(
            event,
        ) == Err::<(), Error>(Error::OneshotChannelReceiveError),
{
}

} // verus!
