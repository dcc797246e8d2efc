use idb::error::{DomErrorName, Error};
use idb::store::ObjectStore;
use idb::transaction::{
    wait_transaction, wait_transaction_abort, wait_transaction_commit, Transaction,
    TransactionEvent, TransactionEventKind, TransactionMode, TransactionState, TransactionTarget,
};
use idb::value::ScalarValue;

fn fresh(mode: TransactionMode) -> Transaction {
    Transaction::new(vec!["test".to_string()], mode)
}

#[test]
fn natural_completion_resolves_ok() {
    let mut tx = fresh(TransactionMode::ReadWrite);
    let ev = tx.fire_complete();
    assert_eq!(tx.current_state(), TransactionState::Committed);
    assert_eq!(wait_transaction(&tx, Some(ev)), Ok(()));
}

#[test]
fn error_notification_resolves_to_dom_exception() {
    let mut tx = fresh(TransactionMode::ReadWrite);
    let ev = tx.fire_error(DomErrorName::QuotaExceededError);
    assert_eq!(tx.current_state(), TransactionState::Erroring);
    assert_eq!(
        wait_transaction(&tx, Some(ev)),
        Err(Error::DomException(DomErrorName::QuotaExceededError))
    );
    // The engine then auto-aborts; the terminal abort keeps the reason.
    let abort_ev = tx.fire_abort();
    assert_eq!(tx.current_state(), TransactionState::Aborted);
    assert_eq!(tx.error(), Some(DomErrorName::QuotaExceededError));
    assert_eq!(abort_ev.kind, TransactionEventKind::Abort);
}

#[test]
fn every_waiter_observes_the_same_terminal_outcome() {
    let mut tx = fresh(TransactionMode::ReadWrite);
    let ev = tx.fire_complete();
    // Handler registration is additive: each waiter registers its own
    // handlers and each observes the same single terminal outcome.
    let first = wait_transaction(&tx, Some(ev));
    let second = wait_transaction(&tx, Some(ev));
    assert_eq!(first, Ok(()));
    assert_eq!(second, Ok(()));
}

#[test]
fn commit_wait_on_active_transaction_resolves_ok() {
    // Auto-commit path: no pending requests, the completion notification
    // arrives and the commit wait resolves promptly.
    let mut tx = fresh(TransactionMode::ReadWrite);
    let ev = TransactionEvent {
        kind: TransactionEventKind::Complete,
        target: Some(TransactionTarget { error: None }),
    };
    assert_eq!(wait_transaction_commit(&mut tx, Some(ev)), Ok(()));
    assert_eq!(tx.current_state(), TransactionState::Committing);
}

#[test]
fn commit_wait_on_committed_transaction_fails_fast() {
    let mut tx = fresh(TransactionMode::ReadWrite);
    let ev = tx.fire_complete();
    assert_eq!(tx.current_state(), TransactionState::Committed);
    // The engine rejects the directive synchronously; the rejection comes
    // back at once, no wait is registered and the transaction is untouched.
    let out = wait_transaction_commit(&mut tx, Some(ev));
    assert_eq!(out, Err(Error::TransactionCommitFailed(DomErrorName::InvalidStateError)));
    assert_eq!(tx.current_state(), TransactionState::Committed);
    assert_eq!(tx.error(), None);
}

#[test]
fn commit_directive_rejected_after_abort() {
    let mut tx = fresh(TransactionMode::ReadOnly);
    assert_eq!(tx.abort(), Ok(()));
    assert_eq!(
        tx.commit(),
        Err(Error::TransactionCommitFailed(DomErrorName::InvalidStateError))
    );
}

#[test]
fn abort_wait_resolves_on_confirmation() {
    let mut tx = fresh(TransactionMode::ReadWrite);
    let ev = TransactionEvent { kind: TransactionEventKind::Abort, target: None };
    assert_eq!(wait_transaction_abort(&mut tx, Some(ev)), Ok(()));
    assert_eq!(tx.current_state(), TransactionState::Aborting);
}

#[test]
fn abort_wait_ignores_error_notifications() {
    // The abort wait has a single channel wired to the abort confirmation
    // alone: an error notification fulfils nothing.
    let mut tx = fresh(TransactionMode::ReadWrite);
    let ev = TransactionEvent {
        kind: TransactionEventKind::Error,
        target: Some(TransactionTarget { error: Some(DomErrorName::UnknownError) }),
    };
    assert_eq!(
        wait_transaction_abort(&mut tx, Some(ev)),
        Err(Error::OneshotChannelReceiveError)
    );
}

#[test]
fn abort_wait_on_terminal_transaction_fails_fast() {
    let mut tx = fresh(TransactionMode::ReadWrite);
    let _ = tx.fire_complete();
    let out = wait_transaction_abort(&mut tx, None);
    assert_eq!(out, Err(Error::TransactionAbortFailed(DomErrorName::InvalidStateError)));
    assert_eq!(tx.current_state(), TransactionState::Committed);
}

#[test]
fn abort_wait_discards_pending_request() {
    // An active transaction with one pending `put`: the pending request's
    // outcome is discarded and the wait resolves only on the confirmation.
    let mut store = ObjectStore::new("test".to_string(), None, false);
    let mut tx = fresh(TransactionMode::ReadWrite);
    let pending = store.put(ScalarValue::Int(5), Some(1)).unwrap();
    let confirmation = TransactionEvent {
        kind: TransactionEventKind::Abort,
        target: Some(TransactionTarget { error: None }),
    };
    assert_eq!(wait_transaction_abort(&mut tx, Some(confirmation)), Ok(()));
    assert_eq!(tx.current_state(), TransactionState::Aborting);
    // The pending request is never settled; its outcome is simply dropped.
    drop(pending);
}

#[test]
fn completion_wait_with_unresolvable_origin() {
    let tx = fresh(TransactionMode::ReadOnly);
    let ev = TransactionEvent { kind: TransactionEventKind::Complete, target: None };
    assert_eq!(wait_transaction(&tx, Some(ev)), Err(Error::EventTargetNotFound));
}

#[test]
fn completion_wait_without_notification_is_receive_error() {
    let tx = fresh(TransactionMode::ReadOnly);
    assert_eq!(wait_transaction(&tx, None), Err(Error::OneshotChannelReceiveError));
}

#[test]
fn error_notification_without_reason() {
    let tx = fresh(TransactionMode::ReadWrite);
    let ev = TransactionEvent {
        kind: TransactionEventKind::Error,
        target: Some(TransactionTarget { error: None }),
    };
    assert_eq!(wait_transaction(&tx, Some(ev)), Err(Error::DomExceptionNotFound));
}

#[test]
fn scope_and_mode_are_kept() {
    let tx = Transaction::new(
        vec!["a".to_string(), "b".to_string()],
        TransactionMode::VersionChange,
    );
    assert_eq!(tx.current_state(), TransactionState::Active);
    assert_eq!(tx.error(), None);
}
