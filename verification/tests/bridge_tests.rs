use idb::bridge::wait_request;
use idb::error::{DomErrorName, Error};
use idb::request::{error_callback, success_callback, EventKind, Outcome, SettlementEvent, StoreRequest};
use idb::value::{array_to_vec, convert, NativeValue, ScalarValue, ValueKind};

#[test]
fn wait_request_success_converts_value() {
    let req = StoreRequest::new(Outcome::Success(NativeValue::Scalar(ScalarValue::Int(42))));
    let ev = req.settle();
    assert_eq!(ev.kind, EventKind::Success);
    let out = wait_request(Some(ev), ValueKind::Int);
    assert_eq!(out, Ok(NativeValue::Scalar(ScalarValue::Int(42))));
}

#[test]
fn wait_request_success_any_kind_accepts_everything() {
    let req = StoreRequest::new(Outcome::Success(NativeValue::Scalar(ScalarValue::Text(
        "hello".to_string(),
    ))));
    let out = wait_request(Some(req.settle()), ValueKind::Any);
    assert_eq!(out, Ok(NativeValue::Scalar(ScalarValue::Text("hello".to_string()))));
}

#[test]
fn wait_request_success_wrong_shape_is_unexpected_type() {
    let req = StoreRequest::new(Outcome::Success(NativeValue::Scalar(ScalarValue::Bool(true))));
    let out = wait_request(Some(req.settle()), ValueKind::Text);
    assert_eq!(
        out,
        Err(Error::UnexpectedType {
            expected: ValueKind::Text,
            value: NativeValue::Scalar(ScalarValue::Bool(true)),
        })
    );
}

#[test]
fn wait_request_error_surfaces_dom_exception() {
    let req = StoreRequest::new(Outcome::Failure(Some(DomErrorName::QuotaExceededError)));
    let ev = req.settle();
    assert_eq!(ev.kind, EventKind::Error);
    let out = wait_request(Some(ev), ValueKind::Any);
    assert_eq!(out, Err(Error::DomException(DomErrorName::QuotaExceededError)));
}

#[test]
fn wait_request_error_without_exception_object() {
    let req = StoreRequest::new(Outcome::Failure(None));
    let out = wait_request(Some(req.settle()), ValueKind::Any);
    assert_eq!(out, Err(Error::DomExceptionNotFound));
}

#[test]
fn wait_request_unresolvable_target() {
    let ev = SettlementEvent { kind: EventKind::Success, target: None };
    assert_eq!(wait_request(Some(ev), ValueKind::Any), Err(Error::EventTargetNotFound));
    let ev = SettlementEvent { kind: EventKind::Error, target: None };
    assert_eq!(wait_request(Some(ev), ValueKind::Any), Err(Error::EventTargetNotFound));
}

#[test]
fn wait_request_without_notification_is_receive_error() {
    assert_eq!(wait_request(None, ValueKind::Any), Err(Error::OneshotChannelReceiveError));
}

#[test]
fn success_callback_on_unsettled_result_is_invalid_state() {
    // A success notification whose origin did not succeed: reading its
    // result is an invalid-state read.
    let ev = SettlementEvent {
        kind: EventKind::Success,
        target: Some(StoreRequest::new(Outcome::Failure(Some(DomErrorName::DataError)))),
    };
    assert_eq!(
        success_callback(ev, ValueKind::Any),
        Err(Error::DomException(DomErrorName::InvalidStateError))
    );
}

#[test]
fn error_callback_never_succeeds() {
    let ev = SettlementEvent {
        kind: EventKind::Error,
        target: Some(StoreRequest::new(Outcome::Success(NativeValue::Scalar(
            ScalarValue::Null,
        )))),
    };
    // An error notification whose origin holds no error object.
    assert_eq!(error_callback(ev), Err(Error::DomExceptionNotFound));
}

#[test]
fn convert_keeps_matching_value() {
    let v = NativeValue::Scalar(ScalarValue::Record { id: 3 });
    assert_eq!(convert(v, ValueKind::Record), Ok(NativeValue::Scalar(ScalarValue::Record { id: 3 })));
}

#[test]
fn convert_rejects_mismatch_with_offending_value() {
    let v = NativeValue::Array(vec![ScalarValue::Int(1)]);
    assert_eq!(
        convert(v, ValueKind::Int),
        Err(Error::UnexpectedType {
            expected: ValueKind::Int,
            value: NativeValue::Array(vec![ScalarValue::Int(1)]),
        })
    );
}

#[test]
fn array_to_vec_unpacks_arrays_only() {
    let arr = NativeValue::Array(vec![ScalarValue::Int(1), ScalarValue::Int(2)]);
    assert_eq!(array_to_vec(arr), Ok(vec![ScalarValue::Int(1), ScalarValue::Int(2)]));
    let not_arr = NativeValue::Scalar(ScalarValue::Null);
    assert_eq!(
        array_to_vec(not_arr),
        Err(Error::UnexpectedType {
            expected: ValueKind::Array,
            value: NativeValue::Scalar(ScalarValue::Null),
        })
    );
}
