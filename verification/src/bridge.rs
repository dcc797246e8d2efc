//! The completion bridge: one settlement notification, one resolution.
//!
//! Given the notification delivered for a request — or none, when the
//! handlers were dropped unfired — the bridge races an error path against a
//! success path over one-shot settlement channels and resolves with
//! whichever was fulfilled. Exactly one channel is ever fulfilled per wait.

use vstd::prelude::*;

use crate::channel::{race, SettlementChannel};
use crate::error::Error;
use crate::request::{
    error_callback, error_extraction, success_callback, success_extraction, EventKind, Outcome,
    SettlementEvent,
};
use crate::value::{kind_matches, NativeValue, ValueKind};

verus! {

/// The single resolution of a bridged wait on a request: the error path's
/// extraction when an error notification arrived, the success path's when a
/// success notification arrived, and a receive error when neither handler
/// ever fired.
pub open spec fn request_wait_outcome(event: Option<SettlementEvent>, expected: ValueKind) -> Result<
    NativeValue,
    Error,
> {
    match event {
        None => Err(Error::OneshotChannelReceiveError),
        Some(ev) => match ev.kind {
            EventKind::Error => error_extraction(ev),
            EventKind::Success => success_extraction(ev, expected),
        },
    }
}

/// Bridges one request settlement to a single typed resolution.
///
/// `event` is the one notification delivered for the awaited request
/// (`None` when no handler ever fired). The wait allocates one settlement
/// channel per path, forwards the matching handler's extraction into its
/// channel, and resolves the race between the two.
///
/// The wait resolves exactly once, with either a converted success value or
/// an error — never both, never neither: the result is `Ok` precisely when
/// a success notification arrived whose origin resolves to a request that
/// succeeded with a value of the expected shape.
pub fn wait_request(event: Option<SettlementEvent>, expected: ValueKind) -> (r: Result<
    NativeValue,
    Error,
>)
    ensures
        r == request_wait_outcome(event, expected),
        r is Ok <==> ({
            &&& event matches Some(ev)
            &&& ev.kind == EventKind::Success
            &&& ev.target matches Some(req)
            &&& req.outcome matches Outcome::Success(v)
            &&& kind_matches(expected, v)
        }),
{
    let mut error_channel: SettlementChannel<Result<NativeValue, Error>> =
        SettlementChannel::new();
    let mut success_channel: SettlementChannel<Result<NativeValue, Error>> =
        SettlementChannel::new();

    match event {
        None => {},
        Some(ev) => {
            let kind = ev.kind;
            match kind {
                EventKind::Error => error_channel.send(error_callback(ev)),
                EventKind::Success => success_channel.send(success_callback(ev, expected)),
            }
        },
    }

    race(error_channel, success_channel)
}

} // verus!
