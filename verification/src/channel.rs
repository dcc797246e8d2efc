//! One-shot settlement channels and the race between them.
//!
//! A settlement channel is an ephemeral, single-use, single-consumer slot
//! carrying at most one value from notification-arrival context to the
//! awaiting caller. A bridged wait allocates one channel per possible
//! outcome path and resolves with the first fulfilled one.

use vstd::prelude::*;

use crate::error::Error;

verus! {

/// A single-use, single-consumer signalling slot.
pub struct SettlementChannel<T> {
    slot: Option<T>,
}

impl<T> SettlementChannel<T> {
    /// What the channel holds: nothing until fulfilled, then exactly one value.
    pub closed spec fn contents(&self) -> Option<T> {
        self.slot
    }

    /// Allocates an unfulfilled channel.
    pub fn new() -> (c: Self)
        ensures
            c.contents() is None,
    {
        SettlementChannel { slot: None }
    }

    /// Fulfils the channel. A channel is fulfilled at most once: the sending
    /// half is consumed by the single notification handler that owns it.
    pub fn send(&mut self, v: T)
        requires
            old(self).contents() is None,
        ensures
            final(self).contents() == Some(v),
    {
        self.slot = Some(v);
    }

    /// Consumes the receiving half: the fulfilled value, or a receive error
    /// when the channel was dropped without ever being fulfilled.
    pub fn receive(self) -> (r: Result<T, Error>)
        ensures
            self.contents() matches Some(v) ==> r == Ok::<T, Error>(v),
            self.contents() is None ==> r == Err::<T, Error>(Error::OneshotChannelReceiveError),
    {
        match self.slot {
            Some(v) => Ok(v),
            None => Err(Error::OneshotChannelReceiveError),
        }
    }
}

/// Race between the error path and the success path of one bridged wait:
/// resolves with the fulfilled channel. When neither path was ever
/// fulfilled, the wait reports the channels' closure as a receive error.
///
/// For a single settlement, the two paths are mutually exclusive, so at
/// most one channel is ever fulfilled and the selection order is moot.
pub fn race<T>(
    error_channel: SettlementChannel<Result<T, Error>>,
    success_channel: SettlementChannel<Result<T, Error>>,
) -> (r: Result<T, Error>)
    ensures
        error_channel.contents() matches Some(res) ==> r == res,
        error_channel.contents() is None ==> (success_channel.contents() matches Some(res) ==> r
            == res),
        error_channel.contents() is None && success_channel.contents() is None ==> r == Err::<
            T,
            Error,
        >(Error::OneshotChannelReceiveError),
{
    match error_channel.slot {
        Some(res) => res,
        None => match success_channel.slot {
            Some(res) => res,
            None => Err(Error::OneshotChannelReceiveError),
        },
    }
}

} // verus!
