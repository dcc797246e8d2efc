//! A typed, asynchronous client surface over a browser-style transactional
//! object-store database, modelled as verified state machines.
//!
//! The core is the completion bridge: the mechanism that converts the
//! engine's event-driven settlement notifications (success/error events on
//! requests, complete/abort/error events on transactions) into single-shot
//! resolutions, via a race between one-shot settlement channels.
//!
//! The host engine itself (persistence, isolation, durability) is not part
//! of this library; its observable behaviour at the interface — requests
//! that settle exactly once, transactions that reach exactly one terminal
//! state, stores that hold records under unique keys — is modelled with
//! plain values so that every decision the client surface makes is stated
//! and proved.

pub mod bridge;
pub mod channel;
pub mod error;
pub mod request;
pub mod store;
pub mod transaction;
pub mod value;
