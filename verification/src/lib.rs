//! Accounting core of a token presale escrow.
//!
//! A sale owner offers a fixed token supply for a designated currency over a
//! bounded time window, with a soft cap (minimum raise for success) and a hard
//! cap (maximum raise).  Buyers contribute currency and receive a proportional
//! token allocation; settlement releases funds exactly once per actor, as
//! claims when the soft cap was met and as refunds when it was not.
//!
//! This crate holds the verified decision logic: the status resolver, the
//! participation engine and the settlement engine.  Each operation reads the
//! persisted state it is given, validates the call, and returns the updated
//! state together with the transfer instructions the surrounding dispatch
//! layer must execute.  Storage, message plumbing and token instantiation
//! live outside the crate.

pub mod error;
pub mod handler;
pub mod querier;
pub mod state;
mod math;
