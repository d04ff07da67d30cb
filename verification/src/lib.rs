//! A sequential-reveal lottery with an embedded ticket marketplace.
//!
//! The crate is a deterministic state machine over a single [`round::Lottery`]
//! record: participants mint numbered tickets, the authority reveals winning
//! numbers one by one, holders of fully matching tickets claim the accumulated
//! prize, and tickets can be listed, delisted and bought on a marketplace with
//! basis-point fee splitting.
//!
//! Caller authentication, value transfer and entropy are capabilities of the
//! surrounding runtime: every operation takes the already-authenticated caller
//! identity, the current time and (for reveals) an externally supplied entropy
//! word as plain arguments, and reports the amounts to transfer in its result.

pub mod errors;
pub mod events;
pub mod fees;
pub mod laws;
pub mod market;
pub mod prize;
pub mod records;
pub mod round;
