//! Callback correlation primitives for actors that communicate only through
//! addressed messages and a private durable key-value store.
//!
//! The crate has two parts: an envelope codec ([`callback::CallbackMsg`],
//! [`callback::CallbackData`]) that carries pre-serialized payload and
//! correlation bytes across the actor boundary, and a callback guard
//! ([`callback::CbUtils`]) built on a persistent outstanding-callback counter
//! and a per-slot idempotency latch.

use vstd::prelude::*;

pub mod callback;
pub mod query;

verus! {

/// A funds transfer entry: an amount of one token denomination, as the
/// host's bank module counts it (an integer number of base units).
pub struct Coin {
    pub denom: String,
    pub amount: u128,
}

} // verus!
