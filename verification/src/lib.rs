//! Deterministic-address custody and authorization.
//!
//! Program-controlled accounts ("vaults") hold value at addresses derived
//! deterministically from seed material and a program identity, and release
//! it only when a well-defined authorization predicate holds: a native
//! transaction signature of the original funder ([`vault`]), a two-party
//! atomic escrow swap ([`escrow`]), or an off-band signature relayed
//! through an adjacent instruction with expiry-based replay protection
//! ([`gated`]).  All three rest on the canonical address derivation in
//! [`addr`].

pub mod account;
pub mod addr;
pub mod errors;
pub mod escrow;
pub mod gated;
pub mod vault;
