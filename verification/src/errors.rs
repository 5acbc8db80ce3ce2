//! Error taxonomy shared by every custody operation.
//!
//! Every error is terminal for the operation that raised it: the caller must
//! discard the proposed outcome and leave prior state unchanged.

use vstd::prelude::*;

verus! {

/// Why a custody operation was rejected.
#[derive(Clone, Copy, Debug, PartialEq, Eq, Structural)]
pub enum CustodyError {
    /// A required transaction signature is missing.
    Unauthorized,
    /// An address fails its canonical-derivation (or stored-bump) check, or
    /// an account is not owned by the expected program.
    InvalidAuthority,
    /// The target account has no balance or is not in the expected state.
    NotInitialized,
    /// A zero or otherwise out-of-domain numeric argument.
    InvalidAmount,
    /// The requested amount exceeds the available balance.
    InsufficientFunds,
    /// A payload fails to decode to the expected shape or length.
    InvalidInstructionData,
    /// A signature-gated authorization is past its validity window.
    Expired,
    /// A balance addition would overflow.
    ArithmeticOverflow,
}

} // verus!
