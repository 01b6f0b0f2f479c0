//! The closed set of recoverable failures an operation can report.

use vstd::prelude::*;

verus! {

/// Every pool operation either fully applies its state changes or fails with
/// one of these errors and leaves the pool untouched.
#[derive(Clone, Copy, Debug, PartialEq, Eq, Structural)]
pub enum Error {
    /// A required quantity is zero.
    ZeroAmountErr,
    /// A burn amount exceeds the total issued shares.
    InvalidShareErr,
    /// The operation needs an active pool but the pool is empty.
    ZeroLiquidityErr,
    /// Reserved for slippage protection; no operation of this core reports it.
    SlippageExceededErr,
    /// A requested amount exceeds the caller's free or share balance.
    InsufficientAmountErr,
    /// A deposit does not match the pool's current token ratio.
    NonEquivalentValueErr,
    /// A deposit is too small to mint any shares.
    ThresholdNotReachedErr,
    /// A requested swap output reaches or exceeds the available reserve.
    InsufficientLiquidityErr,
}

} // verus!
