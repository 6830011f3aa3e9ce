use vstd::prelude::*;

verus! {

/// The error taxonomy of the engine: every failed action reports exactly one
/// of these kinds, and a failed action leaves the auction state unchanged.
#[derive(Debug, PartialEq, Eq)]
pub enum ContractError {
    /// A lower-level failure (missing persisted value, arithmetic overflow
    /// while sizing a fee), carried with a short description.
    Std { msg: String },
    /// A non-owner tried to close, or the current leader tried to retract.
    Unauthorized {},
    /// A bid or a close was attempted while the auction is not in the
    /// required open/closed state.
    BidEventClosed {},
    /// The retracting caller never placed a bid.
    NoFundsToRetract {},
    /// The attached payment is missing, split over several currencies, zero,
    /// or in a currency other than the configured one.
    WrongToken {},
    /// The new cumulative bid does not strictly exceed the current leader's.
    BidAmountInsuf {},
    /// The retracting caller's ledger entry was already zeroed once.
    AlreadyRetracted {},
}

} // verus!
