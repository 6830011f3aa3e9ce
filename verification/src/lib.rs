//! An escrow-backed, single-round ascending auction engine.
//!
//! Participants submit cumulative bids in a single accepted currency; the
//! engine tracks the running leader, charges a fixed-point protocol fee on
//! each increment, and on closure pays the winning amount (minus a fee) to
//! the owner, after which losing participants may reclaim their funds
//! (minus a withdrawal fee), optionally redirected to a third party.
//!
//! The engine itself performs no I/O: every action takes the auction state
//! by reference, validates fully before mutating, and returns the payment
//! instructions for an external ledger to carry out. A hosting runtime is
//! expected to authenticate callers, validate identity strings, persist the
//! state between invocations and execute the emitted instructions.

pub mod contract;
pub mod error;
pub mod fees;
pub mod msg;
pub mod state;
