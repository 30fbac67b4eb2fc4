//! A descending-price ("Dutch") auction.
//!
//! The seller fixes a start price and an optional floor ("reserve") price;
//! the price decays linearly from `start_time` to `end_time`, and the first
//! buyer willing to pay the current price wins.  The crate holds the two
//! pieces with real design content:
//!
//! * [`pricing`] — the pure linear price-decay function, expressed as a
//!   rational slope (numerator / denominator) plus a y-intercept, so that
//!   rounding happens once, at the point of use;
//! * [`auction`] — the auction record and its state machine: initialization
//!   and the claim attempt.
//!
//! Everything that moves funds or ownership (minting the auctioned units,
//! transferring the payment, reassigning the minting authority) is the job of
//! the host ledger runtime.  The state machine only decides: it returns the
//! effects the host must perform as plain values.

use vstd::prelude::*;

pub mod auction;
pub mod pricing;

verus! {

/// A failure of a core operation.  Collaborator-side failures (a rejected
/// transfer, a failed mint) are reported by the host runtime, not by this
/// crate; auction outcomes such as an expired auction are ordinary results,
/// not errors.
#[derive(Clone, Copy, PartialEq, Eq, Debug)]
pub enum AuctionError {
    /// A checked numeric operation overflowed, or a computed price fell
    /// outside the unsigned range.  Always fatal to the enclosing operation.
    ArithmeticOverflow,
    /// The auction parameters are unusable: the end time does not lie
    /// strictly after the start time, so the price line is undefined.
    InvalidConfiguration,
}

} // verus!
