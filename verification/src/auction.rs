//! The auction record and its state machine.
//!
//! [`initialize`] builds a fresh, well-formed [`Auction`] record and says
//! which units the host ledger must mint; [`claim`] is one buyer's attempt
//! to purchase, decided from the record, the clock reading and the buyer's
//! balance.  The state machine never moves funds itself: when a purchase
//! should go through it returns a [`SettlementPlan`], the host performs the
//! two transfers it names, and only when both succeeded does [`settle`]
//! mark the auction ended.  If the authority reassignment fails after the
//! payment went through, the record is left open — that double-charge risk
//! is inherited from the design and must be closed by the host rolling the
//! whole operation back.

use vstd::prelude::*;

use crate::pricing::{
    fits_i64, get_current_price, get_slope, get_y_intercept, lemma_price_at_boundaries,
    lemma_price_before_start, lemma_price_monotone, price_at, reserve_or_zero, slope_den_of,
    slope_num_of, trunc_div,
};
use crate::AuctionError;

verus! {

/// How many units of the auctioned good are minted at initialization.
pub const INITIAL_SUPPLY: u64 = 100;

/// An opaque participant identity, as the host ledger's signature layer
/// hands it over.  The core never inspects it; it only routes effects
/// between identities.
#[derive(Clone, Copy, PartialEq, Eq, Debug)]
pub struct Identity {
    /// The identity's raw key bytes.
    pub bytes: [u8; 32],
}

/// The auction's persistent record.  The derived fields `slope_num`,
/// `slope_den` and `y_intercept` are computed once by [`initialize`] and
/// never recomputed; [`claim`] only ever flips `is_ended`.
#[derive(Clone, Copy, PartialEq, Eq, Debug)]
pub struct Auction {
    /// The seller and beneficiary.  Immutable after creation.
    pub authority: Identity,
    /// When the price decay begins (seconds).
    pub start_time: i64,
    /// When the auction ends (seconds); strictly after `start_time`.
    pub end_time: i64,
    /// The price at `start_time`.
    pub start_price: i64,
    /// The price floor at `end_time`; an absent floor means zero.
    pub reserve_price: Option<i64>,
    /// Numerator of the price line's slope.
    pub slope_num: i64,
    /// Denominator of the price line's slope: the auction's duration.
    pub slope_den: i64,
    /// The price line's y-intercept.
    pub y_intercept: i64,
    /// Whether the auction is over.  `false` at creation, set permanently
    /// `true` exactly once, by expiry or by a completed settlement.
    pub is_ended: bool,
}

impl Auction {
    /// The record's invariant: the stored slope and intercept are exactly
    /// the ones the pricing model derives from the stored parameters, and
    /// the duration is positive.
    pub open spec fn wf(self) -> bool {
        let num = slope_num_of(self.start_price as int, self.reserve_price);
        let den = slope_den_of(self.start_time as int, self.end_time as int);
        let q = trunc_div(num * self.start_time, den);
        &&& self.end_time > self.start_time
        &&& self.slope_num == num
        &&& self.slope_den == den
        &&& fits_i64(q)
        &&& self.y_intercept == self.start_price - q
    }

    /// The price this record's line gives at time `t`.
    pub open spec fn spec_price(self, t: int) -> int {
        price_at(t, self.y_intercept as int, self.slope_num as int, self.slope_den as int)
    }

    /// Whether the price at `t` can be computed and reported: every
    /// narrowing step stays in the `i64` range and the result is not
    /// negative.
    pub open spec fn price_defined(self, t: int) -> bool {
        let q = trunc_div(self.slope_num * t, self.slope_den as int);
        &&& fits_i64(q)
        &&& fits_i64(q + self.y_intercept)
        &&& q + self.y_intercept >= 0
    }

    /// This record with the ended flag set; nothing else changes.
    pub open spec fn with_ended(self) -> Auction {
        Auction { is_ended: true, ..self }
    }
}

/// The result of a claim attempt.  None of these is a failure: an ended or
/// expired auction and a bid the buyer cannot afford are ordinary outcomes,
/// reported to the caller with no error.
#[derive(Clone, Copy, PartialEq, Eq, Debug)]
pub enum ClaimOutcome {
    /// The auction was already over; the claim was a no-op.
    AlreadyEnded,
    /// The clock has passed `end_time`: the auction is now ended, and no
    /// funds or authority moved.
    Expired,
    /// The buyer's balance is below the current price; the auction stays
    /// open, and the buyer may retry later at a lower price.
    InsufficientFunds,
    /// The purchase went through: the payment was made and the minting
    /// authority reassigned.
    Settled,
}

/// The two external effects a successful claim requires, in order: first
/// the payment, then the authority reassignment.  The host must perform
/// both before calling [`settle`], and must roll the whole operation back
/// if the second fails after the first succeeded.
#[derive(Clone, Copy, PartialEq, Eq, Debug)]
pub struct SettlementPlan {
    /// Who pays: the buyer.
    pub payer: Identity,
    /// Who is paid: the seller.
    pub payee: Identity,
    /// Exactly how much of the payment currency moves.
    pub amount: u64,
    /// Who holds the minting authority now: the seller.
    pub authority_from: Identity,
    /// Who receives the minting authority: the buyer.
    pub authority_to: Identity,
}

/// What a claim attempt asks of its caller.
#[derive(Clone, Copy, PartialEq, Eq, Debug)]
pub enum ClaimStep {
    /// The attempt is over with this outcome; no external effect is owed.
    Done(ClaimOutcome),
    /// The buyer can afford the current price: the caller must perform the
    /// plan's two effects and then call [`settle`].
    Settle(SettlementPlan),
}

/// The mint the host ledger must perform as part of initialization: a
/// fixed supply of the auctioned good, credited to the seller.  Any failure
/// of that mint aborts initialization entirely; the record must then be
/// discarded.
#[derive(Clone, Copy, PartialEq, Eq, Debug)]
pub struct MintRequest {
    /// Who receives the minted units: the seller.
    pub recipient: Identity,
    /// How many units are minted.
    pub quantity: u64,
}

/// Builds a new auction record owned by `authority`, with the price line
/// derived and stored once, and says what the host must mint.  Rejects a
/// duration that is not strictly positive, and any parameter set whose
/// derived values overflow the `i64` range.
pub fn initialize(
    authority: Identity,
    start_time: i64,
    end_time: i64,
    start_price: i64,
    reserve_price: Option<i64>,
) -> (r: Result<(Auction, MintRequest), AuctionError>)
    ensures
        ({
            let num = slope_num_of(start_price as int, reserve_price);
            let den = slope_den_of(start_time as int, end_time as int);
            let q = trunc_div(num * start_time, den);
            if end_time <= start_time {
                r == Err::<(Auction, MintRequest), AuctionError>(AuctionError::InvalidConfiguration)
            } else if fits_i64(num) && fits_i64(den) && fits_i64(q) && fits_i64(start_price - q) {
                r == Ok::<(Auction, MintRequest), AuctionError>(
                    (
                        Auction {
                            authority,
                            start_time,
                            end_time,
                            start_price,
                            reserve_price,
                            slope_num: num as i64,
                            slope_den: den as i64,
                            y_intercept: (start_price - q) as i64,
                            is_ended: false,
                        },
                        MintRequest { recipient: authority, quantity: INITIAL_SUPPLY },
                    ),
                )
            } else {
                r == Err::<(Auction, MintRequest), AuctionError>(AuctionError::ArithmeticOverflow)
            }
        }),
        (r matches Ok(ok) ==> ok.0.wf() && !ok.0.is_ended),
{
    if end_time <= start_time {
        return Err(AuctionError::InvalidConfiguration);
    }
    let (num, den): (i64, i64) = match get_slope(start_price, start_time, reserve_price, end_time) {
        Ok(nd) => nd,
        Err(e) => {
            return Err(e);
        },
    };
    let y_intercept: i64 = match get_y_intercept(start_price, start_time, num, den) {
        Ok(y) => y,
        Err(e) => {
            return Err(e);
        },
    };
    let auction = Auction {
        authority,
        start_time,
        end_time,
        start_price,
        reserve_price,
        slope_num: num,
        slope_den: den,
        y_intercept,
        is_ended: false,
    };
    Ok((auction, MintRequest { recipient: authority, quantity: INITIAL_SUPPLY }))
}

/// Whether a record satisfies the invariant that [`initialize`] establishes.
/// A host that received a record from storage can call this before trusting
/// it with [`claim`].
pub fn well_formed(auction: &Auction) -> (b: bool)
    ensures
        b == auction.wf(),
{
    if auction.end_time <= auction.start_time {
        return false;
    }
    let (num, den): (i64, i64) = match get_slope(
        auction.start_price,
        auction.start_time,
        auction.reserve_price,
        auction.end_time,
    ) {
        Ok(nd) => nd,
        Err(_) => {
            return false;
        },
    };
    if num != auction.slope_num || den != auction.slope_den {
        return false;
    }
    match get_y_intercept(auction.start_price, auction.start_time, num, den) {
        Ok(y) => y == auction.y_intercept,
        Err(_) => false,
    }
}

/// One buyer's claim attempt at the given clock reading, with the given
/// available balance.  Decides the outcome and, for an affordable bid, the
/// settlement effects the caller must perform; the record itself changes
/// only when the auction expires.  An auction that is already over is a
/// no-op for every later claim: nothing is mutated and no effect is asked
/// for.
pub fn claim(
    auction: &mut Auction,
    seller: Identity,
    buyer: Identity,
    current_time: i64,
    buyer_balance: u64,
) -> (r: Result<ClaimStep, AuctionError>)
    requires
        old(auction).wf(),
    ensures
        final(auction).wf(),
        old(auction).is_ended ==> *final(auction) == *old(auction) && r == Ok::<
            ClaimStep,
            AuctionError,
        >(ClaimStep::Done(ClaimOutcome::AlreadyEnded)),
        !old(auction).is_ended && current_time > old(auction).end_time ==> *final(auction) == old(
            auction,
        ).with_ended() && r == Ok::<ClaimStep, AuctionError>(ClaimStep::Done(ClaimOutcome::Expired)),
        !old(auction).is_ended && current_time <= old(auction).end_time ==> *final(auction) == *old(
            auction,
        ) && (if old(auction).price_defined(current_time as int) {
            let p = old(auction).spec_price(current_time as int);
            if buyer_balance < p {
                r == Ok::<ClaimStep, AuctionError>(ClaimStep::Done(ClaimOutcome::InsufficientFunds))
            } else {
                r == Ok::<ClaimStep, AuctionError>(
                    ClaimStep::Settle(
                        SettlementPlan {
                            payer: buyer,
                            payee: seller,
                            amount: p as u64,
                            authority_from: seller,
                            authority_to: buyer,
                        },
                    ),
                )
            }
        } else {
            r == Err::<ClaimStep, AuctionError>(AuctionError::ArithmeticOverflow)
        }),
{
    if auction.is_ended {
        Ok(ClaimStep::Done(ClaimOutcome::AlreadyEnded))
    } else if current_time > auction.end_time {
        auction.is_ended = true;
        Ok(ClaimStep::Done(ClaimOutcome::Expired))
    } else {
        match get_current_price(
            current_time,
            auction.y_intercept,
            auction.slope_num,
            auction.slope_den,
        ) {
            Ok(price) => {
                if buyer_balance < price {
                    Ok(ClaimStep::Done(ClaimOutcome::InsufficientFunds))
                } else {
                    Ok(
                        ClaimStep::Settle(
                            SettlementPlan {
                                payer: buyer,
                                payee: seller,
                                amount: price,
                                authority_from: seller,
                                authority_to: buyer,
                            },
                        ),
                    )
                }
            },
            Err(e) => Err(e),
        }
    }
}

/// A well-formed record's price meets its endpoints: exactly the start
/// price at `start_time`, and the reserve (or zero) at `end_time` up to one
/// unit of truncation error — provided the reserve is no higher than the
/// start price.
pub proof fn lemma_auction_price_at_boundaries(a: Auction)
    requires
        a.wf(),
        reserve_or_zero(a.reserve_price) <= a.start_price,
    ensures
        a.spec_price(a.start_time as int) == a.start_price,
        reserve_or_zero(a.reserve_price) - 1 <= a.spec_price(a.end_time as int) <= reserve_or_zero(
            a.reserve_price,
        ) + 1,
{
    lemma_price_at_boundaries(
        a.start_price as int,
        a.start_time as int,
        a.end_time as int,
        a.reserve_price,
    );
}

/// A well-formed record's price never rises as time advances, provided the
/// reserve is no higher than the start price: a buyer short of funds may
/// retry later at a price no higher than the one refused.
pub proof fn lemma_auction_price_monotone(a: Auction, t1: int, t2: int)
    requires
        a.wf(),
        reserve_or_zero(a.reserve_price) <= a.start_price,
        t1 <= t2,
    ensures
        a.spec_price(t2) <= a.spec_price(t1),
{
    lemma_price_monotone(
        a.start_price as int,
        a.start_time as int,
        a.end_time as int,
        a.reserve_price,
        t1,
        t2,
    );
}

/// What a claim before `start_time` sees: the record accepts it, and the
/// price line extrapolates, so the price demanded is at least the start
/// price.  Coming early never makes the purchase cheaper.
pub proof fn lemma_auction_price_before_start(a: Auction, t: int)
    requires
        a.wf(),
        reserve_or_zero(a.reserve_price) <= a.start_price,
        t <= a.start_time,
    ensures
        a.spec_price(t) >= a.start_price,
{
    lemma_price_before_start(
        a.start_price as int,
        a.start_time as int,
        a.end_time as int,
        a.reserve_price,
        t,
    );
}

/// Marks the auction ended after both settlement effects succeeded.  The
/// one-way transition: the caller may take it only once, and only after a
/// claim that returned a [`SettlementPlan`] was fully performed.
pub fn settle(auction: &mut Auction) -> (r: ClaimOutcome)
    requires
        !old(auction).is_ended,
    ensures
        *final(auction) == old(auction).with_ended(),
        r == ClaimOutcome::Settled,
{
    auction.is_ended = true;
    ClaimOutcome::Settled
}

} // verus!
