use dutch_auction::auction::{
    claim, initialize, settle, well_formed, Auction, ClaimOutcome, ClaimStep, Identity,
    INITIAL_SUPPLY,
};
use dutch_auction::pricing::{get_current_price, get_slope, get_y_intercept};
use dutch_auction::AuctionError;

fn seller() -> Identity {
    Identity { bytes: [1u8; 32] }
}

fn buyer() -> Identity {
    Identity { bytes: [2u8; 32] }
}

/// The auction used throughout: starts at 1000, falls to a reserve of 100
/// over the hundred seconds from t=0 to t=100.
fn sample_auction() -> Auction {
    let (auction, _) = initialize(seller(), 0, 100, 1000, Some(100)).unwrap();
    auction
}

#[test]
fn initialize_derives_the_price_line_once() {
    let (auction, mint) = initialize(seller(), 0, 100, 1000, Some(100)).unwrap();
    assert_eq!(auction.authority, seller());
    assert_eq!(auction.start_time, 0);
    assert_eq!(auction.end_time, 100);
    assert_eq!(auction.start_price, 1000);
    assert_eq!(auction.reserve_price, Some(100));
    assert_eq!(auction.slope_num, -900);
    assert_eq!(auction.slope_den, 100);
    assert_eq!(auction.y_intercept, 1000);
    assert!(!auction.is_ended);
    assert!(well_formed(&auction));
    assert_eq!(mint.recipient, seller());
    assert_eq!(mint.quantity, INITIAL_SUPPLY);
    assert_eq!(INITIAL_SUPPLY, 100);
}

#[test]
fn well_formed_rejects_a_tampered_record() {
    let mut auction = sample_auction();
    auction.slope_num = -899;
    assert!(!well_formed(&auction));
    let mut auction = sample_auction();
    auction.y_intercept = 999;
    assert!(!well_formed(&auction));
    let mut auction = sample_auction();
    auction.end_time = auction.start_time;
    assert!(!well_formed(&auction));
}

#[test]
fn price_meets_both_endpoints() {
    let auction = sample_auction();
    let at_start = get_current_price(0, auction.y_intercept, auction.slope_num, auction.slope_den);
    assert_eq!(at_start, Ok(1000));
    let at_end = get_current_price(100, auction.y_intercept, auction.slope_num, auction.slope_den);
    assert_eq!(at_end, Ok(100));
}

#[test]
fn absent_reserve_decays_to_zero() {
    let (auction, _) = initialize(seller(), 0, 100, 1000, None).unwrap();
    assert_eq!(auction.slope_num, -1000);
    let at_end = get_current_price(100, auction.y_intercept, auction.slope_num, auction.slope_den);
    assert_eq!(at_end, Ok(0));
}

#[test]
fn price_never_rises_over_the_auction() {
    let auction = sample_auction();
    let mut last: u64 = u64::MAX;
    for t in 0..=100 {
        let p = get_current_price(t, auction.y_intercept, auction.slope_num, auction.slope_den)
            .unwrap();
        assert!(p <= last, "price rose at t={}", t);
        last = p;
    }
}

#[test]
fn truncation_rounds_each_read_toward_zero() {
    // A slope of -10/3: the exact prices 10, 20/3, 10/3, 0 are read as
    // 10, 7, 4, 0 — each division truncated once, at the point of use.
    let (auction, _) = initialize(seller(), 0, 3, 10, None).unwrap();
    let price = |t: i64| {
        get_current_price(t, auction.y_intercept, auction.slope_num, auction.slope_den).unwrap()
    };
    assert_eq!(price(0), 10);
    assert_eq!(price(1), 7);
    assert_eq!(price(2), 4);
    assert_eq!(price(3), 0);
}

#[test]
fn scenario_midpoint_price() {
    let auction = sample_auction();
    let at_mid = get_current_price(50, auction.y_intercept, auction.slope_num, auction.slope_den);
    assert_eq!(at_mid, Ok(550));
}

#[test]
fn scenario_expired_past_end_time() {
    let mut auction = sample_auction();
    let step = claim(&mut auction, seller(), buyer(), 150, 1_000_000).unwrap();
    assert_eq!(step, ClaimStep::Done(ClaimOutcome::Expired));
    assert!(auction.is_ended);
    // Nothing but the flag changed, and no effect was requested.
    let mut reference = sample_auction();
    reference.is_ended = true;
    assert_eq!(auction, reference);
}

#[test]
fn scenario_insufficient_funds_keeps_the_auction_open() {
    let mut auction = sample_auction();
    let step = claim(&mut auction, seller(), buyer(), 50, 549).unwrap();
    assert_eq!(step, ClaimStep::Done(ClaimOutcome::InsufficientFunds));
    assert!(!auction.is_ended);
    assert_eq!(auction, sample_auction());
}

#[test]
fn scenario_settled_at_the_current_price() {
    let mut auction = sample_auction();
    let step = claim(&mut auction, seller(), buyer(), 50, 1000).unwrap();
    let plan = match step {
        ClaimStep::Settle(plan) => plan,
        other => panic!("expected a settlement plan, got {:?}", other),
    };
    assert_eq!(plan.amount, 550);
    assert_eq!(plan.payer, buyer());
    assert_eq!(plan.payee, seller());
    assert_eq!(plan.authority_from, seller());
    assert_eq!(plan.authority_to, buyer());
    // The record does not end until both effects have been performed.
    assert!(!auction.is_ended);
    let outcome = settle(&mut auction);
    assert_eq!(outcome, ClaimOutcome::Settled);
    assert!(auction.is_ended);
}

#[test]
fn repeated_claims_after_settlement_are_no_ops() {
    let mut auction = sample_auction();
    match claim(&mut auction, seller(), buyer(), 50, 1000).unwrap() {
        ClaimStep::Settle(_) => {
            settle(&mut auction);
        },
        other => panic!("expected a settlement plan, got {:?}", other),
    }
    let after_settlement = auction;
    for t in [50, 75, 150] {
        let step = claim(&mut auction, seller(), buyer(), t, u64::MAX).unwrap();
        assert_eq!(step, ClaimStep::Done(ClaimOutcome::AlreadyEnded));
        assert_eq!(auction, after_settlement);
    }
}

#[test]
fn claim_exactly_at_end_time_still_sells() {
    let mut auction = sample_auction();
    let step = claim(&mut auction, seller(), buyer(), 100, 1000).unwrap();
    let plan = match step {
        ClaimStep::Settle(plan) => plan,
        other => panic!("expected a settlement plan, got {:?}", other),
    };
    assert_eq!(plan.amount, 100);
}

#[test]
fn claim_before_start_time_extrapolates_upward() {
    // The decided behavior for an early claim: the line extrapolates, so
    // the price demanded is above the start price, never below it.
    let auction = sample_auction();
    let early = get_current_price(-50, auction.y_intercept, auction.slope_num, auction.slope_den);
    assert_eq!(early, Ok(1450));
    let mut auction = sample_auction();
    let step = claim(&mut auction, seller(), buyer(), -50, 2000).unwrap();
    let plan = match step {
        ClaimStep::Settle(plan) => plan,
        other => panic!("expected a settlement plan, got {:?}", other),
    };
    assert_eq!(plan.amount, 1450);
}

#[test]
fn zero_or_negative_duration_is_rejected() {
    let r = initialize(seller(), 100, 100, 1000, Some(100));
    assert_eq!(r.map(|_| ()), Err(AuctionError::InvalidConfiguration));
    let r = initialize(seller(), 100, 50, 1000, Some(100));
    assert_eq!(r.map(|_| ()), Err(AuctionError::InvalidConfiguration));
}

#[test]
fn slope_subtraction_overflow_is_an_error() {
    let r = get_slope(i64::MIN, 0, None, 10);
    assert_eq!(r, Err(AuctionError::ArithmeticOverflow));
    let r = initialize(seller(), 0, 10, i64::MIN, None);
    assert_eq!(r.map(|_| ()), Err(AuctionError::ArithmeticOverflow));
    // A duration wider than the i64 range overflows too.
    let r = get_slope(0, i64::MIN, None, i64::MAX);
    assert_eq!(r, Err(AuctionError::ArithmeticOverflow));
}

#[test]
fn intercept_overflow_is_an_error() {
    // The narrowed quotient leaves the i64 range.
    let r = get_y_intercept(0, i64::MAX, i64::MAX, 1);
    assert_eq!(r, Err(AuctionError::ArithmeticOverflow));
    // The final subtraction underflows.
    let r = get_y_intercept(i64::MIN, 1, 5, 1);
    assert_eq!(r, Err(AuctionError::ArithmeticOverflow));
    // An untroubled derivation for comparison.
    let r = get_y_intercept(1000, 0, -900, 100);
    assert_eq!(r, Ok(1000));
}

#[test]
fn negative_computed_price_is_an_error_not_a_reinterpretation() {
    // With a zero intercept the line is negative at t=50; the price is
    // refused rather than reinterpreted as a huge unsigned value.
    let r = get_current_price(50, 0, -900, 100);
    assert_eq!(r, Err(AuctionError::ArithmeticOverflow));
}

#[test]
fn claim_propagates_a_price_overflow() {
    // A hand-built record whose line overflows i64 when evaluated late:
    // slope 1 per second rising from i64::MAX - 10 at t=0.  claim must
    // refuse with an arithmetic error and leave the record unchanged.
    let (mut auction, _) = initialize(seller(), -10, i64::MAX - 11, i64::MAX - 10, None).unwrap();
    assert_eq!(auction.slope_num, -(i64::MAX - 10));
    let before = auction;
    let r = claim(&mut auction, seller(), buyer(), i64::MIN, u64::MAX);
    assert_eq!(r, Err(AuctionError::ArithmeticOverflow));
    assert_eq!(auction, before);
}
