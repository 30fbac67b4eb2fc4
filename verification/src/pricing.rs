//! The pricing model: a pure linear price-decay function.
//!
//! The line is carried as a rational slope (`num / den`) plus a y-intercept
//! rather than as a single ratio, so that the one truncating division happens
//! at the point of final use and no precision is lost across the auction's
//! duration.  All intermediate products are widened to `i128` before being
//! narrowed back, so the full range of price × duration products is tolerated.

use vstd::arithmetic::div_mod::{
    lemma_div_is_ordered, lemma_div_nonincreasing, lemma_div_of0, lemma_div_pos_is_pos,
    lemma_fundamental_div_mod, lemma_fundamental_div_mod_converse,
    lemma_mod_division_less_than_divisor,
};
use vstd::arithmetic::mul::lemma_mul_nonnegative;
use vstd::math::abs;
use vstd::prelude::*;

use crate::AuctionError;

verus! {

/// The reserve price used by the pricing model: an absent reserve is
/// treated as a floor of zero.
pub open spec fn reserve_or_zero(reserve_price: Option<i64>) -> int {
    match reserve_price {
        Some(p) => p as int,
        None => 0,
    }
}

/// Whether a mathematical integer is representable as an `i64`.
pub open spec fn fits_i64(x: int) -> bool {
    i64::MIN <= x <= i64::MAX
}

/// Division truncating toward zero, as the machine's signed division does.
/// (The `/` of spec arithmetic is Euclidean; the two differ on negative
/// operands, and the price line is evaluated with machine division.)
pub open spec fn trunc_div(x: int, d: int) -> int
    recommends
        d != 0,
{
    if x == 0 {
        0
    } else if x > 0 && d > 0 {
        x / d
    } else if x < 0 && d < 0 {
        (x * -1) / (d * -1)
    } else if x < 0 {
        ((x * -1) / d) * -1
    } else {
        (x / (d * -1)) * -1
    }
}

/// The slope's numerator: how far the price falls over the whole auction.
pub open spec fn slope_num_of(start_price: int, reserve_price: Option<i64>) -> int {
    reserve_or_zero(reserve_price) - start_price
}

/// The slope's denominator: the auction's duration in seconds.
pub open spec fn slope_den_of(start_time: int, end_time: int) -> int {
    end_time - start_time
}

/// The y-intercept of the price line, with the slope × start-time product
/// rounded by one truncating division.
pub open spec fn intercept_of(start_price: int, start_time: int, num: int, den: int) -> int {
    start_price - trunc_div(num * start_time, den)
}

/// The price the line gives at `current_time`: slope × time, truncated,
/// plus the y-intercept.
pub open spec fn price_at(current_time: int, y_intercept: int, num: int, den: int) -> int {
    trunc_div(num * current_time, den) + y_intercept
}

/// The product of two `i64`-range factors stays well inside the `i128` range.
proof fn lemma_i64_product_fits_i128(x: int, y: int)
    requires
        i64::MIN <= x <= i64::MAX,
        i64::MIN <= y <= i64::MAX,
    ensures
        -0x4000_0000_0000_0000_0000_0000_0000_0000 <= x * y
            <= 0x4000_0000_0000_0000_0000_0000_0000_0000,
{
    assert(-0x4000_0000_0000_0000_0000_0000_0000_0000 <= x * y
        <= 0x4000_0000_0000_0000_0000_0000_0000_0000) by (nonlinear_arith)
        requires
            -0x8000_0000_0000_0000 <= x <= 0x7fff_ffff_ffff_ffff,
            -0x8000_0000_0000_0000 <= y <= 0x7fff_ffff_ffff_ffff,
    ;
}

/// A truncating quotient is no larger in magnitude than its dividend.
proof fn lemma_trunc_div_abs_bound(x: int, d: int)
    requires
        d != 0,
    ensures
        -abs(x) <= trunc_div(x, d) <= abs(x),
{
    if x == 0 {
    } else if x > 0 && d > 0 {
        lemma_div_pos_is_pos(x, d);
        lemma_div_nonincreasing(x, d);
    } else if x < 0 && d < 0 {
        lemma_div_pos_is_pos(-x, -d);
        lemma_div_nonincreasing(-x, -d);
    } else if x < 0 {
        lemma_div_pos_is_pos(-x, d);
        lemma_div_nonincreasing(-x, d);
    } else {
        lemma_div_pos_is_pos(x, -d);
        lemma_div_nonincreasing(x, -d);
    }
}

/// How a truncating quotient relates to the Euclidean quotient of spec
/// arithmetic, for a positive divisor: they agree except on a negative
/// dividend the divisor does not divide, where truncation lands one above.
proof fn lemma_trunc_div_euclid(x: int, d: int)
    requires
        d > 0,
    ensures
        trunc_div(x, d) == x / d + (if x < 0 && x % d != 0 {
            1int
        } else {
            0int
        }),
{
    lemma_fundamental_div_mod(x, d);
    lemma_mod_division_less_than_divisor(x, d);
    if x == 0 {
        lemma_div_of0(d);
    } else if x < 0 {
        let q = x / d;
        let r = x % d;
        if r == 0 {
            assert(x * -1 == (q * -1) * d + 0) by (nonlinear_arith)
                requires
                    x == d * q,
            ;
            lemma_fundamental_div_mod_converse(x * -1, d, q * -1, 0);
        } else {
            assert(x * -1 == (-q - 1) * d + (d - r)) by (nonlinear_arith)
                requires
                    x == d * q + r,
            ;
            lemma_fundamental_div_mod_converse(x * -1, d, -q - 1, d - r);
        }
    }
}

/// A truncating quotient is non-decreasing in its dividend, for a positive
/// divisor.
proof fn lemma_trunc_div_ordered(a: int, b: int, d: int)
    requires
        a <= b,
        d > 0,
    ensures
        trunc_div(a, d) <= trunc_div(b, d),
{
    lemma_trunc_div_euclid(a, d);
    lemma_trunc_div_euclid(b, d);
    lemma_div_is_ordered(a, b, d);
    if a / d == b / d && a < 0 && a % d != 0 {
        lemma_fundamental_div_mod(a, d);
        lemma_fundamental_div_mod(b, d);
        lemma_mod_division_less_than_divisor(a, d);
        lemma_mod_division_less_than_divisor(b, d);
        if b >= 0 {
            lemma_div_pos_is_pos(b, d);
            lemma_mul_nonnegative(d, a / d);
            assert(false);
        } else if b % d == 0 {
            assert(false);
        }
    }
}

/// The price line meets its endpoints: at `start_time` the price is exactly
/// the start price, and at `end_time` it is the reserve (or zero), up to one
/// unit of truncation error.  Holds for every configuration with a positive
/// duration and a reserve no higher than the start price.
pub proof fn lemma_price_at_boundaries(
    start_price: int,
    start_time: int,
    end_time: int,
    reserve_price: Option<i64>,
)
    requires
        end_time > start_time,
        reserve_or_zero(reserve_price) <= start_price,
    ensures
        ({
            let num = slope_num_of(start_price, reserve_price);
            let den = slope_den_of(start_time, end_time);
            let inter = intercept_of(start_price, start_time, num, den);
            &&& price_at(start_time, inter, num, den) == start_price
            &&& reserve_or_zero(reserve_price) - 1 <= price_at(end_time, inter, num, den)
                <= reserve_or_zero(reserve_price) + 1
        }),
{
    let num = slope_num_of(start_price, reserve_price);
    let den = slope_den_of(start_time, end_time);
    let a1 = num * start_time;
    let a2 = num * end_time;
    assert(a2 == a1 + num * den) by (nonlinear_arith)
        requires
            a1 == num * start_time,
            a2 == num * end_time,
            den == end_time - start_time,
    ;
    lemma_fundamental_div_mod(a1, den);
    lemma_mod_division_less_than_divisor(a1, den);
    assert(a2 == (a1 / den + num) * den + a1 % den) by (nonlinear_arith)
        requires
            a1 == den * (a1 / den) + a1 % den,
            a2 == a1 + num * den,
    ;
    lemma_fundamental_div_mod_converse(a2, den, a1 / den + num, a1 % den);
    lemma_trunc_div_euclid(a1, den);
    lemma_trunc_div_euclid(a2, den);
}

/// The price is monotonically non-increasing in time, for every
/// configuration with a positive duration and a reserve no higher than the
/// start price.
pub proof fn lemma_price_monotone(
    start_price: int,
    start_time: int,
    end_time: int,
    reserve_price: Option<i64>,
    t1: int,
    t2: int,
)
    requires
        end_time > start_time,
        reserve_or_zero(reserve_price) <= start_price,
        t1 <= t2,
    ensures
        ({
            let num = slope_num_of(start_price, reserve_price);
            let den = slope_den_of(start_time, end_time);
            let inter = intercept_of(start_price, start_time, num, den);
            price_at(t2, inter, num, den) <= price_at(t1, inter, num, den)
        }),
{
    let num = slope_num_of(start_price, reserve_price);
    let den = slope_den_of(start_time, end_time);
    assert(num * t2 <= num * t1) by (nonlinear_arith)
        requires
            num <= 0,
            t1 <= t2,
    ;
    lemma_trunc_div_ordered(num * t2, num * t1, den);
}

/// Before `start_time` the line extrapolates: the price it gives is at
/// least the start price.  A claim made early is therefore decided against
/// that extrapolated, higher price; it is never cheaper to come early.
pub proof fn lemma_price_before_start(
    start_price: int,
    start_time: int,
    end_time: int,
    reserve_price: Option<i64>,
    t: int,
)
    requires
        end_time > start_time,
        reserve_or_zero(reserve_price) <= start_price,
        t <= start_time,
    ensures
        ({
            let num = slope_num_of(start_price, reserve_price);
            let den = slope_den_of(start_time, end_time);
            let inter = intercept_of(start_price, start_time, num, den);
            price_at(t, inter, num, den) >= start_price
        }),
{
    lemma_price_monotone(start_price, start_time, end_time, reserve_price, t, start_time);
    lemma_price_at_boundaries(start_price, start_time, end_time, reserve_price);
}

/// Derives the slope of the price line from the auction parameters:
/// `num = (reserve or 0) - start_price`, `den = end_time - start_time`.
/// Either subtraction overflowing the `i64` range is an arithmetic error;
/// a zero denominator is not checked here but rejected at initialization.
pub fn get_slope(start_price: i64, start_time: i64, reserve_price: Option<i64>, end_time: i64) -> (r:
    Result<(i64, i64), AuctionError>)
    ensures
        ({
            let num = slope_num_of(start_price as int, reserve_price);
            let den = slope_den_of(start_time as int, end_time as int);
            if fits_i64(num) && fits_i64(den) {
                r == Ok::<(i64, i64), AuctionError>((num as i64, den as i64))
            } else {
                r == Err::<(i64, i64), AuctionError>(AuctionError::ArithmeticOverflow)
            }
        }),
{
    let floor: i64 = match reserve_price {
        Some(p) => p,
        None => 0,
    };
    let num: i64 = match floor.checked_sub(start_price) {
        Some(n) => n,
        None => {
            return Err(AuctionError::ArithmeticOverflow);
        },
    };
    let den: i64 = match end_time.checked_sub(start_time) {
        Some(d) => d,
        None => {
            return Err(AuctionError::ArithmeticOverflow);
        },
    };
    Ok((num, den))
}

/// Derives the y-intercept of the price line: `slope * start_time` is
/// computed in `i128`, truncate-divided by `den`, narrowed back to `i64`,
/// and subtracted from the start price.  Any step that leaves the `i64`
/// range after narrowing is an arithmetic error.
pub fn get_y_intercept(start_price: i64, start_time: i64, slope_num: i64, slope_den: i64) -> (r:
    Result<i64, AuctionError>)
    requires
        slope_den != 0,
    ensures
        ({
            let q = trunc_div(slope_num * start_time, slope_den as int);
            if fits_i64(q) && fits_i64(start_price - q) {
                r == Ok::<i64, AuctionError>((start_price - q) as i64)
            } else {
                r == Err::<i64, AuctionError>(AuctionError::ArithmeticOverflow)
            }
        }),
{
    proof {
        lemma_i64_product_fits_i128(slope_num as int, start_time as int);
    }
    let prod: i128 = (slope_num as i128) * (start_time as i128);
    proof {
        lemma_trunc_div_abs_bound(prod as int, slope_den as int);
    }
    let q_opt: Option<i128> = prod.checked_div(slope_den as i128);
    let q128: i128 = q_opt.unwrap();
    if q128 < (i64::MIN as i128) || q128 > (i64::MAX as i128) {
        return Err(AuctionError::ArithmeticOverflow);
    }
    let q: i64 = q128 as i64;
    match start_price.checked_sub(q) {
        Some(v) => Ok(v),
        None => Err(AuctionError::ArithmeticOverflow),
    }
}

/// Evaluates the price line at `current_time`: `slope * current_time` via
/// the same widen / truncate-divide / narrow pattern, plus the y-intercept,
/// reinterpreted as an unsigned price.  A value that overflows `i64` after
/// narrowing, or a negative computed price, is an arithmetic error rather
/// than a silent unsigned reinterpretation.
pub fn get_current_price(current_time: i64, y_intercept: i64, slope_num: i64, slope_den: i64) -> (r:
    Result<u64, AuctionError>)
    requires
        slope_den != 0,
    ensures
        ({
            let q = trunc_div(slope_num * current_time, slope_den as int);
            let p = q + y_intercept;
            if fits_i64(q) && fits_i64(p) && p >= 0 {
                r == Ok::<u64, AuctionError>(p as u64)
            } else {
                r == Err::<u64, AuctionError>(AuctionError::ArithmeticOverflow)
            }
        }),
{
    proof {
        lemma_i64_product_fits_i128(slope_num as int, current_time as int);
    }
    let prod: i128 = (slope_num as i128) * (current_time as i128);
    proof {
        lemma_trunc_div_abs_bound(prod as int, slope_den as int);
    }
    let q_opt: Option<i128> = prod.checked_div(slope_den as i128);
    let q128: i128 = q_opt.unwrap();
    if q128 < (i64::MIN as i128) || q128 > (i64::MAX as i128) {
        return Err(AuctionError::ArithmeticOverflow);
    }
    let q: i64 = q128 as i64;
    match q.checked_add(y_intercept) {
        Some(p) => {
            if p < 0 {
                Err(AuctionError::ArithmeticOverflow)
            } else {
                Ok(p as u64)
            }
        },
        None => Err(AuctionError::ArithmeticOverflow),
    }
}

} // verus!
