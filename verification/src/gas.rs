//! Gas buffering and fee pricing.
//!
//! Multipliers are fixed-point numbers in thousandths and gas prices are
//! fixed-point numbers in billionths of the fee token, so that every result
//! is an exact integer formula.

use vstd::arithmetic::div_mod::{lemma_div_is_ordered, lemma_hoist_over_denominator};
use vstd::prelude::*;

verus! {

/// Raw estimates below this many gas units get the larger buffer.
pub const BUFFER_THRESHOLD: u64 = 200_000;

/// Buffer applied at or above the threshold, in thousandths (1.3).
pub const GAS_BUFFER: u64 = 1_300;

/// Buffer applied below the threshold, in thousandths (1.4).
pub const SMALL_GAS_BUFFER: u64 = 1_400;

/// One whole unit of the fee token per gas unit, in billionths.
pub const PRICE_SCALE: u128 = 1_000_000_000;

/// Margin added to the gas price before pricing, in billionths (0.00001).
pub const PRICE_EPSILON: u128 = 10_000;

/// The multiplier, in thousandths, that applies to a raw estimate: the
/// configured one if there is one, else the one of the estimate's band.
pub open spec fn buffer_for(gas: int, gas_buffer: Option<u64>) -> int {
    match gas_buffer {
        Some(b) => b as int,
        None => if gas < BUFFER_THRESHOLD as int {
            SMALL_GAS_BUFFER as int
        } else {
            GAS_BUFFER as int
        },
    }
}

/// `gas * buffer / 1000`, rounded to the nearest integer, halves upwards.
pub open spec fn scaled_gas(gas: int, buffer: int) -> int {
    (gas * buffer + 500) / 1000
}

/// The gas limit before it is cut to the range of `u64`: the scaled
/// estimate, raised to the configured floor if there is one.
pub open spec fn buffered_gas_exact(gas: int, gas_buffer: Option<u64>, min_gas: Option<u64>) -> int {
    let scaled = scaled_gas(gas, buffer_for(gas, gas_buffer));
    match min_gas {
        Some(m) => if scaled < m as int { m as int } else { scaled },
        None => scaled,
    }
}

/// The gas limit for a raw estimate; it saturates at `u64::MAX`.
pub open spec fn buffered_gas(gas: u64, gas_buffer: Option<u64>, min_gas: Option<u64>) -> int {
    let exact = buffered_gas_exact(gas as int, gas_buffer, min_gas);
    if exact > u64::MAX as int { u64::MAX as int } else { exact }
}

/// The price per gas unit that a fee is computed with, in billionths: the
/// larger of the two configured prices, plus the margin.
pub open spec fn effective_price(fixed_min_gas_price: u128, average_gas_price: u128) -> int {
    (if fixed_min_gas_price >= average_gas_price {
        fixed_min_gas_price as int
    } else {
        average_gas_price as int
    }) + PRICE_EPSILON as int
}

/// `gas_limit` times the effective price, in whole units of the fee token,
/// rounded down.
pub open spec fn fee_exact(gas_limit: int, fixed_min_gas_price: u128, average_gas_price: u128) -> int {
    gas_limit * effective_price(fixed_min_gas_price, average_gas_price) / (PRICE_SCALE as int)
}

/// The fee for a gas limit; it saturates at `u128::MAX`.
pub open spec fn fee_for(gas_limit: u64, fixed_min_gas_price: u128, average_gas_price: u128) -> int {
    let exact = fee_exact(gas_limit as int, fixed_min_gas_price, average_gas_price);
    if exact > u128::MAX as int { u128::MAX as int } else { exact }
}

/// Applies the buffering policy to a raw gas estimate.
pub fn buffer_gas(gas: u64, gas_buffer: Option<u64>, min_gas: Option<u64>) -> (limit: u64)
    ensures
        limit as int == buffered_gas(gas, gas_buffer, min_gas),
{
    let buffer: u64 = match gas_buffer {
        Some(b) => b,
        None => if gas < BUFFER_THRESHOLD { SMALL_GAS_BUFFER } else { GAS_BUFFER },
    };
    assert(gas as int * buffer as int <= 0xffff_ffff_ffff_ffff * 0xffff_ffff_ffff_ffff)
        by (nonlinear_arith)
        requires
            0 <= gas <= 0xffff_ffff_ffff_ffff,
            0 <= buffer <= 0xffff_ffff_ffff_ffff,
    ;
    let product: u128 = gas as u128 * buffer as u128;
    let scaled: u128 = (product + 500) / 1000;
    let floored: u128 = match min_gas {
        Some(m) => if scaled < m as u128 { m as u128 } else { scaled },
        None => scaled,
    };
    if floored > u64::MAX as u128 {
        u64::MAX
    } else {
        floored as u64
    }
}

/// Prices a gas limit with the larger of the two gas prices plus the margin.
pub fn fee_from_gas_limit(gas_limit: u64, fixed_min_gas_price: u128, average_gas_price: u128) -> (fee: u128)
    ensures
        fee as int == fee_for(gas_limit, fixed_min_gas_price, average_gas_price),
{
    let price: u128 = if fixed_min_gas_price >= average_gas_price {
        fixed_min_gas_price
    } else {
        average_gas_price
    };
    let whole: u128 = price / PRICE_SCALE;
    let part: u128 = price % PRICE_SCALE + PRICE_EPSILON;
    assert(gas_limit as int * part as int <= 0xffff_ffff_ffff_ffff * 1_000_010_000)
        by (nonlinear_arith)
        requires
            0 <= gas_limit <= 0xffff_ffff_ffff_ffff,
            0 <= part <= 1_000_010_000,
    ;
    let low: u128 = gas_limit as u128 * part / PRICE_SCALE;
    proof {
        let g = gas_limit as int;
        let s = PRICE_SCALE as int;
        assert(effective_price(fixed_min_gas_price, average_gas_price) == whole * s + part);
        assert(g * (whole * s + part) == g * part + (g * whole) * s) by (nonlinear_arith);
        lemma_hoist_over_denominator(g * part, g * whole, PRICE_SCALE as nat);
        assert(fee_exact(g, fixed_min_gas_price, average_gas_price) == low + g * whole);
    }
    match (gas_limit as u128).checked_mul(whole) {
        None => u128::MAX,
        Some(high) => match high.checked_add(low) {
            None => u128::MAX,
            Some(fee) => fee,
        },
    }
}

/// Without a configured buffer or floor, an estimate below the threshold
/// becomes the estimate times 1.4, rounded to the nearest integer.
pub proof fn lemma_small_estimates_scale_by_one_point_four(gas: u64)
    requires
        gas < BUFFER_THRESHOLD,
    ensures
        buffered_gas(gas, None, None) == (gas * 14 + 5) / 10,
{
    assert((gas * 1400 + 500) / 1000 == (gas * 14 + 5) / 10);
}

/// Without a configured buffer or floor, an estimate at or above the
/// threshold becomes the estimate times 1.3, rounded to the nearest integer,
/// as long as that fits the gas limit's 64 bits.
pub proof fn lemma_large_estimates_scale_by_one_point_three(gas: u64)
    requires
        gas >= BUFFER_THRESHOLD,
        (gas * 13 + 5) / 10 <= u64::MAX,
    ensures
        buffered_gas(gas, None, None) == (gas * 13 + 5) / 10,
{
    assert((gas * 1300 + 500) / 1000 == (gas * 13 + 5) / 10);
}

/// A configured floor is never undercut, and it is the result exactly when
/// it is at least the scaled estimate.
pub proof fn lemma_min_gas_wins(gas: u64, gas_buffer: Option<u64>, min_gas: u64)
    ensures
        buffered_gas(gas, gas_buffer, Some(min_gas)) >= min_gas,
        min_gas >= scaled_gas(gas as int, buffer_for(gas as int, gas_buffer)) ==> buffered_gas(
            gas,
            gas_buffer,
            Some(min_gas),
        ) == min_gas,
        min_gas <= scaled_gas(gas as int, buffer_for(gas as int, gas_buffer)) ==> buffered_gas(
            gas,
            gas_buffer,
            Some(min_gas),
        ) == buffered_gas(gas, gas_buffer, None),
{
}

/// A larger estimate never gets a smaller gas limit, as long as both
/// estimates are scaled by the same multiplier: both lie on the same side of
/// the threshold, or a buffer is configured.
pub proof fn lemma_buffering_is_monotonic(
    smaller: u64,
    larger: u64,
    gas_buffer: Option<u64>,
    min_gas: Option<u64>,
)
    requires
        smaller <= larger,
        gas_buffer is Some || (smaller < BUFFER_THRESHOLD <==> larger < BUFFER_THRESHOLD),
    ensures
        buffered_gas(smaller, gas_buffer, min_gas) <= buffered_gas(larger, gas_buffer, min_gas),
{
    let b = buffer_for(smaller as int, gas_buffer);
    assert(b == buffer_for(larger as int, gas_buffer));
    assert(smaller * b <= larger * b) by (nonlinear_arith)
        requires
            smaller <= larger,
            b >= 0,
    ;
    lemma_div_is_ordered(smaller * b + 500, larger * b + 500, 1000);
}

/// Across the threshold the multiplier drops from 1.4 to 1.3; the gas limit
/// still does not drop where 1.4 times the smaller estimate is at most 1.3
/// times the larger one.
pub proof fn lemma_buffering_across_threshold(smaller: u64, larger: u64, min_gas: Option<u64>)
    requires
        smaller < BUFFER_THRESHOLD <= larger,
        14 * smaller <= 13 * larger,
    ensures
        buffered_gas(smaller, None, min_gas) <= buffered_gas(larger, None, min_gas),
{
    lemma_div_is_ordered(smaller * 1400 + 500, larger * 1300 + 500, 1000);
}

/// A larger gas limit never costs a smaller fee.
pub proof fn lemma_fee_is_monotonic(
    smaller: u64,
    larger: u64,
    fixed_min_gas_price: u128,
    average_gas_price: u128,
)
    requires
        smaller <= larger,
    ensures
        fee_for(smaller, fixed_min_gas_price, average_gas_price) <= fee_for(
            larger,
            fixed_min_gas_price,
            average_gas_price,
        ),
{
    let p = effective_price(fixed_min_gas_price, average_gas_price);
    assert(smaller * p <= larger * p) by (nonlinear_arith)
        requires
            smaller <= larger,
            p >= 0,
    ;
    lemma_div_is_ordered(smaller * p, larger * p, PRICE_SCALE as int);
}

} // verus!
