//! Buy and sell quotes on each curve shape.
//!
//! Every intermediate value is range-checked; a value that leaves its range
//! is reported with the step it belongs to instead of wrapping.
use vstd::prelude::*;

use crate::arith::{floor_sqrt, integer_sqrt, lemma_floor_sqrt, lemma_floor_sqrt_monotone};
use crate::error::{NottyTerminalError, PriceCalculationError};
use crate::state::{Curve, DECIMALS};

verus! {

/// Basis points in a whole.
pub const BPS_DENOMINATOR: u64 = 10_000;

/// Discount of a sell against the buy quote of the same units, in basis points.
pub const SELL_DISCOUNT_BPS: u64 = 500;

/// Base units per million, the unit the square-root curve prices in.
pub const UNITS_PER_MILLION: u64 = 1_000_000;

/// Progress towards the threshold is measured in thousandths.
pub const PROGRESS_SCALE: u64 = 1000;

/// The square root of full progress (1000), rounded down.
pub const SQRT_FULL_PROGRESS: u64 = 31;

/// Cost of `n` base units from `sold` on the exact integral of
/// `base_price + slope * s`: `base_price * n / D + slope * (sold * n + n * n / 2) / D`.
pub open spec fn linear_integral_quote(base_price: int, slope: int, sold: int, n: int) -> Result<
    int,
    PriceCalculationError,
> {
    let first = base_price * n / DECIMALS as int;
    let inner = sold * n + n * n / 2;
    let slope_part = slope * inner / DECIMALS as int;
    if first > u64::MAX {
        Err(PriceCalculationError::LinearCostOverflow)
    } else if inner > u128::MAX {
        Err(PriceCalculationError::NSquaredOverflow)
    } else if slope * inner > u128::MAX {
        Err(PriceCalculationError::QuadraticSlopeOverflow)
    } else if slope_part > u64::MAX {
        Err(PriceCalculationError::QuadraticDivisionOverflow)
    } else if first + slope_part > u64::MAX {
        Err(PriceCalculationError::FinalSumOverflow)
    } else {
        Ok(first + slope_part)
    }
}

/// Cost of `n` base units at the price per whole token
/// `base_price + slope * (sold / D)`: `price * n / D`.
pub open spec fn linear_spot_quote(base_price: int, slope: int, sold: int, n: int) -> Result<
    int,
    PriceCalculationError,
> {
    let slope_term = slope * (sold / DECIMALS as int);
    let price = base_price + slope_term;
    let cost = price * n / DECIMALS as int;
    if slope_term > u64::MAX {
        Err(PriceCalculationError::SlopeSupplyOverflow)
    } else if price > u64::MAX {
        Err(PriceCalculationError::PricePerTokenOverflow)
    } else if cost > u64::MAX {
        Err(PriceCalculationError::LinearCostOverflow)
    } else {
        Ok(cost)
    }
}

/// Thousandths of the threshold sold, at most 1000.
pub open spec fn sqrt_progress(sold: int, threshold: int) -> int {
    let p = sold * PROGRESS_SCALE as int / threshold;
    if p < PROGRESS_SCALE {
        p
    } else {
        PROGRESS_SCALE as int
    }
}

/// Cost of `n` base units on the square-root curve: whole millions of `n`
/// times `base + range * floor_sqrt(progress) / 31`.
pub open spec fn sqrt_quote(
    base_per_million: int,
    max_per_million: int,
    threshold: int,
    sold: int,
    n: int,
) -> Result<int, PriceCalculationError> {
    let raised = (max_per_million - base_per_million) * floor_sqrt(sqrt_progress(sold, threshold));
    let price = base_per_million + raised / SQRT_FULL_PROGRESS as int;
    let cost = (n / UNITS_PER_MILLION as int) * price;
    if raised > u64::MAX {
        Err(PriceCalculationError::SlopeSupplyOverflow)
    } else if price > u64::MAX {
        Err(PriceCalculationError::PricePerTokenOverflow)
    } else if cost > u64::MAX {
        Err(PriceCalculationError::LinearCostOverflow)
    } else {
        Ok(cost)
    }
}

/// Cost, before fees, of buying `n` base units when `sold` are already sold.
/// A trade of nothing costs nothing on every curve.
pub open spec fn buy_quote(curve: Curve, sold: int, n: int) -> Result<int, PriceCalculationError> {
    if n == 0 {
        Ok(0)
    } else {
        match curve {
            Curve::LinearIntegral { base_price, slope } => linear_integral_quote(
                base_price as int,
                slope as int,
                sold,
                n,
            ),
            Curve::LinearSpot { base_price, slope } => linear_spot_quote(
                base_price as int,
                slope as int,
                sold,
                n,
            ),
            Curve::SqrtMarketCap {
                base_price_per_million,
                max_price_per_million,
                migration_threshold_units,
            } => sqrt_quote(
                base_price_per_million as int,
                max_price_per_million as int,
                migration_threshold_units as int,
                sold,
                n,
            ),
        }
    }
}

/// `gross` less the sell discount, rounded down.
pub open spec fn discounted(gross: int) -> int {
    gross * (BPS_DENOMINATOR - SELL_DISCOUNT_BPS) as int / BPS_DENOMINATOR as int
}

/// Proceeds, before fees, of selling `n` base units back when `sold` are sold:
/// the buy quote of the same units, `sold - n` to `sold`, less the sell discount.
pub open spec fn sell_quote(curve: Curve, sold: int, n: int) -> Result<int, NottyTerminalError> {
    if n > sold {
        Err(NottyTerminalError::InsufficientTokensSold)
    } else {
        match buy_quote(curve, sold - n, n) {
            Ok(gross) => Ok(discounted(gross)),
            Err(e) => Err(NottyTerminalError::PriceCalculation(e)),
        }
    }
}

/// Price of one whole token when `sold` base units are sold.
pub open spec fn token_price(curve: Curve, sold: int) -> Result<int, PriceCalculationError> {
    buy_quote(curve, sold, DECIMALS as int)
}

/// A quote as an engine result.
pub open spec fn priced(q: Result<int, PriceCalculationError>) -> Result<u64, NottyTerminalError> {
    match q {
        Ok(v) => Ok(v as u64),
        Err(e) => Err(NottyTerminalError::PriceCalculation(e)),
    }
}

/// Every quote that succeeds fits in a `u64`.
pub open spec fn quote_in_range(q: Result<int, PriceCalculationError>) -> bool {
    q matches Ok(v) ==> 0 <= v <= u64::MAX
}

proof fn lemma_wide_product(a: u64, b: u64)
    ensures
        a * b <= u128::MAX,
        0 <= a * b,
{
    assert(a * b <= u64::MAX * u64::MAX) by (nonlinear_arith)
        requires
            a <= u64::MAX,
            b <= u64::MAX,
    ;
}

fn linear_integral_cost(base_price: u64, slope: u64, sold: u64, n: u64) -> (r: Result<
    u64,
    PriceCalculationError,
>)
    ensures
        priced_matches(r, linear_integral_quote(base_price as int, slope as int, sold as int, n as int)),
{
    proof {
        lemma_wide_product(base_price, n);
        lemma_wide_product(n, n);
        lemma_wide_product(sold, n);
    }
    let first: u128 = (base_price as u128 * n as u128) / (DECIMALS as u128);
    if first > u64::MAX as u128 {
        return Err(PriceCalculationError::LinearCostOverflow);
    }
    let second: u128 = (n as u128 * n as u128) / 2;
    let third: u128 = sold as u128 * n as u128;
    let inner: u128 = match third.checked_add(second) {
        Some(v) => v,
        None => return Err(PriceCalculationError::NSquaredOverflow),
    };
    let slope_wide: u128 = match (slope as u128).checked_mul(inner) {
        Some(v) => v,
        None => return Err(PriceCalculationError::QuadraticSlopeOverflow),
    };
    let slope_part: u128 = slope_wide / (DECIMALS as u128);
    if slope_part > u64::MAX as u128 {
        return Err(PriceCalculationError::QuadraticDivisionOverflow);
    }
    match (first as u64).checked_add(slope_part as u64) {
        Some(v) => Ok(v),
        None => Err(PriceCalculationError::FinalSumOverflow),
    }
}

fn linear_spot_cost(base_price: u64, slope: u64, sold: u64, n: u64) -> (r: Result<
    u64,
    PriceCalculationError,
>)
    ensures
        priced_matches(r, linear_spot_quote(base_price as int, slope as int, sold as int, n as int)),
{
    let slope_term: u64 = match slope.checked_mul(sold / DECIMALS) {
        Some(v) => v,
        None => return Err(PriceCalculationError::SlopeSupplyOverflow),
    };
    let price: u64 = match base_price.checked_add(slope_term) {
        Some(v) => v,
        None => return Err(PriceCalculationError::PricePerTokenOverflow),
    };
    proof {
        lemma_wide_product(price, n);
    }
    let cost: u128 = (price as u128 * n as u128) / (DECIMALS as u128);
    if cost > u64::MAX as u128 {
        return Err(PriceCalculationError::LinearCostOverflow);
    }
    Ok(cost as u64)
}

fn sqrt_cost(
    base_per_million: u64,
    max_per_million: u64,
    threshold: u64,
    sold: u64,
    n: u64,
) -> (r: Result<u64, PriceCalculationError>)
    requires
        base_per_million <= max_per_million,
        threshold > 0,
    ensures
        priced_matches(
            r,
            sqrt_quote(
                base_per_million as int,
                max_per_million as int,
                threshold as int,
                sold as int,
                n as int,
            ),
        ),
{
    let scaled: u128 = sold as u128 * PROGRESS_SCALE as u128;
    let progress_wide: u128 = scaled / threshold as u128;
    let progress: u64 = if progress_wide < PROGRESS_SCALE as u128 {
        progress_wide as u64
    } else {
        PROGRESS_SCALE
    };
    let root: u64 = integer_sqrt(progress);
    let range: u64 = max_per_million - base_per_million;
    let raised: u64 = match range.checked_mul(root) {
        Some(v) => v,
        None => return Err(PriceCalculationError::SlopeSupplyOverflow),
    };
    let price: u64 = match base_per_million.checked_add(raised / SQRT_FULL_PROGRESS) {
        Some(v) => v,
        None => return Err(PriceCalculationError::PricePerTokenOverflow),
    };
    match (n / UNITS_PER_MILLION).checked_mul(price) {
        Some(v) => Ok(v),
        None => Err(PriceCalculationError::LinearCostOverflow),
    }
}

/// `r` is the quote `q`, narrowed to `u64`, with the same error.
pub open spec fn priced_matches(
    r: Result<u64, PriceCalculationError>,
    q: Result<int, PriceCalculationError>,
) -> bool {
    match r {
        Ok(v) => q == Ok::<int, PriceCalculationError>(v as int),
        Err(e) => q == Err::<int, PriceCalculationError>(e),
    }
}

/// Cost, before fees, of buying `amount` base units when `sold` are sold.
pub fn buy_cost(curve: &Curve, sold: u64, amount: u64) -> (r: Result<u64, NottyTerminalError>)
    requires
        curve.wf(),
    ensures
        r == priced(buy_quote(*curve, sold as int, amount as int)),
        quote_in_range(buy_quote(*curve, sold as int, amount as int)),
{
    if amount == 0 {
        return Ok(0);
    }
    let q = match *curve {
        Curve::LinearIntegral { base_price, slope } => linear_integral_cost(
            base_price,
            slope,
            sold,
            amount,
        ),
        Curve::LinearSpot { base_price, slope } => linear_spot_cost(
            base_price,
            slope,
            sold,
            amount,
        ),
        Curve::SqrtMarketCap {
            base_price_per_million,
            max_price_per_million,
            migration_threshold_units,
        } => sqrt_cost(
            base_price_per_million,
            max_price_per_million,
            migration_threshold_units,
            sold,
            amount,
        ),
    };
    match q {
        Ok(v) => Ok(v),
        Err(e) => Err(NottyTerminalError::PriceCalculation(e)),
    }
}

/// Proceeds, before fees, of selling `amount` base units back when `sold` are sold.
pub fn sell_proceeds(curve: &Curve, sold: u64, amount: u64) -> (r: Result<
    u64,
    NottyTerminalError,
>)
    requires
        curve.wf(),
    ensures
        match r {
            Ok(v) => sell_quote(*curve, sold as int, amount as int) == Ok::<
                int,
                NottyTerminalError,
            >(v as int),
            Err(e) => sell_quote(*curve, sold as int, amount as int) == Err::<
                int,
                NottyTerminalError,
            >(e),
        },
{
    if amount > sold {
        return Err(NottyTerminalError::InsufficientTokensSold);
    }
    let gross: u64 = buy_cost(curve, sold - amount, amount)?;
    proof {
        lemma_wide_product(gross, (BPS_DENOMINATOR - SELL_DISCOUNT_BPS) as u64);
    }
    let kept: u128 = gross as u128 * (BPS_DENOMINATOR - SELL_DISCOUNT_BPS) as u128;
    Ok((kept / BPS_DENOMINATOR as u128) as u64)
}

/// `a / d <= b / d` and `k * a <= k * b` for `0 <= a <= b`, `d > 0`, `k >= 0`.
proof fn lemma_scale_ordered(a: int, b: int, k: int, d: int)
    requires
        0 <= a <= b,
        0 <= k,
        0 < d,
    ensures
        a / d <= b / d,
        k * a <= k * b,
        0 <= a / d,
        0 <= k * a,
{
    assert(a / d <= b / d) by (nonlinear_arith)
        requires
            0 <= a <= b,
            0 < d,
    ;
    assert(0 <= a / d) by (nonlinear_arith)
        requires
            0 <= a,
            0 < d,
    ;
    assert(k * a <= k * b && 0 <= k * a) by (nonlinear_arith)
        requires
            0 <= a <= b,
            0 <= k,
    ;
}

/// Buying the same number of units never gets cheaper as more units are sold:
/// for `s0 <= s1`, whenever the quote at `s1` succeeds, the quote at `s0`
/// succeeds too and is at most as large. With `n` one whole token this says
/// that the price of a token does not decrease with the supply sold.
pub proof fn lemma_buy_quote_monotone(curve: Curve, s0: int, s1: int, n: int)
    requires
        curve.wf(),
        0 <= s0 <= s1,
        0 <= n,
        buy_quote(curve, s1, n) is Ok,
    ensures
        buy_quote(curve, s0, n) is Ok,
        buy_quote(curve, s0, n)->Ok_0 <= buy_quote(curve, s1, n)->Ok_0,
{
    let d = DECIMALS as int;
    if n != 0 {
        match curve {
            Curve::LinearIntegral { base_price, slope } => {
                let half = n * n / 2;
                assert(0 <= half) by (nonlinear_arith)
                    requires
                        half == n * n / 2,
                ;
                assert(s0 * n <= s1 * n) by (nonlinear_arith)
                    requires
                        0 <= s0 <= s1,
                        0 <= n,
                ;
                let inner0 = s0 * n + half;
                let inner1 = s1 * n + half;
                assert(0 <= inner0) by (nonlinear_arith)
                    requires
                        inner0 == s0 * n + half,
                        0 <= s0,
                        0 <= n,
                        0 <= half,
                ;
                lemma_scale_ordered(inner0, inner1, slope as int, d);
                lemma_scale_ordered(slope * inner0, slope * inner1, 1, d);
            },
            Curve::LinearSpot { base_price, slope } => {
                lemma_scale_ordered(s0, s1, 1, d);
                lemma_scale_ordered(s0 / d, s1 / d, slope as int, 1);
                let p0 = base_price + slope * (s0 / d);
                let p1 = base_price + slope * (s1 / d);
                assert(p0 * n <= p1 * n) by (nonlinear_arith)
                    requires
                        0 <= p0 <= p1,
                        0 <= n,
                ;
                assert(0 <= p0 * n) by (nonlinear_arith)
                    requires
                        0 <= p0,
                        0 <= n,
                ;
                lemma_scale_ordered(p0 * n, p1 * n, 1, d);
            },
            Curve::SqrtMarketCap {
                base_price_per_million,
                max_price_per_million,
                migration_threshold_units,
            } => {
                let t = migration_threshold_units as int;
                let scale = PROGRESS_SCALE as int;
                assert(s0 * scale <= s1 * scale && 0 <= s0 * scale) by (nonlinear_arith)
                    requires
                        0 <= s0 <= s1,
                        scale == 1000,
                ;
                lemma_scale_ordered(s0 * scale, s1 * scale, 1, t);
                let g0 = sqrt_progress(s0, t);
                let g1 = sqrt_progress(s1, t);
                assert(0 <= g0 <= g1);
                lemma_floor_sqrt_monotone(g0, g1);
                lemma_floor_sqrt(g0, 0);
                let range = max_price_per_million - base_price_per_million;
                lemma_scale_ordered(floor_sqrt(g0), floor_sqrt(g1), range, 1);
                lemma_scale_ordered(
                    range * floor_sqrt(g0),
                    range * floor_sqrt(g1),
                    1,
                    SQRT_FULL_PROGRESS as int,
                );
                let p0 = base_price_per_million + range * floor_sqrt(g0) / 31;
                let p1 = base_price_per_million + range * floor_sqrt(g1) / 31;
                lemma_scale_ordered(n, n, 1, UNITS_PER_MILLION as int);
                lemma_scale_ordered(p0, p1, n / UNITS_PER_MILLION as int, 1);
            },
        }
    }
}

/// Selling back the units just bought pays strictly less than buying them
/// cost, whenever that cost is positive: a buy followed by a sell never gains.
pub proof fn lemma_no_arbitrage(curve: Curve, s0: int, n: int)
    requires
        0 <= s0,
        0 < n,
        buy_quote(curve, s0, n) matches Ok(c) && c > 0,
    ensures
        sell_quote(curve, s0 + n, n) matches Ok(p) && p < buy_quote(curve, s0, n)->Ok_0,
{
    let c = buy_quote(curve, s0, n)->Ok_0;
    assert(s0 + n - n == s0);
    assert(c * 9500 / 10000 < c) by (nonlinear_arith)
        requires
            c > 0,
    ;
}

/// A trade of nothing is quoted at nothing, buying or selling, on every curve
/// and at every supply.
pub proof fn lemma_zero_trade(curve: Curve, sold: int)
    requires
        0 <= sold,
    ensures
        buy_quote(curve, sold, 0) == Ok::<int, PriceCalculationError>(0),
        sell_quote(curve, sold, 0) == Ok::<int, NottyTerminalError>(0),
{
    assert(sold - 0 == sold);
}

/// On the integral curve a quote is the exact value of the formula or an
/// error: a success is never a wrapped or truncated-to-range value, and an
/// error comes only when the exact cost, or the inner term
/// `sold * n + n * n / 2`, is past the range it is computed in.
pub proof fn lemma_linear_quote_exact(base_price: u64, slope: u64, sold: int, n: int)
    requires
        0 <= sold,
        0 <= n,
    ensures
        ({
            let exact = base_price * n / DECIMALS as int + slope * (sold * n + n * n / 2)
                / DECIMALS as int;
            match buy_quote(Curve::LinearIntegral { base_price, slope }, sold, n) {
                Ok(v) => v == exact && exact <= u64::MAX,
                Err(_) => exact > u64::MAX || sold * n + n * n / 2 > u128::MAX,
            }
        }),
{
    let d = DECIMALS as int;
    let inner = sold * n + n * n / 2;
    assert(0 <= n * n / 2 && 0 <= sold * n) by (nonlinear_arith)
        requires
            0 <= sold,
            0 <= n,
    ;
    assert(0 <= base_price * n) by (nonlinear_arith)
        requires
            0 <= n,
    ;
    lemma_scale_ordered(0, base_price * n, 1, d);
    lemma_scale_ordered(0, inner, slope as int, d);
    lemma_scale_ordered(0, slope * inner, 1, d);
    if inner <= u128::MAX && slope * inner > u128::MAX {
        assert(slope * inner / d > u64::MAX) by (nonlinear_arith)
            requires
                slope * inner > u128::MAX,
                d == 1_000_000_000,
        ;
    }
}

} // verus!
