//! The oracle price and the mark price derived from it.
//!
//! The mark price is the oracle price moved by the pool's skew: net open
//! interest, measured against the instrument's skew scale, gives a premium or
//! discount in basis points, never more than `MAX_DRIFT_BP` either way.

use vstd::prelude::*;
use crate::error::Error;
use crate::fixed::{abs, checked_mul_div, checked_tdiv, clamp, clamp_to, fits, lemma_tdiv_abs, lemma_tdiv_bounds, lemma_tdiv_monotonic, mul_div, tdiv};
use crate::types::{PriceData, BP, MAX_DRIFT_BP, ORACLE_DIVISOR, ORACLE_MAX_AGE};

verus! {

/// The oracle's price at the venue's six-decimal scale: unavailable where
/// the oracle gave nothing, stale where its observation is more than
/// `ORACLE_MAX_AGE` seconds older than `now`.
pub open spec fn oracle_price(quote: Option<PriceData>, now: u64) -> Result<i128, Error> {
    match quote {
        None => Err(Error::OracleUnavailable),
        Some(pd) => if now - pd.timestamp > ORACLE_MAX_AGE {
            Err(Error::OracleStale)
        } else {
            Ok(tdiv(pd.price as int, ORACLE_DIVISOR as int) as i128)
        },
    }
}

/// Open interest beyond which the skew has no further effect on the price.
pub open spec fn skew_limit(skew_scale: int) -> int {
    mul_div(skew_scale, MAX_DRIFT_BP as int, BP as int)
}

/// Premium (positive) or discount (negative) of the mark price in basis
/// points. The open interest is limited before the division and the result
/// after it, so no intermediate value outgrows `skew_scale * MAX_DRIFT_BP`.
pub open spec fn drift_bp(net_oi: int, skew_scale: int) -> int {
    clamp(tdiv(clamp(net_oi, skew_limit(skew_scale)) * BP, skew_scale), MAX_DRIFT_BP as int)
}

/// The mark price for an oracle price, a net open interest and a skew scale.
/// A skew scale of zero leaves the oracle price as it is.
pub open spec fn mark_price(price: i128, net_oi: i128, skew_scale: i128) -> Result<i128, Error> {
    if skew_scale == 0 {
        Ok(price)
    } else if !fits(skew_scale * MAX_DRIFT_BP) || !fits(
        price * (BP + drift_bp(net_oi as int, skew_scale as int)),
    ) {
        Err(Error::Overflow)
    } else {
        Ok(mul_div(price as int, BP + drift_bp(net_oi as int, skew_scale as int), BP as int) as i128)
    }
}

/// The mark price read off an oracle observation.
pub open spec fn quoted_mark_price(
    quote: Option<PriceData>,
    now: u64,
    net_oi: i128,
    skew_scale: i128,
) -> Result<i128, Error> {
    match oracle_price(quote, now) {
        Err(e) => Err(e),
        Ok(p) => mark_price(p, net_oi, skew_scale),
    }
}

/// Rescales what the oracle said to six decimals, and refuses an observation
/// that is missing or stale at time `now`.
pub fn scaled_oracle_price(quote: Option<PriceData>, now: u64) -> (r: Result<i128, Error>)
    ensures
        r == oracle_price(quote, now),
{
    match quote {
        None => Err(Error::OracleUnavailable),
        Some(pd) => {
            if now > pd.timestamp && now - pd.timestamp > ORACLE_MAX_AGE {
                Err(Error::OracleStale)
            } else {
                Ok(pd.price / ORACLE_DIVISOR)
            }
        },
    }
}

/// The drift is within the band whatever the skew.
pub proof fn law_drift_is_bounded(net_oi: int, skew_scale: int)
    ensures
        -MAX_DRIFT_BP <= drift_bp(net_oi, skew_scale) <= MAX_DRIFT_BP,
{
}

/// Limiting the open interest first keeps the scaled value within
/// `skew_scale * MAX_DRIFT_BP`.
proof fn lemma_limited_oi_scales(net_oi: int, skew_scale: int)
    requires
        fits(skew_scale * MAX_DRIFT_BP),
    ensures
        fits(skew_limit(skew_scale)),
        skew_limit(skew_scale) != i128::MIN,
        abs(clamp(net_oi, skew_limit(skew_scale)) * BP) <= abs(skew_scale * MAX_DRIFT_BP),
{
    let s = skew_scale * MAX_DRIFT_BP;
    lemma_tdiv_abs(s, BP as int);
    lemma_tdiv_bounds(s, BP as int);
    let l = skew_limit(skew_scale);
    let c = clamp(net_oi, l);
    assert(abs(c) <= abs(l));
    assert(abs(l) * BP <= abs(s));
}

/// The mark price: the oracle price moved by the drift that the skew gives.
pub fn compute_mark_price(price: i128, net_oi: i128, skew_scale: i128) -> (r: Result<i128, Error>)
    ensures
        r == mark_price(price, net_oi, skew_scale),
{
    if skew_scale == 0 {
        return Ok(price);
    }
    let limit_oi = match checked_mul_div(skew_scale, MAX_DRIFT_BP, BP) {
        Some(l) => l,
        None => {
            proof {
                lemma_tdiv_abs(skew_scale * MAX_DRIFT_BP, BP as int);
            }
            return Err(Error::Overflow);
        },
    };
    proof {
        lemma_limited_oi_scales(net_oi as int, skew_scale as int);
    }
    let clamped_oi = clamp_to(net_oi, limit_oi);
    let scaled: i128 = clamped_oi * BP;
    proof {
        lemma_tdiv_abs(scaled as int, skew_scale as int);
    }
    let pd_bp = match checked_tdiv(scaled, skew_scale) {
        Some(q) => q,
        None => { return Err(Error::Overflow); },
    };
    let adj_bp = clamp_to(pd_bp, MAX_DRIFT_BP);
    let factor: i128 = BP + adj_bp;
    proof {
        lemma_tdiv_abs(price * factor, BP as int);
    }
    match checked_mul_div(price, factor, BP) {
        Some(m) => Ok(m),
        None => Err(Error::Overflow),
    }
}

/// The mark price never drifts more than one per cent from a non-negative
/// oracle price: it lies between the oracle price scaled by 0.99 and by 1.01,
/// each rounded toward zero as the mark price itself is.
pub proof fn law_mark_price_within_band(price: i128, net_oi: i128, skew_scale: i128)
    requires
        price >= 0,
        mark_price(price, net_oi, skew_scale) is Ok,
    ensures
        mul_div(price as int, BP - MAX_DRIFT_BP, BP as int) <= mark_price(price, net_oi, skew_scale)->Ok_0
            <= mul_div(price as int, BP + MAX_DRIFT_BP, BP as int),
        price * (BP - MAX_DRIFT_BP) - BP < mark_price(price, net_oi, skew_scale)->Ok_0 * BP <= price * (BP
            + MAX_DRIFT_BP),
{
    let p = price as int;
    if skew_scale == 0 {
        assert(p * 10100 == p * 10000 + p * 100) by (nonlinear_arith);
        assert(p * 9900 == p * 10000 - p * 100) by (nonlinear_arith);
        assert(p * 100 >= 0) by (nonlinear_arith)
            requires
                p >= 0,
        ;
        lemma_tdiv_bounds(p * 10100, BP as int);
        lemma_tdiv_bounds(p * 9900, BP as int);
        lemma_tdiv_bounds(p * 10000, BP as int);
        lemma_tdiv_monotonic(p * 9900, p * 10000, BP as int);
        lemma_tdiv_monotonic(p * 10000, p * 10100, BP as int);
    } else {
        let d = drift_bp(net_oi as int, skew_scale as int);
        let f = BP + d;
        assert(p * 9900 <= p * f <= p * 10100) by (nonlinear_arith)
            requires
                p >= 0,
                9900 <= f <= 10100,
        ;
        lemma_tdiv_monotonic(p * 9900, p * f, BP as int);
        lemma_tdiv_monotonic(p * f, p * 10100, BP as int);
        lemma_tdiv_bounds(p * f, BP as int);
    }
}

/// Whatever the open interest, a price that the oracle gave has a mark
/// price, as long as the skew scale leaves room for the drift band: the
/// open interest is limited before it is scaled, so no skew, however
/// extreme, overflows the computation.
pub proof fn law_mark_price_exists(quote: Option<PriceData>, now: u64, net_oi: i128, skew_scale: i128)
    requires
        oracle_price(quote, now) is Ok,
        fits(skew_scale * MAX_DRIFT_BP),
    ensures
        quoted_mark_price(quote, now, net_oi, skew_scale) is Ok,
{
    let raw = quote->Some_0.price as int;
    let p = oracle_price(quote, now)->Ok_0 as int;
    lemma_tdiv_abs(raw, ORACLE_DIVISOR as int);
    lemma_tdiv_bounds(abs(raw), ORACLE_DIVISOR as int);
    assert(abs(p) * ORACLE_DIVISOR <= abs(raw));
    if skew_scale != 0 {
        let f = BP + drift_bp(net_oi as int, skew_scale as int);
        assert(abs(p * f) <= abs(p) * 10_100) by (nonlinear_arith)
            requires
                9_900 <= f <= 10_100,
        ;
    }
}

} // verus!
