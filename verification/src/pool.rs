//! The constant-product reserve pool of an instrument.
//!
//! A trade of `size` base units moves the pool along `base * quote = k` and
//! leaves a fee, taken from the quote that the trade moved, in the pool.

use vstd::prelude::*;
use crate::error::Error;
use crate::fixed::{abs, checked_abs, checked_mul_div, checked_tdiv, fits, lemma_tdiv_abs, lemma_tdiv_bounds, mul_div, tdiv};
use crate::types::{Reserve, BP, FEE_BP};

verus! {

/// The product that a trade holds constant.
pub open spec fn pool_product(r: Reserve) -> int {
    r.base * r.quote
}

/// The quote side after a trade of `size`, before the fee.
pub open spec fn repriced_quote(r: Reserve, size: int) -> int {
    tdiv(pool_product(r), r.base - size)
}

/// The fee on a trade of `size`: `FEE_BP` basis points of the quote it moved.
pub open spec fn pool_fee(r: Reserve, size: int) -> int {
    mul_div(abs(repriced_quote(r, size) - r.quote), FEE_BP as int, BP as int)
}

/// What repricing loses to rounding: the part of the product that the new
/// base does not divide.
pub open spec fn rounding_loss(r: Reserve, size: int) -> int {
    pool_product(r) - (r.base - size) * repriced_quote(r, size)
}

/// The pool after a trade that takes `size` base units out of it (a negative
/// `size` puts them in), or why the trade cannot be made.
pub open spec fn reserve_update(r: Reserve, size: int) -> Result<Reserve, Error> {
    if !fits(pool_product(r)) || !fits(r.base - size) {
        Err(Error::Overflow)
    } else if r.base - size <= 0 {
        Err(Error::InvalidAmount)
    } else if !fits(repriced_quote(r, size) - r.quote) || !fits(abs(repriced_quote(r, size) - r.quote))
        || !fits(abs(repriced_quote(r, size) - r.quote) * FEE_BP) || !fits(
        repriced_quote(r, size) + pool_fee(r, size),
    ) {
        Err(Error::Overflow)
    } else {
        Ok(
            Reserve {
                base: (r.base - size) as i128,
                quote: (repriced_quote(r, size) + pool_fee(r, size)) as i128,
            },
        )
    }
}

/// Moves the pool by a trade of `size` base units: the base side gives up
/// `size`, the quote side is repriced to keep the product, and the fee on the
/// quote moved is added to it.
pub fn update_reserves(reserve: &Reserve, size: i128) -> (r: Result<Reserve, Error>)
    ensures
        r == reserve_update(*reserve, size as int),
{
    let k = match reserve.base.checked_mul(reserve.quote) {
        Some(k) => k,
        None => { return Err(Error::Overflow); },
    };
    let new_base = match reserve.base.checked_sub(size) {
        Some(b) => b,
        None => { return Err(Error::Overflow); },
    };
    if new_base <= 0 {
        return Err(Error::InvalidAmount);
    }
    proof {
        lemma_tdiv_abs(k as int, new_base as int);
    }
    let new_quote = match checked_tdiv(k, new_base) {
        Some(q) => q,
        None => { return Err(Error::Overflow); },
    };
    let moved = match new_quote.checked_sub(reserve.quote) {
        Some(d) => d,
        None => { return Err(Error::Overflow); },
    };
    let delta = match checked_abs(moved) {
        Some(d) => d,
        None => { return Err(Error::Overflow); },
    };
    proof {
        lemma_tdiv_abs(delta * FEE_BP, BP as int);
    }
    let fee = match checked_mul_div(delta, FEE_BP, BP) {
        Some(f) => f,
        None => { return Err(Error::Overflow); },
    };
    match new_quote.checked_add(fee) {
        Some(quote) => Ok(Reserve { base: new_base, quote }),
        None => Err(Error::Overflow),
    }
}

/// After every trade the pool still holds base.
pub proof fn law_base_stays_positive(r: Reserve, size: int)
    requires
        reserve_update(r, size) is Ok,
    ensures
        reserve_update(r, size)->Ok_0.base > 0,
        reserve_update(r, size)->Ok_0.base == r.base - size,
{
}

/// The fee is never negative, so it only ever adds quote to the pool.
pub proof fn lemma_fee_is_not_negative(r: Reserve, size: int)
    ensures
        pool_fee(r, size) >= 0,
{
    let d = abs(repriced_quote(r, size) - r.quote);
    assert(d * FEE_BP >= 0) by (nonlinear_arith)
        requires
            d >= 0,
            FEE_BP == 5,
    ;
    lemma_tdiv_bounds(d * FEE_BP, BP as int);
}

/// A trade never costs the pool a whole base unit's worth of product: what
/// rounding takes is less than the new base, and where the product is
/// negative rounding takes nothing.
pub proof fn lemma_rounding_loss_is_small(r: Reserve, size: int)
    requires
        reserve_update(r, size) is Ok,
    ensures
        rounding_loss(r, size) < r.base - size,
        pool_product(r) < 0 ==> rounding_loss(r, size) <= 0,
{
    let k = pool_product(r);
    let nb = r.base - size;
    lemma_tdiv_bounds(k, nb);
    assert(nb * tdiv(k, nb) == tdiv(k, nb) * nb) by (nonlinear_arith);
}

/// The product of the two sides after a trade, in terms of the product
/// before it: what rounding took is gone, the fee times the new base is added.
pub proof fn lemma_product_after_trade(r: Reserve, size: int)
    requires
        reserve_update(r, size) is Ok,
    ensures
        pool_product(reserve_update(r, size)->Ok_0) == pool_product(r) - rounding_loss(r, size) + (
        r.base - size) * pool_fee(r, size),
{
    let nb = r.base - size;
    let q = repriced_quote(r, size);
    let f = pool_fee(r, size);
    assert(nb * (q + f) == nb * q + nb * f) by (nonlinear_arith);
}

/// Fees only add value: wherever the fee on a trade covers what rounding
/// took, the product of the two sides does not fall, and the pool still
/// holds base.
pub proof fn law_product_never_falls(r: Reserve, size: int)
    requires
        reserve_update(r, size) is Ok,
        (r.base - size) * pool_fee(r, size) >= rounding_loss(r, size),
    ensures
        pool_product(reserve_update(r, size)->Ok_0) >= pool_product(r),
        reserve_update(r, size)->Ok_0.base > 0,
{
    lemma_product_after_trade(r, size);
}

/// Whatever the fee, the product falls by less than the new base.
pub proof fn law_product_nearly_kept(r: Reserve, size: int)
    requires
        reserve_update(r, size) is Ok,
    ensures
        pool_product(reserve_update(r, size)->Ok_0) > pool_product(r) - (r.base - size),
        pool_product(r) < 0 ==> pool_product(reserve_update(r, size)->Ok_0) >= pool_product(r),
{
    lemma_product_after_trade(r, size);
    lemma_rounding_loss_is_small(r, size);
    lemma_fee_is_not_negative(r, size);
    let nb = r.base - size;
    let f = pool_fee(r, size);
    assert(nb * f >= 0) by (nonlinear_arith)
        requires
            nb > 0,
            f >= 0,
    ;
}

} // verus!
