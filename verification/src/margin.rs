//! Notional value, margin requirements, funding settlement.

use vstd::prelude::*;
use crate::error::Error;
use crate::fixed::{abs, checked_abs, checked_mul_div, checked_tdiv, fits, lemma_tdiv_abs, mul_div, tdiv};
use crate::perp::FlashPerp;
use crate::types::{FundingData, Position, BONUS_BP, BP, DEC_F, DEC_P, IMR_BP, MMR_BP};

verus! {

/// Value of `size` base units at `price`: `|size| * price / DEC_P`.
pub open spec fn notional_value(size: i128, price: i128) -> Result<i128, Error> {
    if !fits(abs(size as int)) || !fits(abs(size as int) * price) {
        Err(Error::Overflow)
    } else {
        Ok(mul_div(abs(size as int), price as int, DEC_P as int) as i128)
    }
}

/// `bp` basis points of `amount`, rounded toward zero.
pub open spec fn share_of(amount: i128, bp: i128) -> Result<i128, Error> {
    if !fits(amount * bp) {
        Err(Error::Overflow)
    } else {
        Ok(mul_div(amount as int, bp as int, BP as int) as i128)
    }
}

/// Margin that a new position of `notional` must post: `IMR_BP` of it.
pub open spec fn required_margin(notional: i128) -> Result<i128, Error> {
    share_of(notional, IMR_BP)
}

/// What a liquidator earns on a position of `notional`: `BONUS_BP` of it.
pub open spec fn liquidation_bonus(notional: i128) -> Result<i128, Error> {
    share_of(notional, BONUS_BP)
}

/// Posted margin over current notional, in basis points; 10 000 where the
/// notional is zero.
pub open spec fn margin_ratio(position: Position, price: i128) -> Result<i128, Error> {
    match notional_value(position.size, price) {
        Err(e) => Err(e),
        Ok(notional) => if notional == 0 {
            Ok(BP)
        } else if !fits(position.margin * BP) || !fits(tdiv(position.margin * BP, notional as int)) {
            Err(Error::Overflow)
        } else {
            Ok(tdiv(position.margin * BP, notional as int) as i128)
        },
    }
}

/// Whether a position may be liquidated at `price`: its margin ratio is
/// below the maintenance requirement.
pub open spec fn liquidatable(position: Position, price: i128) -> bool {
    margin_ratio(position, price) matches Ok(ratio) && ratio < MMR_BP
}

/// Funding that a position owes since its last settlement: its size times
/// the growth of the funding index, at the index's scale. Negative where the
/// position is owed.
pub open spec fn funding_payment(position: Position, funding: FundingData) -> Result<i128, Error> {
    if !fits(funding.rate - position.funding_index) || !fits(
        position.size * (funding.rate - position.funding_index),
    ) {
        Err(Error::Overflow)
    } else {
        Ok(mul_div(position.size as int, funding.rate - position.funding_index, DEC_F as int) as i128)
    }
}

/// The part of `amount` that falls to `part` out of `whole`, by magnitude:
/// `amount * |part| / |whole|`.
pub open spec fn pro_rata(amount: i128, part: i128, whole: i128) -> Result<i128, Error> {
    if !fits(abs(part as int)) || !fits(abs(whole as int)) || whole == 0 || !fits(amount * abs(part as int))
        || !fits(mul_div(amount as int, abs(part as int), abs(whole as int))) {
        Err(Error::Overflow)
    } else {
        Ok(mul_div(amount as int, abs(part as int), abs(whole as int)) as i128)
    }
}

/// Value of `size` base units at `price`.
pub fn notional(size: i128, price: i128) -> (r: Result<i128, Error>)
    ensures
        r == notional_value(size, price),
{
    let magnitude = match checked_abs(size) {
        Some(m) => m,
        None => { return Err(Error::Overflow); },
    };
    proof {
        lemma_tdiv_abs(magnitude * price, DEC_P as int);
    }
    match checked_mul_div(magnitude, price, DEC_P) {
        Some(n) => Ok(n),
        None => Err(Error::Overflow),
    }
}

/// `bp` basis points of `amount`.
pub fn basis_points_of(amount: i128, bp: i128) -> (r: Result<i128, Error>)
    ensures
        r == share_of(amount, bp),
{
    proof {
        lemma_tdiv_abs(amount * bp, BP as int);
    }
    match checked_mul_div(amount, bp, BP) {
        Some(s) => Ok(s),
        None => Err(Error::Overflow),
    }
}

/// The part of `amount` that falls to `part` out of `whole`, by magnitude.
pub fn proportional(amount: i128, part: i128, whole: i128) -> (r: Result<i128, Error>)
    ensures
        r == pro_rata(amount, part, whole),
{
    let p = match checked_abs(part) {
        Some(p) => p,
        None => { return Err(Error::Overflow); },
    };
    let w = match checked_abs(whole) {
        Some(w) => w,
        None => { return Err(Error::Overflow); },
    };
    match checked_mul_div(amount, p, w) {
        Some(s) => Ok(s),
        None => Err(Error::Overflow),
    }
}

impl FlashPerp {
    /// Posted margin over the position's notional at `mark_price`, in basis
    /// points; 10 000 where the notional is zero.
    pub fn calculate_margin_ratio(position: &Position, mark_price: i128) -> (r: Result<i128, Error>)
        ensures
            r == margin_ratio(*position, mark_price),
    {
        let current_notional = notional(position.size, mark_price)?;
        if current_notional == 0 {
            return Ok(BP);
        }
        match position.margin.checked_mul(BP) {
            Some(scaled) => match checked_tdiv(scaled, current_notional) {
                Some(ratio) => Ok(ratio),
                None => Err(Error::Overflow),
            },
            None => Err(Error::Overflow),
        }
    }

    /// Funding that `position` owes under `funding` since its last
    /// settlement; negative where the position is owed.
    pub fn calculate_funding_payment(position: &Position, funding: &FundingData) -> (r: Result<
        i128,
        Error,
    >)
        ensures
            r == funding_payment(*position, *funding),
    {
        let funding_diff = match funding.rate.checked_sub(position.funding_index) {
            Some(d) => d,
            None => { return Err(Error::Overflow); },
        };
        proof {
            lemma_tdiv_abs(position.size * funding_diff, DEC_F as int);
        }
        match checked_mul_div(position.size, funding_diff, DEC_F) {
            Some(p) => Ok(p),
            None => Err(Error::Overflow),
        }
    }
}

} // verus!
