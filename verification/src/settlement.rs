//! The steps of a trade: moving the market, merging and reducing positions,
//! valuing and settling a close.

use vstd::prelude::*;
use crate::error::Error;
use crate::perp::FlashPerp;
use crate::margin::{notional, proportional};
use crate::pool::update_reserves;
use crate::rules::{close_residue, close_valuation, merged_position, remaining_position, traded_market, Residue, Valuation};
use crate::types::{FundingData, MarketState, Position};

verus! {

/// Trades `size` against the market's pool and moves its net open interest
/// by `oi_change`.
pub fn trade_market(m: &MarketState, size: i128, oi_change: i128) -> (r: Result<MarketState, Error>)
    ensures
        r == traded_market(*m, size as int, oi_change as int),
{
    let reserve = update_reserves(&m.reserve, size)?;
    match m.net_oi.checked_add(oi_change) {
        Some(net_oi) => Ok(
            MarketState { reserve, funding: m.funding, net_oi, skew_scale: m.skew_scale },
        ),
        None => Err(Error::Overflow),
    }
}

/// Adds a trade to what is held. Nothing is left where the sizes cancel.
pub fn merge_position(held: Option<Position>, size: i128, notional: i128, margin: i128, rate: i128) -> (r:
    Result<Option<Position>, Error>)
    ensures
        r == merged_position(held, size, notional, margin, rate),
{
    match held {
        None => {
            if size == 0 {
                Ok(None)
            } else {
                Ok(Some(Position { size, notional, margin, funding_index: rate }))
            }
        },
        Some(p) => {
            let size = match p.size.checked_add(size) {
                Some(s) => s,
                None => { return Err(Error::Overflow); },
            };
            let notional = match p.notional.checked_add(notional) {
                Some(n) => n,
                None => { return Err(Error::Overflow); },
            };
            let margin = match p.margin.checked_add(margin) {
                Some(m) => m,
                None => { return Err(Error::Overflow); },
            };
            if size == 0 {
                Ok(None)
            } else {
                Ok(Some(Position { size, notional, margin, funding_index: rate }))
            }
        },
    }
}

/// Takes `size`, `entry` of notional and `released` of margin out of `p`.
pub fn reduce_position(p: &Position, size: i128, entry: i128, released: i128, rate: i128) -> (r: Result<
    Option<Position>,
    Error,
>)
    ensures
        r == remaining_position(*p, size, entry, released, rate),
{
    let size = match p.size.checked_sub(size) {
        Some(s) => s,
        None => { return Err(Error::Overflow); },
    };
    let notional = match p.notional.checked_sub(entry) {
        Some(n) => n,
        None => { return Err(Error::Overflow); },
    };
    let margin = match p.margin.checked_sub(released) {
        Some(m) => m,
        None => { return Err(Error::Overflow); },
    };
    if size == 0 {
        Ok(None)
    } else {
        Ok(Some(Position { size, notional, margin, funding_index: rate }))
    }
}

/// Values the part of `p` that a close of `size` takes at `mark`.
pub fn value_close(p: &Position, size: i128, mark: i128) -> (r: Result<Valuation, Error>)
    ensures
        r == close_valuation(*p, size, mark),
{
    let closing = notional(size, mark)?;
    let entry = proportional(p.notional, size, p.size)?;
    let pnl = if p.size > 0 {
        closing.checked_sub(entry)
    } else {
        entry.checked_sub(closing)
    };
    match pnl {
        Some(pnl) => Ok(Valuation { closing, entry, pnl }),
        None => Err(Error::Overflow),
    }
}

/// Settles a close of `size` of `p` for a trader with `collateral`.
pub fn settle_close(p: &Position, funding: &FundingData, collateral: i128, size: i128, v: &Valuation) -> (r:
    Result<Residue, Error>)
    ensures
        r == close_residue(*p, *funding, collateral, size, *v),
{
    let owed = FlashPerp::calculate_funding_payment(p, funding)?;
    let released = proportional(p.margin, size, p.size)?;
    let rest = reduce_position(p, size, v.entry, released, funding.rate)?;
    let credited = match collateral.checked_add(released) {
        Some(c) => match c.checked_add(v.pnl) {
            Some(c) => match c.checked_sub(owed) {
                Some(c) => c,
                None => { return Err(Error::Overflow); },
            },
            None => { return Err(Error::Overflow); },
        },
        None => { return Err(Error::Overflow); },
    };
    Ok(Residue { rest, collateral: credited, funding: owed })
}

} // verus!
