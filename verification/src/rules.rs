//! What each operation does to the venue, as functions on its state.
//!
//! Each function gives the state after the operation together with what the
//! operation reports, or the error with which it is refused. The checks are
//! made in the order written: the first that fails names the error.

use vstd::prelude::*;
use crate::error::Error;
use crate::fixed::{fits, mul_div};
use crate::funding::{funding_delta, funding_nudge};
use crate::margin::{funding_payment, liquidation_bonus, margin_ratio, notional_value, pro_rata, required_margin};
use crate::pool::reserve_update;
use crate::pricing::{mark_price, oracle_price, quoted_mark_price};
use crate::state::PerpState;
use crate::types::{market_of, FundingData, FundingUpdate, Liquidation, Market, MarketState, Position, PriceData, Quotes, Reserve, Settlement, DEC_P, FALLBACK_PRICE, FUNDING_PERIOD, INITIAL_BASE, MMR_BP};

verus! {

/// Whether the mark price is worse than the limit for a trader who opens
/// `size`: above it for a long, below it for a short.
pub open spec fn slips_on_open(size: i128, mark: i128, limit_price: i128) -> bool {
    (size > 0 && mark > limit_price) || (size < 0 && mark < limit_price)
}

/// Whether the mark price is worse than the limit for a trader who closes
/// `size`: below it when reducing a long, above it when reducing a short.
pub open spec fn slips_on_close(size: i128, mark: i128, limit_price: i128) -> bool {
    (size > 0 && mark < limit_price) || (size < 0 && mark > limit_price)
}

/// Whether closing `size` reduces a position of `held`: same direction, and
/// no more than is held.
pub open spec fn reduces(size: i128, held: i128) -> bool {
    (size > 0 && held > 0 && size <= held) || (size < 0 && held < 0 && size >= held)
}

/// The market after a trade took `size` out of its pool (a negative `size`
/// put it in) and raised its net open interest by `oi_change`.
pub open spec fn traded_market(m: MarketState, size: int, oi_change: int) -> Result<MarketState, Error> {
    match reserve_update(m.reserve, size) {
        Err(e) => Err(e),
        Ok(reserve) => if !fits(m.net_oi + oi_change) {
            Err(Error::Overflow)
        } else {
            Ok(MarketState { reserve, net_oi: (m.net_oi + oi_change) as i128, ..m })
        },
    }
}

/// What a trader holds after a trade is added to what was held: sizes,
/// notionals and margins add, and the funding index is taken anew.
///
/// A trade that brings the size to zero leaves nothing: no record is kept
/// of a position without size. Nothing is settled in that case; the margin
/// that was held and the margin posted with the trade are both free again,
/// and the collateral is as it was.
pub open spec fn merged_position(
    held: Option<Position>,
    size: i128,
    notional: i128,
    margin: i128,
    rate: i128,
) -> Result<Option<Position>, Error> {
    match held {
        None => if size == 0 {
            Ok(None)
        } else {
            Ok(Some(Position { size, notional, margin, funding_index: rate }))
        },
        Some(p) => if !fits(p.size + size) || !fits(p.notional + notional) || !fits(p.margin + margin) {
            Err(Error::Overflow)
        } else if p.size + size == 0 {
            Ok(None)
        } else {
            Ok(
                Some(
                    Position {
                        size: (p.size + size) as i128,
                        notional: (p.notional + notional) as i128,
                        margin: (p.margin + margin) as i128,
                        funding_index: rate,
                    },
                ),
            )
        },
    }
}

/// What is left of position `p` when `size` of it is closed and `entry` of
/// its notional and `released` of its margin go with it: nothing where the
/// whole size is closed.
pub open spec fn remaining_position(
    p: Position,
    size: i128,
    entry: i128,
    released: i128,
    rate: i128,
) -> Result<Option<Position>, Error> {
    if !fits(p.size - size) || !fits(p.notional - entry) || !fits(p.margin - released) {
        Err(Error::Overflow)
    } else if p.size - size == 0 {
        Ok(None)
    } else {
        Ok(
            Some(
                Position {
                    size: (p.size - size) as i128,
                    notional: (p.notional - entry) as i128,
                    margin: (p.margin - released) as i128,
                    funding_index: rate,
                },
            ),
        )
    }
}

/// Profit or loss on the part closed: what it is worth now less what it cost
/// for a long, the reverse for a short.
pub open spec fn realized_pnl(held: i128, closing: i128, entry: i128) -> Result<i128, Error> {
    if held > 0 {
        if fits(closing - entry) {
            Ok((closing - entry) as i128)
        } else {
            Err(Error::Overflow)
        }
    } else {
        if fits(entry - closing) {
            Ok((entry - closing) as i128)
        } else {
            Err(Error::Overflow)
        }
    }
}

/// Collateral after a close credited the margin released and the profit, and
/// charged the funding.
pub open spec fn settled_collateral(collateral: i128, released: i128, pnl: i128, funding: i128) -> Result<
    i128,
    Error,
> {
    if !fits(collateral + released) || !fits(collateral + released + pnl) || !fits(
        collateral + released + pnl - funding,
    ) {
        Err(Error::Overflow)
    } else {
        Ok((collateral + released + pnl - funding) as i128)
    }
}

/// What the part of `p` that a close of `size` takes is worth at `mark`,
/// what it cost, and the profit or loss between the two.
pub struct Valuation {
    pub closing: i128,
    pub entry: i128,
    pub pnl: i128,
}

/// What a close leaves behind: the rest of the position, the trader's
/// collateral, and the funding charged.
pub struct Residue {
    pub rest: Option<Position>,
    pub collateral: i128,
    pub funding: i128,
}

/// Values the part of `p` that a close of `size` takes: its notional at
/// `mark`, its share of the entry notional, and the profit or loss.
pub open spec fn close_valuation(p: Position, size: i128, mark: i128) -> Result<Valuation, Error> {
    match notional_value(size, mark) {
        Err(e) => Err(e),
        Ok(closing) => match pro_rata(p.notional, size, p.size) {
            Err(e) => Err(e),
            Ok(entry) => match realized_pnl(p.size, closing, entry) {
                Err(e) => Err(e),
                Ok(pnl) => Ok(Valuation { closing, entry, pnl }),
            },
        },
    }
}

/// Settles a close of `size` of `p`: charges the funding that the whole
/// position owes, releases the margin that falls to the part closed, and
/// credits the trader with margin and profit less funding.
pub open spec fn close_residue(
    p: Position,
    funding: FundingData,
    collateral: i128,
    size: i128,
    v: Valuation,
) -> Result<Residue, Error> {
    match funding_payment(p, funding) {
        Err(e) => Err(e),
        Ok(owed) => match pro_rata(p.margin, size, p.size) {
            Err(e) => Err(e),
            Ok(released) => match remaining_position(p, size, v.entry, released, funding.rate) {
                Err(e) => Err(e),
                Ok(rest) => match settled_collateral(collateral, released, v.pnl, owed) {
                    Err(e) => Err(e),
                    Ok(credited) => Ok(Residue { rest, collateral: credited, funding: owed }),
                },
            },
        },
    }
}

/// Closing `size` of the position `p` that `trader` holds in `market`:
/// price it, value the part closed, trade it back into the pool, settle.
pub open spec fn close_held(
    pre: PerpState,
    trader: Seq<char>,
    market: Market,
    p: Position,
    size: i128,
    limit_price: i128,
    now: u64,
    quote: Option<PriceData>,
) -> Result<(PerpState, Settlement), Error> {
    let m = pre.market(market);
    let account = pre.account(trader);
    match quoted_mark_price(quote, now, m.net_oi, m.skew_scale) {
        Err(e) => Err(e),
        Ok(mark) => if slips_on_close(size, mark, limit_price) {
            Err(Error::SlippageExceeded)
        } else {
            match close_valuation(p, size, mark) {
                Err(e) => Err(e),
                Ok(v) => match traded_market(m, -size, -size) {
                    Err(e) => Err(e),
                    Ok(traded) => match close_residue(p, m.funding, account.collateral, size, v) {
                        Err(e) => Err(e),
                        Ok(residue) => Ok(
                            (
                                pre.with_market(market, traded).with_account(
                                    trader,
                                    account.spec_with_collateral(residue.collateral).spec_with_position(
                                        market,
                                        residue.rest,
                                    ),
                                ),
                                Settlement { pnl: v.pnl, funding_payment: residue.funding },
                            ),
                        ),
                    },
                },
            }
        },
    }
}

/// What a close is held to before any price is asked for, and the
/// position it is made on.
///
/// Refused with `InvalidAmount` for a size of zero, for more than is held
/// and for the opposite direction; with `Paused`; with `PositionNotFound`
/// where the trader holds nothing in the instrument.
pub open spec fn close_entry(pre: PerpState, trader: Seq<char>, symbol: Seq<char>, size: i128) -> Result<
    (Market, Position),
    Error,
> {
    if size == 0 {
        Err(Error::InvalidAmount)
    } else if pre.paused {
        Err(Error::Paused)
    } else {
        match market_of(symbol) {
            None => Err(Error::PositionNotFound),
            Some(market) => match pre.position(trader, market) {
                None => Err(Error::PositionNotFound),
                Some(p) => if !reduces(size, p.size) {
                    Err(Error::InvalidAmount)
                } else {
                    Ok((market, p))
                },
            },
        }
    }
}

/// Closing `size` of what `trader` holds in the instrument `symbol`: what
/// the entry check refuses is refused, whatever the oracle says; the rest
/// is priced and settled.
pub open spec fn close_step(
    pre: PerpState,
    trader: Seq<char>,
    symbol: Seq<char>,
    size: i128,
    limit_price: i128,
    now: u64,
    quote: Option<PriceData>,
) -> Result<(PerpState, Settlement), Error> {
    match close_entry(pre, trader, symbol, size) {
        Err(e) => Err(e),
        Ok(found) => close_held(pre, trader, found.0, found.1, size, limit_price, now, quote),
    }
}

/// Prices a new trade of `size` in market `m` and checks what the trader
/// posts: the mark price must not be worse than `limit_price`, and `margin`
/// must cover the initial requirement on the trade's notional. Gives the
/// mark price and the notional.
pub open spec fn open_terms(
    m: MarketState,
    size: i128,
    margin: i128,
    limit_price: i128,
    now: u64,
    quote: Option<PriceData>,
) -> Result<(i128, i128), Error> {
    match quoted_mark_price(quote, now, m.net_oi, m.skew_scale) {
        Err(e) => Err(e),
        Ok(mark) => if slips_on_open(size, mark, limit_price) {
            Err(Error::SlippageExceeded)
        } else {
            match notional_value(size, mark) {
                Err(e) => Err(e),
                Ok(notional) => match required_margin(notional) {
                    Err(e) => Err(e),
                    Ok(required) => if margin < required {
                        Err(Error::InsufficientCollateral)
                    } else {
                        Ok((mark, notional))
                    },
                },
            }
        },
    }
}

/// Opening `size` in `market` for `trader`, who posts `margin`: the terms
/// must hold, the margin must be free collateral, the trade moves the pool
/// and the open interest, and the position is merged into what is held. A
/// trade that offsets what is held exactly deletes the position.
pub open spec fn open_in(
    pre: PerpState,
    trader: Seq<char>,
    market: Market,
    size: i128,
    margin: i128,
    limit_price: i128,
    now: u64,
    quote: Option<PriceData>,
) -> Result<(PerpState, i128), Error> {
    let m = pre.market(market);
    let account = pre.account(trader);
    match open_terms(m, size, margin, limit_price, now, quote) {
        Err(e) => Err(e),
        Ok(terms) => match account.free_collateral() {
            Err(e) => Err(e),
            Ok(free) => if margin > free {
                Err(Error::InsufficientCollateral)
            } else {
                match traded_market(m, size as int, size as int) {
                    Err(e) => Err(e),
                    Ok(traded) => match merged_position(
                        account.spec_position(market),
                        size,
                        terms.1,
                        margin,
                        m.funding.rate,
                    ) {
                        Err(e) => Err(e),
                        Ok(slot) => Ok(
                            (
                                pre.with_market(market, traded).with_account(
                                    trader,
                                    account.spec_with_position(market, slot),
                                ),
                                terms.0,
                            ),
                        ),
                    },
                }
            },
        },
    }
}

/// What an open is held to before any price is asked for, and the
/// instrument it is made in.
///
/// Refused with `InvalidAmount` for a size of zero or a margin that is not
/// positive; with `Paused`; with `InvalidSymbol` for an instrument that is
/// not listed.
pub open spec fn open_entry(pre: PerpState, symbol: Seq<char>, size: i128, margin: i128) -> Result<
    Market,
    Error,
> {
    if size == 0 || margin <= 0 {
        Err(Error::InvalidAmount)
    } else if pre.paused {
        Err(Error::Paused)
    } else {
        match market_of(symbol) {
            None => Err(Error::InvalidSymbol),
            Some(market) => Ok(market),
        }
    }
}

/// Opening `size` in the instrument `symbol` for `trader`, who posts
/// `margin`: what the entry check refuses is refused, whatever the oracle
/// says; the rest is priced and traded. Reports the mark price at which the
/// trade was made.
pub open spec fn open_step(
    pre: PerpState,
    trader: Seq<char>,
    symbol: Seq<char>,
    size: i128,
    margin: i128,
    limit_price: i128,
    now: u64,
    quote: Option<PriceData>,
) -> Result<(PerpState, i128), Error> {
    match open_entry(pre, symbol, size, margin) {
        Err(e) => Err(e),
        Ok(market) => open_in(pre, trader, market, size, margin, limit_price, now, quote),
    }
}

/// Liquidating the position `p` that `trader` holds in `market`: it must be
/// below the maintenance requirement at the mark price. The whole position
/// is traded back into the pool and deleted, its margin is forfeited, and
/// the liquidator is credited the bonus on its notional.
pub open spec fn liquidate_held(
    pre: PerpState,
    liquidator: Seq<char>,
    trader: Seq<char>,
    market: Market,
    p: Position,
    now: u64,
    quote: Option<PriceData>,
) -> Result<(PerpState, Liquidation), Error> {
    let m = pre.market(market);
    match quoted_mark_price(quote, now, m.net_oi, m.skew_scale) {
        Err(e) => Err(e),
        Ok(mark) => match margin_ratio(p, mark) {
            Err(e) => Err(e),
            Ok(ratio) => if ratio >= MMR_BP {
                Err(Error::BelowMaintenanceMargin)
            } else {
                match liquidation_bonus(notional_value(p.size, mark)->Ok_0) {
                    Err(e) => Err(e),
                    Ok(bonus) => match traded_market(m, -p.size, -p.size) {
                        Err(e) => Err(e),
                        Ok(traded) => if !fits(pre.collateral(liquidator) + bonus) {
                            Err(Error::Overflow)
                        } else {
                            Ok(
                                (
                                    pre.with_market(market, traded).with_account(
                                        trader,
                                        pre.account(trader).spec_with_position(market, None),
                                    ).with_account(
                                        liquidator,
                                        pre.account(liquidator).spec_with_collateral(
                                            (pre.collateral(liquidator) + bonus) as i128,
                                        ),
                                    ),
                                    Liquidation { size: p.size, bonus },
                                ),
                            )
                        },
                    },
                }
            },
        },
    }
}

/// What a liquidation is held to before any price is asked for, and the
/// position it is made on.
///
/// Refused with `SelfLiquidation` where liquidator and trader are the same;
/// with `Paused`; with `PositionNotFound` where the trader holds nothing in
/// the instrument.
pub open spec fn liquidate_entry(
    pre: PerpState,
    liquidator: Seq<char>,
    trader: Seq<char>,
    symbol: Seq<char>,
) -> Result<(Market, Position), Error> {
    if liquidator == trader {
        Err(Error::SelfLiquidation)
    } else if pre.paused {
        Err(Error::Paused)
    } else {
        match market_of(symbol) {
            None => Err(Error::PositionNotFound),
            Some(market) => match pre.position(trader, market) {
                None => Err(Error::PositionNotFound),
                Some(p) => Ok((market, p)),
            },
        }
    }
}

/// Liquidating what `trader` holds in the instrument `symbol`, on behalf of
/// `liquidator`: what the entry check refuses is refused, whatever the
/// oracle says; the rest is priced and, where the margin is thin,
/// liquidated.
pub open spec fn liquidate_step(
    pre: PerpState,
    liquidator: Seq<char>,
    trader: Seq<char>,
    symbol: Seq<char>,
    now: u64,
    quote: Option<PriceData>,
) -> Result<(PerpState, Liquidation), Error> {
    match liquidate_entry(pre, liquidator, trader, symbol) {
        Err(e) => Err(e),
        Ok(found) => liquidate_held(pre, liquidator, trader, found.0, found.1, now, quote),
    }
}

/// Crediting `amount` of collateral to `trader`.
///
/// Refused with `InvalidAmount` unless the amount is positive; with
/// `Paused`; with `Overflow` where the balance would not fit.
pub open spec fn deposit_step(pre: PerpState, trader: Seq<char>, amount: i128) -> Result<
    (PerpState, ()),
    Error,
> {
    if amount <= 0 {
        Err(Error::InvalidAmount)
    } else if pre.paused {
        Err(Error::Paused)
    } else if !fits(pre.collateral(trader) + amount) {
        Err(Error::Overflow)
    } else {
        Ok(
            (
                pre.with_account(
                    trader,
                    pre.account(trader).spec_with_collateral((pre.collateral(trader) + amount) as i128),
                ),
                (),
            ),
        )
    }
}

/// Taking `amount` of collateral from `trader`, who may take no more than
/// is free.
///
/// Refused with `InvalidAmount` unless the amount is positive; with
/// `Paused`; with `InsufficientCollateral` where the amount exceeds the free
/// collateral.
pub open spec fn withdraw_step(pre: PerpState, trader: Seq<char>, amount: i128) -> Result<
    (PerpState, ()),
    Error,
> {
    if amount <= 0 {
        Err(Error::InvalidAmount)
    } else if pre.paused {
        Err(Error::Paused)
    } else {
        match pre.account(trader).free_collateral() {
            Err(e) => Err(e),
            Ok(free) => if amount > free {
                Err(Error::InsufficientCollateral)
            } else if !fits(pre.collateral(trader) - amount) {
                Err(Error::Overflow)
            } else {
                Ok(
                    (
                        pre.with_account(
                            trader,
                            pre.account(trader).spec_with_collateral(
                                (pre.collateral(trader) - amount) as i128,
                            ),
                        ),
                        (),
                    ),
                )
            },
        }
    }
}

/// Open interest that moves the mark price of `market` by one basis point,
/// as set at initialization.
pub open spec fn initial_skew_scale(market: Market) -> i128 {
    match market {
        Market::Xlm => 10_000_000_000,
        Market::Btc => 1_000_000,
        Market::Eth => 100_000_000,
    }
}

/// The oracle price with which a pool is seeded: the oracle's where it has
/// a fresh one, else `FALLBACK_PRICE`.
pub open spec fn seed_price(quote: Option<PriceData>, now: u64) -> i128 {
    match oracle_price(quote, now) {
        Ok(p) => p,
        Err(_) => FALLBACK_PRICE,
    }
}

/// The state in which `market` starts: `INITIAL_BASE` of base, as much
/// quote as that is worth at the seed price, a funding index of zero as of
/// `now`, no open interest.
pub open spec fn seeded_market(market: Market, quote: Option<PriceData>, now: u64) -> Result<
    MarketState,
    Error,
> {
    if !fits(INITIAL_BASE * seed_price(quote, now)) {
        Err(Error::Overflow)
    } else {
        Ok(
            MarketState {
                reserve: Reserve {
                    base: INITIAL_BASE,
                    quote: mul_div(
                        INITIAL_BASE as int,
                        seed_price(quote, now) as int,
                        DEC_P as int,
                    ) as i128,
                },
                funding: FundingData { rate: 0, last_update: now },
                net_oi: 0,
                skew_scale: initial_skew_scale(market),
            },
        )
    }
}

/// Setting the venue up: `admin` becomes its administrator, `token` its
/// collateral asset, it is not paused, and every instrument is seeded.
/// Accounts are left as they are.
///
/// Refused with `AlreadyInitialized` where an administrator is set.
pub open spec fn initialize_step(
    pre: PerpState,
    admin: Seq<char>,
    token: Seq<char>,
    now: u64,
    quotes: Quotes,
) -> Result<(PerpState, ()), Error> {
    if pre.admin is Some {
        Err(Error::AlreadyInitialized)
    } else {
        match seeded_market(Market::Xlm, quotes.xlm, now) {
            Err(e) => Err(e),
            Ok(xlm) => match seeded_market(Market::Btc, quotes.btc, now) {
                Err(e) => Err(e),
                Ok(btc) => match seeded_market(Market::Eth, quotes.eth, now) {
                    Err(e) => Err(e),
                    Ok(eth) => Ok(
                        (
                            PerpState {
                                admin: Some(admin),
                                paused: false,
                                collateral_token: Some(token),
                                xlm,
                                btc,
                                eth,
                                accounts: pre.accounts,
                            },
                            (),
                        ),
                    ),
                },
            },
        }
    }
}

/// Pausing (`paused` true) or resuming (`paused` false) the venue.
///
/// Refused with `NotInitialized` where no administrator is set.
pub open spec fn pause_step(pre: PerpState, paused: bool) -> Result<(PerpState, ()), Error> {
    if pre.admin is None {
        Err(Error::NotInitialized)
    } else {
        Ok((PerpState { paused, ..pre }, ()))
    }
}

/// Naming another collateral asset, on behalf of `admin`.
///
/// Refused with `NotInitialized` where no administrator is set; with
/// `Unauthorized` where `admin` is not the administrator.
pub open spec fn set_token_step(pre: PerpState, admin: Seq<char>, token: Seq<char>) -> Result<
    (PerpState, ()),
    Error,
> {
    match pre.admin {
        None => Err(Error::NotInitialized),
        Some(stored) => if admin != stored {
            Err(Error::Unauthorized)
        } else {
            Ok((PerpState { collateral_token: Some(token), ..pre }, ()))
        },
    }
}

/// Whether a keeper's update of a funding index last moved at `last_update`
/// comes too early at time `now`: before a full period has passed.
pub open spec fn too_early(last_update: u64, now: u64) -> bool {
    now - last_update < FUNDING_PERIOD
}

/// What a keeper's update is held to before any price is asked for: the
/// instrument whose funding index is due to move, or `None` where the index
/// moved less than a full period ago and nothing is to be done.
///
/// Refused with `Paused`; with `InvalidSymbol` for an instrument that is not
/// listed.
pub open spec fn poke_entry(pre: PerpState, symbol: Seq<char>, now: u64) -> Result<Option<Market>, Error> {
    if pre.paused {
        Err(Error::Paused)
    } else {
        match market_of(symbol) {
            None => Err(Error::InvalidSymbol),
            Some(market) => if too_early(pre.market(market).funding.last_update, now) {
                Ok(None)
            } else {
                Ok(Some(market))
            },
        }
    }
}

/// Moving the funding index of `market`, which is due at time `now`: by the
/// delta that the premium of the mark price over the oracle price gives for
/// the time elapsed. The index is stamped `now`.
pub open spec fn poke_due(pre: PerpState, market: Market, now: u64, quote: Option<PriceData>) -> Result<
    (PerpState, Option<FundingUpdate>),
    Error,
> {
    let m = pre.market(market);
    match oracle_price(quote, now) {
        Err(e) => Err(e),
        Ok(price) => match mark_price(price, m.net_oi, m.skew_scale) {
            Err(e) => Err(e),
            Ok(mark) => match funding_delta(price, mark, (now - m.funding.last_update) as u64) {
                Err(e) => Err(e),
                Ok(delta) => if !fits(m.funding.rate + delta) {
                    Err(Error::Overflow)
                } else {
                    Ok(
                        (
                            pre.with_market(
                                market,
                                MarketState {
                                    funding: FundingData {
                                        rate: (m.funding.rate + delta) as i128,
                                        last_update: now,
                                    },
                                    ..m
                                },
                            ),
                            Some(FundingUpdate { delta_rate: delta, oracle_price: price, mark_price: mark }),
                        ),
                    )
                },
            },
        },
    }
}

/// A keeper's update of the funding index of `symbol` at time `now`.
///
/// What the entry check refuses is refused. Before a full period has
/// passed since the index last moved nothing happens and nothing is
/// reported, whatever the oracle says. After it, the index moves and is
/// stamped `now`.
pub open spec fn poke_step(pre: PerpState, symbol: Seq<char>, now: u64, quote: Option<PriceData>) -> Result<
    (PerpState, Option<FundingUpdate>),
    Error,
> {
    match poke_entry(pre, symbol, now) {
        Err(e) => Err(e),
        Ok(None) => Ok((pre, None)),
        Ok(Some(market)) => poke_due(pre, market, now, quote),
    }
}

/// The administrator's update of the funding index of `symbol` against a
/// reference price of the administrator's own: the index moves at once by
/// the premium of the mark price over that reference, relative to the
/// reference, times the gain `KAPPA`. The mark price is the reference moved
/// by the instrument's skew. The index keeps its time stamp.
///
/// Refused with `NotInitialized` where no administrator is set; with
/// `Paused`; with `InvalidSymbol` for an instrument that is not listed.
pub open spec fn update_step(pre: PerpState, symbol: Seq<char>, reference_price: i128) -> Result<
    (PerpState, i128),
    Error,
> {
    if pre.admin is None {
        Err(Error::NotInitialized)
    } else if pre.paused {
        Err(Error::Paused)
    } else {
        match market_of(symbol) {
            None => Err(Error::InvalidSymbol),
            Some(market) => {
                let m = pre.market(market);
                match mark_price(reference_price, m.net_oi, m.skew_scale) {
                    Err(e) => Err(e),
                    Ok(mark) => match funding_nudge(reference_price, mark) {
                        Err(e) => Err(e),
                        Ok(delta) => if !fits(m.funding.rate + delta) {
                            Err(Error::Overflow)
                        } else {
                            Ok(
                                (
                                    pre.with_market(
                                        market,
                                        MarketState {
                                            funding: FundingData {
                                                rate: (m.funding.rate + delta) as i128,
                                                ..m.funding
                                            },
                                            ..m
                                        },
                                    ),
                                    delta,
                                ),
                            )
                        },
                    },
                }
            },
        }
    }
}

/// Whether an operation that returned `r` did what `step` says: moved the
/// venue from `pre` to the state that `step` names and reported its output,
/// or left the venue untouched and reported its error.
pub open spec fn follows<T>(pre: PerpState, post: PerpState, r: Result<T, Error>, step: Result<
    (PerpState, T),
    Error,
>) -> bool {
    match step {
        Ok(out) => r == Ok::<T, Error>(out.1) && post == out.0,
        Err(e) => r == Err::<T, Error>(e) && post == pre,
    }
}

} // verus!
