//! What holds of the venue whatever the inputs.

use vstd::prelude::*;
use crate::error::Error;
use crate::fixed::{abs, lemma_tdiv_abs, lemma_tdiv_bounds, lemma_tdiv_exact, mul_div, tdiv};
use crate::margin::{funding_payment, liquidatable, margin_ratio, notional_value, pro_rata, required_margin};
use crate::pricing::quoted_mark_price;
use crate::rules::{close_residue, close_step, close_valuation, deposit_step, liquidate_step, open_step, open_terms, poke_step, slips_on_open, too_early, update_step, withdraw_step};
use crate::state::PerpState;
use crate::types::{market_of, FundingData, FundingUpdate, Liquidation, Market, Position, PriceData, Settlement, BP, DEC_F, DEC_P, FUNDING_PERIOD, IMR_BP, MMR_BP};

verus! {

/// The notional of a trade leaves room for any share of it in basis points:
/// its initial margin requirement can always be computed.
pub proof fn lemma_requirement_fits(size: i128, mark: i128)
    requires
        notional_value(size, mark) is Ok,
    ensures
        required_margin(notional_value(size, mark)->Ok_0) is Ok,
{
    let product = abs(size as int) * mark;
    lemma_tdiv_abs(product, DEC_P as int);
    lemma_tdiv_bounds(abs(product), DEC_P as int);
}

/// A position is opened only against a margin of at least 20 % of the
/// trade's notional at the mark price, the requirement rounded toward zero.
pub proof fn law_open_posts_initial_margin(
    pre: PerpState,
    trader: Seq<char>,
    symbol: Seq<char>,
    size: i128,
    margin: i128,
    limit_price: i128,
    now: u64,
    quote: Option<PriceData>,
)
    requires
        open_step(pre, trader, symbol, size, margin, limit_price, now, quote) is Ok,
    ensures
        ({
            let mark = open_step(pre, trader, symbol, size, margin, limit_price, now, quote)->Ok_0.1;
            &&& notional_value(size, mark) is Ok
            &&& margin >= mul_div(notional_value(size, mark)->Ok_0 as int, IMR_BP as int, BP as int)
            &&& notional_value(size, mark)->Ok_0 >= 0 ==> margin * BP > notional_value(size, mark)->Ok_0
                * IMR_BP - BP
        }),
{
    let market = market_of(symbol)->Some_0;
    let terms = open_terms(pre.market(market), size, margin, limit_price, now, quote)->Ok_0;
    let n = notional_value(size, terms.0)->Ok_0;
    if n >= 0 {
        assert(n * IMR_BP >= 0) by (nonlinear_arith)
            requires
                n >= 0,
                IMR_BP == 2000,
        ;
        lemma_tdiv_bounds(n * IMR_BP, BP as int);
    }
}

/// Opening with a margin below 20 % of the trade's notional fails with
/// `InsufficientCollateral`, wherever the trade is priced at all: the size
/// is not zero, the margin is positive, the venue is not paused, the
/// instrument is listed, and the mark price exists, is within the limit and
/// gives the trade a notional.
pub proof fn law_open_below_initial_margin_fails(
    pre: PerpState,
    trader: Seq<char>,
    symbol: Seq<char>,
    size: i128,
    margin: i128,
    limit_price: i128,
    now: u64,
    quote: Option<PriceData>,
    market: Market,
    mark: i128,
)
    requires
        size != 0,
        margin > 0,
        !pre.paused,
        market_of(symbol) == Some(market),
        quoted_mark_price(quote, now, pre.market(market).net_oi, pre.market(market).skew_scale) == Ok::<
            i128,
            Error,
        >(mark),
        !slips_on_open(size, mark, limit_price),
        notional_value(size, mark) is Ok,
        margin < mul_div(notional_value(size, mark)->Ok_0 as int, IMR_BP as int, BP as int),
    ensures
        open_step(pre, trader, symbol, size, margin, limit_price, now, quote) == Err::<
            (PerpState, i128),
            Error,
        >(Error::InsufficientCollateral),
{
    lemma_requirement_fits(size, mark);
}

/// Opening never takes more margin than is free. Where the trade leaves a
/// position, the collateral still covers the margin of every live position,
/// and what is free has fallen by exactly the margin posted. Where the
/// trade offsets the position held and deletes it, the margin that the
/// position held is free again. The collateral itself is never touched.
pub proof fn law_open_keeps_free_collateral(
    pre: PerpState,
    trader: Seq<char>,
    symbol: Seq<char>,
    size: i128,
    margin: i128,
    limit_price: i128,
    now: u64,
    quote: Option<PriceData>,
)
    requires
        open_step(pre, trader, symbol, size, margin, limit_price, now, quote) is Ok,
    ensures
        ({
            let market = market_of(symbol)->Some_0;
            let post = open_step(pre, trader, symbol, size, margin, limit_price, now, quote)->Ok_0.0;
            &&& post.collateral(trader) == pre.collateral(trader)
            &&& post.position(trader, market) is Some ==> {
                &&& post.account(trader).margin_used() == pre.account(trader).margin_used() + margin
                &&& post.collateral(trader) - post.account(trader).margin_used() >= 0
            }
            &&& post.position(trader, market) is None ==> {
                &&& pre.position(trader, market) is Some
                &&& post.account(trader).margin_used() == pre.account(trader).margin_used()
                    - pre.position(trader, market)->Some_0.margin
            }
        }),
{
}

/// A withdrawal never takes more than is free: after it, the collateral
/// still covers the margin of every live position.
pub proof fn law_withdraw_keeps_free_collateral(pre: PerpState, trader: Seq<char>, amount: i128)
    requires
        withdraw_step(pre, trader, amount) is Ok,
    ensures
        ({
            let post = withdraw_step(pre, trader, amount)->Ok_0.0;
            &&& post.collateral(trader) == pre.collateral(trader) - amount
            &&& post.account(trader).margin_used() == pre.account(trader).margin_used()
            &&& post.collateral(trader) - post.account(trader).margin_used() >= 0
        }),
{
}

/// A liquidation succeeds only on a position whose margin ratio at the mark
/// price is below 10 %.
pub proof fn law_liquidation_needs_thin_margin(
    pre: PerpState,
    liquidator: Seq<char>,
    trader: Seq<char>,
    symbol: Seq<char>,
    now: u64,
    quote: Option<PriceData>,
)
    requires
        liquidate_step(pre, liquidator, trader, symbol, now, quote) is Ok,
    ensures
        ({
            let market = market_of(symbol)->Some_0;
            let m = pre.market(market);
            &&& pre.position(trader, market) is Some
            &&& quoted_mark_price(quote, now, m.net_oi, m.skew_scale) is Ok
            &&& liquidatable(
                pre.position(trader, market)->Some_0,
                quoted_mark_price(quote, now, m.net_oi, m.skew_scale)->Ok_0,
            )
        }),
{
}

/// Liquidating a position fails with `BelowMaintenanceMargin` exactly where
/// its margin ratio is 10 % or more, wherever the ratio is taken at all: the
/// two accounts differ, the venue is not paused, the position exists, and
/// the mark price exists and gives the position a margin ratio.
pub proof fn law_adequate_margin_is_not_liquidated(
    pre: PerpState,
    liquidator: Seq<char>,
    trader: Seq<char>,
    symbol: Seq<char>,
    now: u64,
    quote: Option<PriceData>,
    market: Market,
    p: Position,
    mark: i128,
)
    requires
        liquidator != trader,
        !pre.paused,
        market_of(symbol) == Some(market),
        pre.position(trader, market) == Some(p),
        quoted_mark_price(quote, now, pre.market(market).net_oi, pre.market(market).skew_scale) == Ok::<
            i128,
            Error,
        >(mark),
        margin_ratio(p, mark) is Ok,
    ensures
        liquidate_step(pre, liquidator, trader, symbol, now, quote) == Err::<
            (PerpState, Liquidation),
            Error,
        >(Error::BelowMaintenanceMargin) <==> !liquidatable(p, mark),
        liquidatable(p, mark) <==> margin_ratio(p, mark)->Ok_0 < MMR_BP,
        notional_value(p.size, mark)->Ok_0 != 0 ==> margin_ratio(p, mark)->Ok_0 == tdiv(
            p.margin * BP,
            notional_value(p.size, mark)->Ok_0 as int,
        ),
{
}

/// Closing more than is held fails with `InvalidAmount`, wherever a live
/// position is looked at: the venue is not paused and the trader holds one.
pub proof fn law_close_beyond_held_fails(
    pre: PerpState,
    trader: Seq<char>,
    symbol: Seq<char>,
    size: i128,
    limit_price: i128,
    now: u64,
    quote: Option<PriceData>,
    market: Market,
    p: Position,
)
    requires
        !pre.paused,
        market_of(symbol) == Some(market),
        pre.position(trader, market) == Some(p),
        abs(size as int) > abs(p.size as int),
    ensures
        close_step(pre, trader, symbol, size, limit_price, now, quote) == Err::<
            (PerpState, Settlement),
            Error,
        >(Error::InvalidAmount),
{
}

/// A close of the whole size deletes the position; a close of less leaves
/// a position of the size that remains, which is not zero.
pub proof fn law_full_close_deletes(
    pre: PerpState,
    trader: Seq<char>,
    symbol: Seq<char>,
    size: i128,
    limit_price: i128,
    now: u64,
    quote: Option<PriceData>,
)
    requires
        close_step(pre, trader, symbol, size, limit_price, now, quote) is Ok,
    ensures
        ({
            let market = market_of(symbol)->Some_0;
            let post = close_step(pre, trader, symbol, size, limit_price, now, quote)->Ok_0.0;
            let held = pre.position(trader, market)->Some_0;
            &&& pre.position(trader, market) is Some
            &&& size == held.size ==> post.position(trader, market) is None
            &&& size != held.size ==> post.position(trader, market) is Some && post.position(
                trader,
                market,
            )->Some_0.size == held.size - size && held.size - size != 0
        }),
{
}

/// Whether a slot is empty or holds a size other than zero.
pub open spec fn slot_has_size(slot: Option<Position>) -> bool {
    match slot {
        Some(p) => p.size != 0,
        None => true,
    }
}

/// Whether every position on record has a size: no trader holds a record
/// of size zero in any instrument.
pub open spec fn every_record_has_size(state: PerpState) -> bool {
    forall|trader: Seq<char>, market: Market| slot_has_size(#[trigger] state.position(trader, market))
}

/// A position is on record only while it has a size. Whatever trade
/// succeeds, the slot it touched is empty or holds a size other than zero:
/// an open that offsets the position, a close of the whole size and a
/// liquidation all delete the record.
pub proof fn law_touched_record_has_size(
    pre: PerpState,
    trader: Seq<char>,
    liquidator: Seq<char>,
    symbol: Seq<char>,
    size: i128,
    margin: i128,
    limit_price: i128,
    now: u64,
    quote: Option<PriceData>,
)
    requires
        market_of(symbol) is Some,
    ensures
        open_step(pre, trader, symbol, size, margin, limit_price, now, quote) matches Ok(out)
            ==> slot_has_size(out.0.position(trader, market_of(symbol)->Some_0)),
        close_step(pre, trader, symbol, size, limit_price, now, quote) matches Ok(out) ==> slot_has_size(
            out.0.position(trader, market_of(symbol)->Some_0),
        ),
        liquidate_step(pre, liquidator, trader, symbol, now, quote) matches Ok(out)
            ==> out.0.position(trader, market_of(symbol)->Some_0) is None,
{
}

/// No open leaves a record of size zero where there was none before.
pub proof fn law_open_keeps_records_sized(
    pre: PerpState,
    trader: Seq<char>,
    symbol: Seq<char>,
    size: i128,
    margin: i128,
    limit_price: i128,
    now: u64,
    quote: Option<PriceData>,
)
    requires
        every_record_has_size(pre),
        open_step(pre, trader, symbol, size, margin, limit_price, now, quote) is Ok,
    ensures
        every_record_has_size(open_step(pre, trader, symbol, size, margin, limit_price, now, quote)->Ok_0.0),
{
    let post = open_step(pre, trader, symbol, size, margin, limit_price, now, quote)->Ok_0.0;
    let market = market_of(symbol)->Some_0;
    assert forall|t: Seq<char>, m: Market| (t != trader || m != market) implies #[trigger] post.position(
        t,
        m,
    ) == pre.position(t, m) by {}
    lemma_records_follow(pre, post, trader, market);
}

/// No close leaves a record of size zero where there was none before.
pub proof fn law_close_keeps_records_sized(
    pre: PerpState,
    trader: Seq<char>,
    symbol: Seq<char>,
    size: i128,
    limit_price: i128,
    now: u64,
    quote: Option<PriceData>,
)
    requires
        every_record_has_size(pre),
        close_step(pre, trader, symbol, size, limit_price, now, quote) is Ok,
    ensures
        every_record_has_size(close_step(pre, trader, symbol, size, limit_price, now, quote)->Ok_0.0),
{
    let post = close_step(pre, trader, symbol, size, limit_price, now, quote)->Ok_0.0;
    let market = market_of(symbol)->Some_0;
    assert forall|t: Seq<char>, m: Market| (t != trader || m != market) implies #[trigger] post.position(
        t,
        m,
    ) == pre.position(t, m) by {}
    lemma_records_follow(pre, post, trader, market);
}

/// No liquidation leaves a record of size zero where there was none before.
pub proof fn law_liquidation_keeps_records_sized(
    pre: PerpState,
    liquidator: Seq<char>,
    trader: Seq<char>,
    symbol: Seq<char>,
    now: u64,
    quote: Option<PriceData>,
)
    requires
        every_record_has_size(pre),
        liquidate_step(pre, liquidator, trader, symbol, now, quote) is Ok,
    ensures
        every_record_has_size(liquidate_step(pre, liquidator, trader, symbol, now, quote)->Ok_0.0),
{
    let post = liquidate_step(pre, liquidator, trader, symbol, now, quote)->Ok_0.0;
    let market = market_of(symbol)->Some_0;
    assert forall|t: Seq<char>, m: Market| (t != trader || m != market) implies #[trigger] post.position(
        t,
        m,
    ) == pre.position(t, m) by {}
    lemma_records_follow(pre, post, trader, market);
}

/// Deposits, withdrawals and funding updates leave every position as it is.
pub proof fn law_transfers_and_funding_keep_positions(
    pre: PerpState,
    trader: Seq<char>,
    symbol: Seq<char>,
    amount: i128,
    now: u64,
    quote: Option<PriceData>,
    other: Seq<char>,
    market: Market,
)
    ensures
        deposit_step(pre, trader, amount) matches Ok(out) ==> out.0.position(other, market) == pre.position(
            other,
            market,
        ),
        withdraw_step(pre, trader, amount) matches Ok(out) ==> out.0.position(other, market)
            == pre.position(other, market),
        poke_step(pre, symbol, now, quote) matches Ok(out) ==> out.0.position(other, market) == pre.position(
            other,
            market,
        ),
        update_step(pre, symbol, amount) matches Ok(out) ==> out.0.position(other, market) == pre.position(
            other,
            market,
        ),
{
}

/// Where two states differ in no position but that of `trader` in
/// `market`, and that one has a size or is gone, the second has a size on
/// every record if the first has.
proof fn lemma_records_follow(pre: PerpState, post: PerpState, trader: Seq<char>, market: Market)
    requires
        every_record_has_size(pre),
        slot_has_size(post.position(trader, market)),
        forall|t: Seq<char>, m: Market|
            (t != trader || m != market) ==> #[trigger] post.position(t, m) == pre.position(t, m),
    ensures
        every_record_has_size(post),
{
    assert forall|t: Seq<char>, m: Market| slot_has_size(#[trigger] post.position(t, m)) by {
        if t != trader || m != market {
            assert(post.position(t, m) == pre.position(t, m));
            assert(slot_has_size(pre.position(t, m)));
        }
    }
}

/// A liquidation deletes the position and moves no collateral but the
/// liquidator's.
pub proof fn law_liquidation_deletes(
    pre: PerpState,
    liquidator: Seq<char>,
    trader: Seq<char>,
    symbol: Seq<char>,
    now: u64,
    quote: Option<PriceData>,
)
    requires
        liquidate_step(pre, liquidator, trader, symbol, now, quote) is Ok,
    ensures
        ({
            let market = market_of(symbol)->Some_0;
            let out = liquidate_step(pre, liquidator, trader, symbol, now, quote)->Ok_0;
            &&& out.0.position(trader, market) is None
            &&& out.0.collateral(trader) == pre.collateral(trader)
            &&& out.0.collateral(liquidator) == pre.collateral(liquidator) + out.1.bonus
        }),
{
}

/// Round trip: a trader who holds nothing in an instrument, opens `size`
/// there and closes the same `size` at the same mark price, before the
/// funding index has moved, realizes no profit or loss and owes no funding.
/// The whole margin is released, the position is gone, and the net open
/// interest is what it was. The fees of both trades stay in the pool.
pub proof fn law_round_trip(
    pre: PerpState,
    trader: Seq<char>,
    symbol: Seq<char>,
    size: i128,
    margin: i128,
    open_limit: i128,
    open_time: u64,
    open_quote: Option<PriceData>,
    close_limit: i128,
    close_time: u64,
    close_quote: Option<PriceData>,
)
    requires
        market_of(symbol) is Some,
        pre.position(trader, market_of(symbol)->Some_0) is None,
        open_step(pre, trader, symbol, size, margin, open_limit, open_time, open_quote) is Ok,
        ({
            let opened = open_step(pre, trader, symbol, size, margin, open_limit, open_time, open_quote)->Ok_0;
            let m = opened.0.market(market_of(symbol)->Some_0);
            &&& close_step(opened.0, trader, symbol, size, close_limit, close_time, close_quote) is Ok
            &&& quoted_mark_price(close_quote, close_time, m.net_oi, m.skew_scale) == Ok::<i128, Error>(
                opened.1,
            )
        }),
    ensures
        ({
            let market = market_of(symbol)->Some_0;
            let opened = open_step(pre, trader, symbol, size, margin, open_limit, open_time, open_quote)->Ok_0;
            let closed = close_step(
                opened.0,
                trader,
                symbol,
                size,
                close_limit,
                close_time,
                close_quote,
            )->Ok_0;
            &&& closed.1.pnl == 0
            &&& closed.1.funding_payment == 0
            &&& closed.0.collateral(trader) == pre.collateral(trader) + margin
            &&& closed.0.position(trader, market) is None
            &&& closed.0.market(market).net_oi == pre.market(market).net_oi
            &&& closed.0.market(market).funding == pre.market(market).funding
        }),
{
    let market = market_of(symbol)->Some_0;
    let opened = open_step(pre, trader, symbol, size, margin, open_limit, open_time, open_quote)->Ok_0;
    let mid = opened.0;
    let mark = opened.1;
    let m0 = pre.market(market);
    let terms = open_terms(m0, size, margin, open_limit, open_time, open_quote)->Ok_0;
    assert(terms.0 == mark);
    let n = terms.1;
    assert(notional_value(size, mark) == Ok::<i128, Error>(n));
    let held = Position { size, notional: n, margin, funding_index: m0.funding.rate };
    assert(mid.position(trader, market) == Some(held));
    assert(mid.market(market).funding == m0.funding);
    let s = abs(size as int);
    lemma_tdiv_exact(n as int, s);
    lemma_tdiv_exact(margin as int, s);
    assert(pro_rata(n, size, size) == Ok::<i128, Error>(n));
    assert(pro_rata(margin, size, size) == Ok::<i128, Error>(margin));
    assert(size * (m0.funding.rate - m0.funding.rate) == 0) by (nonlinear_arith);
    assert(funding_payment(held, m0.funding) == Ok::<i128, Error>(0));
    let v = close_valuation(held, size, mark)->Ok_0;
    assert(v.pnl == 0 && v.entry == n);
    let residue = close_residue(held, m0.funding, mid.collateral(trader), size, v)->Ok_0;
    assert(residue.rest is None);
    assert(residue.funding == 0);
}

/// A keeper's update that comes before a full period has passed since the
/// funding index last moved changes nothing and reports nothing, whatever
/// the oracle says.
pub proof fn law_early_poke_is_idle(
    pre: PerpState,
    symbol: Seq<char>,
    now: u64,
    quote: Option<PriceData>,
)
    requires
        !pre.paused,
        market_of(symbol) is Some,
        too_early(pre.market(market_of(symbol)->Some_0).funding.last_update, now),
    ensures
        poke_step(pre, symbol, now, quote) == Ok::<(PerpState, Option<FundingUpdate>), Error>(
            (pre, None),
        ),
{
}

/// Two updates within a period: where a keeper's update at `first` moved
/// the funding index, another at `second`, less than a full period later,
/// changes nothing. The index and its time stamp stay as the first update
/// left them.
pub proof fn law_second_poke_is_idle(
    pre: PerpState,
    symbol: Seq<char>,
    first: u64,
    first_quote: Option<PriceData>,
    second: u64,
    second_quote: Option<PriceData>,
)
    requires
        poke_step(pre, symbol, first, first_quote) is Ok,
        poke_step(pre, symbol, first, first_quote)->Ok_0.1 is Some,
        second - first < FUNDING_PERIOD,
    ensures
        poke_step(poke_step(pre, symbol, first, first_quote)->Ok_0.0, symbol, second, second_quote) == Ok::<
            (PerpState, Option<FundingUpdate>),
            Error,
        >((poke_step(pre, symbol, first, first_quote)->Ok_0.0, None)),
{
}

/// Whatever trade succeeds, the pool it went through still holds base.
pub proof fn law_pool_keeps_base(
    pre: PerpState,
    trader: Seq<char>,
    liquidator: Seq<char>,
    symbol: Seq<char>,
    size: i128,
    margin: i128,
    limit_price: i128,
    now: u64,
    quote: Option<PriceData>,
)
    requires
        market_of(symbol) is Some,
    ensures
        open_step(pre, trader, symbol, size, margin, limit_price, now, quote) matches Ok(out)
            ==> out.0.market(market_of(symbol)->Some_0).reserve.base > 0,
        close_step(pre, trader, symbol, size, limit_price, now, quote) matches Ok(out) ==> out.0.market(
            market_of(symbol)->Some_0,
        ).reserve.base > 0,
        liquidate_step(pre, liquidator, trader, symbol, now, quote) matches Ok(out) ==> out.0.market(
            market_of(symbol)->Some_0,
        ).reserve.base > 0,
{
}

/// The size held in a position slot: zero where it is empty.
pub open spec fn held_size(slot: Option<Position>) -> int {
    match slot {
        Some(p) => p.size as int,
        None => 0,
    }
}

/// The net open interest follows the positions: whatever trade succeeds,
/// the open interest of its instrument moves by exactly as much as the size
/// that the trader holds there.
pub proof fn law_open_interest_follows_positions(
    pre: PerpState,
    trader: Seq<char>,
    liquidator: Seq<char>,
    symbol: Seq<char>,
    size: i128,
    margin: i128,
    limit_price: i128,
    now: u64,
    quote: Option<PriceData>,
)
    requires
        market_of(symbol) is Some,
    ensures
        open_step(pre, trader, symbol, size, margin, limit_price, now, quote) matches Ok(out) ==> {
            let market = market_of(symbol)->Some_0;
            &&& out.0.market(market).net_oi - pre.market(market).net_oi == size
            &&& held_size(out.0.position(trader, market)) - held_size(pre.position(trader, market))
                == size
        },
        close_step(pre, trader, symbol, size, limit_price, now, quote) matches Ok(out) ==> {
            let market = market_of(symbol)->Some_0;
            &&& out.0.market(market).net_oi - pre.market(market).net_oi == -size
            &&& held_size(out.0.position(trader, market)) - held_size(pre.position(trader, market))
                == -size
        },
        liquidate_step(pre, liquidator, trader, symbol, now, quote) matches Ok(out) ==> {
            let market = market_of(symbol)->Some_0;
            &&& out.0.market(market).net_oi - pre.market(market).net_oi == -out.1.size
            &&& held_size(out.0.position(trader, market)) - held_size(pre.position(trader, market))
                == -out.1.size
        },
{
}

/// The skew scale of an instrument is fixed once the venue is set up: no
/// trade and no funding update changes it. Trades leave the funding index
/// alone, and funding updates leave the pool and the open interest alone.
pub proof fn law_skew_scale_is_fixed(
    pre: PerpState,
    trader: Seq<char>,
    liquidator: Seq<char>,
    symbol: Seq<char>,
    size: i128,
    margin: i128,
    limit_price: i128,
    now: u64,
    quote: Option<PriceData>,
    other: Market,
)
    ensures
        open_step(pre, trader, symbol, size, margin, limit_price, now, quote) matches Ok(out) ==> {
            &&& out.0.market(other).skew_scale == pre.market(other).skew_scale
            &&& out.0.market(other).funding == pre.market(other).funding
        },
        close_step(pre, trader, symbol, size, limit_price, now, quote) matches Ok(out) ==> {
            &&& out.0.market(other).skew_scale == pre.market(other).skew_scale
            &&& out.0.market(other).funding == pre.market(other).funding
        },
        liquidate_step(pre, liquidator, trader, symbol, now, quote) matches Ok(out) ==> {
            &&& out.0.market(other).skew_scale == pre.market(other).skew_scale
            &&& out.0.market(other).funding == pre.market(other).funding
        },
        poke_step(pre, symbol, now, quote) matches Ok(out) ==> {
            &&& out.0.market(other).skew_scale == pre.market(other).skew_scale
            &&& out.0.market(other).reserve == pre.market(other).reserve
            &&& out.0.market(other).net_oi == pre.market(other).net_oi
            &&& out.0.accounts == pre.accounts
        },
{
}

/// The funding index only moves forward in time: a keeper's update never
/// sets its time stamp back, and one that moves the index stamps it with
/// the time of the update.
pub proof fn law_funding_time_advances(
    pre: PerpState,
    symbol: Seq<char>,
    now: u64,
    quote: Option<PriceData>,
)
    requires
        poke_step(pre, symbol, now, quote) is Ok,
    ensures
        ({
            let market = market_of(symbol)->Some_0;
            let out = poke_step(pre, symbol, now, quote)->Ok_0;
            &&& out.0.market(market).funding.last_update >= pre.market(market).funding.last_update
            &&& out.1 is Some ==> out.0.market(market).funding.last_update == now
            &&& out.1 is Some ==> out.0.market(market).funding.rate == pre.market(market).funding.rate
                + out.1->Some_0.delta_rate
            &&& out.1 is None ==> out.0 == pre
        }),
{
}

/// When the funding index has risen since a position was last settled, a
/// long owes funding and a short is owed it; when it has fallen, the
/// reverse.
pub proof fn law_funding_charges_longs_when_index_rises(position: Position, funding: FundingData)
    requires
        funding_payment(position, funding) is Ok,
    ensures
        ({
            let owed = funding_payment(position, funding)->Ok_0;
            let growth = funding.rate - position.funding_index;
            &&& growth >= 0 && position.size >= 0 ==> owed >= 0
            &&& growth >= 0 && position.size <= 0 ==> owed <= 0
            &&& growth <= 0 && position.size >= 0 ==> owed <= 0
            &&& growth <= 0 && position.size <= 0 ==> owed >= 0
        }),
{
    let growth = funding.rate - position.funding_index;
    let s = position.size as int;
    assert((growth >= 0 && s >= 0 ==> s * growth >= 0) && (growth >= 0 && s <= 0 ==> s * growth <= 0)
        && (growth <= 0 && s >= 0 ==> s * growth <= 0) && (growth <= 0 && s <= 0 ==> s * growth >= 0))
        by (nonlinear_arith);
    lemma_tdiv_bounds(s * growth, DEC_F as int);
}

} // verus!
