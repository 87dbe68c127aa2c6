//! Opening, closing and liquidating positions.

use vstd::prelude::*;
use crate::account::Account;
use crate::error::Error;
use crate::margin::{basis_points_of, notional};
use crate::perp::FlashPerp;
use crate::rules::{close_entry, close_step, follows, liquidate_entry, liquidate_step, open_entry, open_step};
use crate::settlement::{merge_position, settle_close, trade_market, value_close};
use crate::types::{same_text, Liquidation, Market, Position, PriceData, Settlement, BONUS_BP, IMR_BP, MMR_BP};

verus! {

impl FlashPerp {
    /// Whether an open can go on to be priced: the checks that need no
    /// oracle. Gives the instrument.
    pub fn check_open(&self, symbol: &str, size: i128, margin: i128) -> (r: Result<Market, Error>)
        ensures
            r == open_entry(self@, symbol@, size, margin),
    {
        if size == 0 || margin <= 0 {
            return Err(Error::InvalidAmount);
        }
        self.check_not_paused()?;
        match Market::from_symbol(symbol) {
            Some(market) => Ok(market),
            None => Err(Error::InvalidSymbol),
        }
    }

    /// Whether a close can go on to be priced: the checks that need no
    /// oracle. Gives the instrument and the position held.
    pub fn check_close(&self, trader: &str, symbol: &str, size: i128) -> (r: Result<(Market, Position), Error>)
        ensures
            r == close_entry(self@, trader@, symbol@, size),
    {
        if size == 0 {
            return Err(Error::InvalidAmount);
        }
        self.check_not_paused()?;
        let market = match Market::from_symbol(symbol) {
            Some(m) => m,
            None => { return Err(Error::PositionNotFound); },
        };
        let p = match self.account(trader).position(market) {
            Some(p) => p,
            None => { return Err(Error::PositionNotFound); },
        };
        let reduces = (size > 0 && p.size > 0 && size <= p.size) || (size < 0 && p.size < 0 && size
            >= p.size);
        if !reduces {
            return Err(Error::InvalidAmount);
        }
        Ok((market, p))
    }

    /// Whether a liquidation can go on to be priced: the checks that need
    /// no oracle. Gives the instrument and the position held.
    pub fn check_liquidate(&self, liquidator: &str, trader: &str, symbol: &str) -> (r: Result<
        (Market, Position),
        Error,
    >)
        ensures
            r == liquidate_entry(self@, liquidator@, trader@, symbol@),
    {
        if same_text(liquidator, trader) {
            return Err(Error::SelfLiquidation);
        }
        self.check_not_paused()?;
        let market = match Market::from_symbol(symbol) {
            Some(m) => m,
            None => { return Err(Error::PositionNotFound); },
        };
        match self.account(trader).position(market) {
            Some(p) => Ok((market, p)),
            None => Err(Error::PositionNotFound),
        }
    }

    /// Opens `size` in `symbol` for `trader` (positive for a long, negative
    /// for a short) against `margin` of the trader's free collateral, at the
    /// mark price of time `now`, unless that price is worse than
    /// `limit_price`.
    ///
    /// The margin must cover the initial requirement on the trade's notional
    /// and must not exceed the trader's free collateral. The trade moves the
    /// pool and the net open interest, and is merged into the position the
    /// trader already holds, whose funding index is taken anew. A trade
    /// that offsets the position exactly deletes it: nothing is settled,
    /// and all its margin is free again. Returns the mark price at which
    /// the trade was made.
    pub fn open_position(
        &mut self,
        trader: &str,
        symbol: &str,
        size: i128,
        margin: i128,
        limit_price: i128,
        now: u64,
        quote: Option<PriceData>,
    ) -> (r: Result<i128, Error>)
        ensures
            follows(
                old(self)@,
                final(self)@,
                r,
                open_step(old(self)@, trader@, symbol@, size, margin, limit_price, now, quote),
            ),
    {
        let market = self.check_open(symbol, size, margin)?;
        let m = self.market(market);
        let mark = self.get_mark_price(market, now, quote)?;
        if (size > 0 && mark > limit_price) || (size < 0 && mark < limit_price) {
            return Err(Error::SlippageExceeded);
        }
        let notional = notional(size, mark)?;
        let required_margin = basis_points_of(notional, IMR_BP)?;
        if margin < required_margin {
            return Err(Error::InsufficientCollateral);
        }
        let account = self.account(trader);
        let free_collateral = account.calculate_free_collateral()?;
        if margin > free_collateral {
            return Err(Error::InsufficientCollateral);
        }
        let traded = trade_market(&m, size, size)?;
        let slot = merge_position(account.position(market), size, notional, margin, m.funding.rate)?;
        self.set_market(market, traded);
        self.set_account(trader, account.with_position(market, slot));
        Ok(mark)
    }

    /// Liquidates the position that `trader` holds in `symbol`, on behalf of
    /// `liquidator`, at the mark price of time `now`.
    ///
    /// The position must be below the maintenance requirement. It is traded
    /// back into the pool in full and deleted; its margin is not returned.
    /// The liquidator is credited the bonus on the position's notional.
    /// Returns the size closed and the bonus paid.
    pub fn liquidate(
        &mut self,
        liquidator: &str,
        trader: &str,
        symbol: &str,
        now: u64,
        quote: Option<PriceData>,
    ) -> (r: Result<Liquidation, Error>)
        ensures
            follows(
                old(self)@,
                final(self)@,
                r,
                liquidate_step(old(self)@, liquidator@, trader@, symbol@, now, quote),
            ),
    {
        let (market, p) = self.check_liquidate(liquidator, trader, symbol)?;
        let account = self.account(trader);
        let m = self.market(market);
        let mark = self.get_mark_price(market, now, quote)?;
        let margin_ratio = FlashPerp::calculate_margin_ratio(&p, mark)?;
        if margin_ratio >= MMR_BP {
            return Err(Error::BelowMaintenanceMargin);
        }
        let current_notional = notional(p.size, mark)?;
        let liquidation_bonus = basis_points_of(current_notional, BONUS_BP)?;
        let traded = trade_market(&m, -p.size, -p.size)?;
        let keeper = self.account(liquidator);
        let rewarded = match keeper.collateral.checked_add(liquidation_bonus) {
            Some(c) => c,
            None => { return Err(Error::Overflow); },
        };
        self.set_market(market, traded);
        self.set_account(trader, account.with_position(market, None));
        self.set_account(liquidator, Account { collateral: rewarded, ..keeper });
        Ok(Liquidation { size: p.size, bonus: liquidation_bonus })
    }

    /// Closes `size` of the position that `trader` holds in `symbol`, at the
    /// mark price of time `now`, unless that price is worse than
    /// `limit_price`.
    ///
    /// The part closed is valued at the mark price and set against its share
    /// of the entry notional; it is traded back into the pool; the funding
    /// that the whole position owes is settled; the trader is credited the
    /// margin released and the profit, less the funding. A position closed
    /// in full is deleted. Returns the profit and the funding charged.
    pub fn close_position(
        &mut self,
        trader: &str,
        symbol: &str,
        size: i128,
        limit_price: i128,
        now: u64,
        quote: Option<PriceData>,
    ) -> (r: Result<Settlement, Error>)
        ensures
            follows(
                old(self)@,
                final(self)@,
                r,
                close_step(old(self)@, trader@, symbol@, size, limit_price, now, quote),
            ),
    {
        let (market, p) = self.check_close(trader, symbol, size)?;
        let account = self.account(trader);
        let m = self.market(market);
        let mark = self.get_mark_price(market, now, quote)?;
        if (size > 0 && mark < limit_price) || (size < 0 && mark > limit_price) {
            return Err(Error::SlippageExceeded);
        }
        let v = value_close(&p, size, mark)?;
        let traded = trade_market(&m, -size, -size)?;
        let residue = settle_close(&p, &m.funding, account.collateral, size, &v)?;
        self.set_market(market, traded);
        self.set_account(
            trader,
            Account { collateral: residue.collateral, ..account }.with_position(market, residue.rest),
        );
        Ok(Settlement { pnl: v.pnl, funding_payment: residue.funding })
    }
}

} // verus!
