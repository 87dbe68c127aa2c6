//! The funding index: how far a keeper's update moves it.

use vstd::prelude::*;
use crate::error::Error;
use crate::fixed::{abs, checked_mul_div, clamp, clamp_to, fits, lemma_tdiv_abs, lemma_tdiv_exact, mul_div, tdiv};
use crate::perp::FlashPerp;
use crate::pricing::{compute_mark_price, scaled_oracle_price};
use crate::rules::{follows, poke_entry, poke_step, update_step};
use crate::types::{FundingData, FundingUpdate, Market, MarketState, PriceData, BP, FUNDING_PERIOD, KAPPA, MAX_DRIFT_BP, MAX_FUNDING_VEL_BP, SECONDS_PER_DAY};

verus! {

/// Premium of the mark price over the oracle price in basis points, limited
/// to the drift band. There is none for an oracle price of zero.
pub open spec fn capped_premium_bp(price: i128, mark: i128) -> Result<i128, Error> {
    if price == 0 || !fits(mark - price) || !fits((mark - price) * BP) || !fits(
        mul_div(mark - price, BP as int, price as int),
    ) {
        Err(Error::Overflow)
    } else {
        Ok(clamp(mul_div(mark - price, BP as int, price as int), MAX_DRIFT_BP as int) as i128)
    }
}

/// Growth of the funding index over `elapsed` seconds at a premium of
/// `premium_bp`: at full drift the index moves `MAX_FUNDING_VEL_BP` a day.
pub open spec fn funding_growth(premium_bp: int, elapsed: int) -> int {
    tdiv(premium_bp * MAX_FUNDING_VEL_BP * elapsed, MAX_DRIFT_BP * SECONDS_PER_DAY)
}

/// How far the funding index moves when `elapsed` seconds have passed at
/// the given oracle and mark prices.
pub open spec fn funding_delta(price: i128, mark: i128, elapsed: u64) -> Result<i128, Error> {
    match capped_premium_bp(price, mark) {
        Err(e) => Err(e),
        Ok(premium) => Ok(funding_growth(premium as int, elapsed as int) as i128),
    }
}

/// How far the administrator's update moves the funding index: the premium
/// of `mark` over the reference `price`, relative to that price, times the
/// gain `KAPPA`. There is none for a reference price of zero.
pub open spec fn funding_nudge(price: i128, mark: i128) -> Result<i128, Error> {
    if price == 0 || !fits(mark - price) || !fits((mark - price) * KAPPA) || !fits(
        mul_div(mark - price, KAPPA as int, price as int),
    ) {
        Err(Error::Overflow)
    } else {
        Ok(mul_div(mark - price, KAPPA as int, price as int) as i128)
    }
}

/// The gain is set so that the administrator's update at a premium equals a
/// day of keeper's updates at that premium: where the premium is a whole
/// number of basis points within the drift band, the two movements are the
/// same.
pub proof fn law_nudge_equals_a_day_of_keeper_funding(price: i128, mark: i128)
    requires
        price > 0,
        funding_nudge(price, mark) is Ok,
        capped_premium_bp(price, mark) is Ok,
        (mark - price) * BP == capped_premium_bp(price, mark)->Ok_0 * price,
    ensures
        funding_nudge(price, mark) == funding_delta(price, mark, SECONDS_PER_DAY as u64),
{
    let bp = capped_premium_bp(price, mark)->Ok_0 as int;
    let premium = mark - price;
    let p = price as int;
    // premium * BP == bp * p, so premium * KAPPA == (bp * 10) * p
    assert(premium * KAPPA == (bp * 10) * p) by (nonlinear_arith)
        requires
            premium * 10_000 == bp * p,
            KAPPA == 100_000,
    ;
    lemma_tdiv_exact(bp * 10, p);
    assert(bp * MAX_FUNDING_VEL_BP * SECONDS_PER_DAY == (bp * 10) * (MAX_DRIFT_BP * SECONDS_PER_DAY))
        by (nonlinear_arith)
        requires
            MAX_FUNDING_VEL_BP == 1_000,
            MAX_DRIFT_BP == 100,
    ;
    lemma_tdiv_exact(bp * 10, MAX_DRIFT_BP * SECONDS_PER_DAY);
}

/// The growth of the index is bounded by the time elapsed: ten times the
/// seconds, divided by a day's.
pub proof fn lemma_growth_is_bounded(premium_bp: int, elapsed: int)
    requires
        -MAX_DRIFT_BP <= premium_bp <= MAX_DRIFT_BP,
        0 <= elapsed <= u64::MAX,
    ensures
        abs(premium_bp * MAX_FUNDING_VEL_BP * elapsed) <= 100_000 * elapsed,
        fits(premium_bp * MAX_FUNDING_VEL_BP * elapsed),
        fits(funding_growth(premium_bp, elapsed)),
        abs(funding_growth(premium_bp, elapsed)) <= 100_000 * elapsed,
{
    let v = premium_bp * MAX_FUNDING_VEL_BP;
    assert(-100_000 <= v <= 100_000);
    assert(abs(v * elapsed) <= 100_000 * elapsed) by (nonlinear_arith)
        requires
            -100_000 <= v <= 100_000,
            0 <= elapsed,
    ;
    lemma_tdiv_abs(v * elapsed, MAX_DRIFT_BP * SECONDS_PER_DAY);
}

/// How far the funding index moves when `elapsed` seconds have passed at
/// the given oracle and mark prices.
pub fn compute_funding_delta(price: i128, mark: i128, elapsed: u64) -> (r: Result<i128, Error>)
    ensures
        r == funding_delta(price, mark, elapsed),
{
    let premium = match mark.checked_sub(price) {
        Some(p) => p,
        None => { return Err(Error::Overflow); },
    };
    let premium_bp = match checked_mul_div(premium, BP, price) {
        Some(p) => p,
        None => { return Err(Error::Overflow); },
    };
    let capped = clamp_to(premium_bp, MAX_DRIFT_BP);
    proof {
        lemma_growth_is_bounded(capped as int, elapsed as int);
    }
    let velocity: i128 = capped * MAX_FUNDING_VEL_BP;
    let numerator: i128 = velocity * (elapsed as i128);
    let denominator: i128 = MAX_DRIFT_BP * SECONDS_PER_DAY;
    Ok(numerator / denominator)
}

/// How far the administrator's update moves the funding index.
pub fn compute_funding_nudge(price: i128, mark: i128) -> (r: Result<i128, Error>)
    ensures
        r == funding_nudge(price, mark),
{
    let premium = match mark.checked_sub(price) {
        Some(p) => p,
        None => { return Err(Error::Overflow); },
    };
    match checked_mul_div(premium, KAPPA, price) {
        Some(delta) => Ok(delta),
        None => Err(Error::Overflow),
    }
}

impl FlashPerp {
    /// Whether a keeper's update has anything to do at time `now`: the
    /// checks that need no oracle. Gives the instrument whose funding index
    /// is due to move, or `None` where it moved less than a full period ago.
    pub fn check_poke(&self, symbol: &str, now: u64) -> (r: Result<Option<Market>, Error>)
        ensures
            r == poke_entry(self@, symbol@, now),
    {
        self.check_not_paused()?;
        let market = match Market::from_symbol(symbol) {
            Some(m) => m,
            None => { return Err(Error::InvalidSymbol); },
        };
        let last_update = self.market(market).funding.last_update;
        if now < last_update || now - last_update < FUNDING_PERIOD {
            Ok(None)
        } else {
            Ok(Some(market))
        }
    }

    /// The administrator's update of the funding index of `symbol` against
    /// a trusted `reference_price`: a single nudge of the index by the
    /// premium of the mark price over the reference, relative to the
    /// reference, times the gain `KAPPA`. Returns the movement.
    pub fn update_funding(&mut self, symbol: &str, reference_price: i128) -> (r: Result<
        i128,
        Error,
    >)
        ensures
            follows(
                old(self)@,
                final(self)@,
                r,
                update_step(old(self)@, symbol@, reference_price),
            ),
    {
        if self.get_admin().is_err() {
            return Err(Error::NotInitialized);
        }
        self.check_not_paused()?;
        let market = match Market::from_symbol(symbol) {
            Some(m) => m,
            None => { return Err(Error::InvalidSymbol); },
        };
        let m = self.market(market);
        let mark_price = compute_mark_price(reference_price, m.net_oi, m.skew_scale)?;
        let delta_rate = compute_funding_nudge(reference_price, mark_price)?;
        let rate = match m.funding.rate.checked_add(delta_rate) {
            Some(r) => r,
            None => { return Err(Error::Overflow); },
        };
        self.set_market(
            market,
            MarketState {
                reserve: m.reserve,
                funding: FundingData { rate, last_update: m.funding.last_update },
                net_oi: m.net_oi,
                skew_scale: m.skew_scale,
            },
        );
        Ok(delta_rate)
    }

    /// A keeper's update of the funding index of `symbol` at time `now`.
    ///
    /// Anyone may call it, as often as they like: before a full period has
    /// passed since the index last moved nothing happens. After it, the
    /// index moves toward the premium of the mark price over the oracle
    /// price, in proportion to the time elapsed, and is stamped `now`.
    /// Returns the movement, or `None` where nothing happened.
    pub fn poke_funding(&mut self, symbol: &str, now: u64, quote: Option<PriceData>) -> (r: Result<
        Option<FundingUpdate>,
        Error,
    >)
        ensures
            follows(old(self)@, final(self)@, r, poke_step(old(self)@, symbol@, now, quote)),
    {
        let market = match self.check_poke(symbol, now)? {
            Some(m) => m,
            None => { return Ok(None); },
        };
        let m = self.market(market);
        let oracle_price = scaled_oracle_price(quote, now)?;
        let mark_price = compute_mark_price(oracle_price, m.net_oi, m.skew_scale)?;
        let delta_rate = compute_funding_delta(oracle_price, mark_price, now - m.funding.last_update)?;
        let rate = match m.funding.rate.checked_add(delta_rate) {
            Some(r) => r,
            None => { return Err(Error::Overflow); },
        };
        self.set_market(
            market,
            MarketState {
                reserve: m.reserve,
                funding: FundingData { rate, last_update: now },
                net_oi: m.net_oi,
                skew_scale: m.skew_scale,
            },
        );
        Ok(Some(FundingUpdate { delta_rate, oracle_price, mark_price }))
    }
}

} // verus!
