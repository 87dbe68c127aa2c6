//! The venue: its state and the operations on it.

use vstd::prelude::*;
use crate::account::Account;
use crate::error::Error;
use crate::fixed::{checked_mul_div, lemma_tdiv_abs};
use crate::ledger::Ledger;
use crate::pricing::{compute_mark_price, oracle_price, quoted_mark_price, scaled_oracle_price};
use crate::rules::{deposit_step, follows, initial_skew_scale, initialize_step, pause_step, seeded_market, set_token_step, withdraw_step};
use crate::state::{blank_state, PerpState};
use crate::types::{market_of, same_text, FundingData, Market, MarketState, Position, PriceData, Quotes, Reserve, DEC_P, FALLBACK_PRICE, INITIAL_BASE};

verus! {

/// A perpetual-futures venue. Every operation either succeeds and moves the
/// venue to the state its contract names, or fails and leaves it untouched.
pub struct FlashPerp {
    admin: Option<String>,
    paused: bool,
    collateral_token: Option<String>,
    xlm: MarketState,
    btc: MarketState,
    eth: MarketState,
    ledger: Ledger,
}

/// The characters of an optional text.
pub open spec fn text_of(s: Option<String>) -> Option<Seq<char>> {
    match s {
        Some(t) => Some(t@),
        None => None,
    }
}

/// Open interest that moves the mark price of the instrument `symbol` by
/// one basis point, as set at initialization.
pub fn default_skew_scale(symbol: &str) -> (r: Result<i128, Error>)
    ensures
        r == (match market_of(symbol@) {
            Some(market) => Ok::<i128, Error>(initial_skew_scale(market)),
            None => Err::<i128, Error>(Error::InvalidSymbol),
        }),
{
    match Market::from_symbol(symbol) {
        Some(Market::Xlm) => Ok(10_000_000_000),
        Some(Market::Btc) => Ok(1_000_000),
        Some(Market::Eth) => Ok(100_000_000),
        None => Err(Error::InvalidSymbol),
    }
}

/// The state in which `market` starts at time `now`, given what the oracle
/// says of it.
pub fn seed_market(market: Market, quote: Option<PriceData>, now: u64) -> (r: Result<MarketState, Error>)
    ensures
        r == seeded_market(market, quote, now),
{
    let price = match scaled_oracle_price(quote, now) {
        Ok(p) => p,
        Err(_) => FALLBACK_PRICE,
    };
    proof {
        lemma_tdiv_abs(INITIAL_BASE * price, DEC_P as int);
    }
    let quote_init = match checked_mul_div(INITIAL_BASE, price, DEC_P) {
        Some(q) => q,
        None => { return Err(Error::Overflow); },
    };
    let skew_scale: i128 = match market {
        Market::Xlm => 10_000_000_000,
        Market::Btc => 1_000_000,
        Market::Eth => 100_000_000,
    };
    Ok(
        MarketState {
            reserve: Reserve { base: INITIAL_BASE, quote: quote_init },
            funding: FundingData { rate: 0, last_update: now },
            net_oi: 0,
            skew_scale,
        },
    )
}

impl FlashPerp {
    /// The venue's state.
    pub closed spec fn view(&self) -> PerpState {
        PerpState {
            admin: text_of(self.admin),
            paused: self.paused,
            collateral_token: text_of(self.collateral_token),
            xlm: self.xlm,
            btc: self.btc,
            eth: self.eth,
            accounts: self.ledger@,
        }
    }

    /// A venue to which nothing has happened yet.
    pub fn new() -> (perp: FlashPerp)
        ensures
            perp@ == blank_state(),
    {
        FlashPerp {
            admin: None,
            paused: false,
            collateral_token: None,
            xlm: MarketState::untouched(),
            btc: MarketState::untouched(),
            eth: MarketState::untouched(),
            ledger: Ledger::new(),
        }
    }

    /// A venue with the given administrator, pause flag and collateral
    /// asset, untouched instruments and empty accounts.
    pub fn restore(admin: Option<String>, paused: bool, collateral_token: Option<String>) -> (perp:
        FlashPerp)
        ensures
            perp@ == (PerpState {
                admin: text_of(admin),
                paused,
                collateral_token: text_of(collateral_token),
                ..blank_state()
            }),
    {
        FlashPerp {
            admin,
            paused,
            collateral_token,
            xlm: MarketState::untouched(),
            btc: MarketState::untouched(),
            eth: MarketState::untouched(),
            ledger: Ledger::new(),
        }
    }

    /// Sets the venue up at time `now`: names its administrator and its
    /// collateral asset, and seeds the pool of every instrument at the price
    /// the oracle gives for it, or at 1.0 where it gives none.
    pub fn initialize(&mut self, admin: &str, token_addr: &str, now: u64, quotes: &Quotes) -> (r: Result<
        (),
        Error,
    >)
        ensures
            follows(
                old(self)@,
                final(self)@,
                r,
                initialize_step(old(self)@, admin@, token_addr@, now, *quotes),
            ),
    {
        if self.admin.is_some() {
            return Err(Error::AlreadyInitialized);
        }
        let xlm = seed_market(Market::Xlm, quotes.xlm, now)?;
        let btc = seed_market(Market::Btc, quotes.btc, now)?;
        let eth = seed_market(Market::Eth, quotes.eth, now)?;
        self.admin = Some(admin.to_owned());
        self.paused = false;
        self.collateral_token = Some(token_addr.to_owned());
        self.xlm = xlm;
        self.btc = btc;
        self.eth = eth;
        Ok(())
    }

    /// Credits `amount` of collateral to `trader`.
    pub fn deposit_collateral(&mut self, trader: &str, amount: i128) -> (r: Result<(), Error>)
        ensures
            follows(old(self)@, final(self)@, r, deposit_step(old(self)@, trader@, amount)),
    {
        if amount <= 0 {
            return Err(Error::InvalidAmount);
        }
        self.check_not_paused()?;
        let account = self.account(trader);
        let new_collateral = match account.collateral.checked_add(amount) {
            Some(c) => c,
            None => { return Err(Error::Overflow); },
        };
        self.set_account(trader, Account { collateral: new_collateral, ..account });
        Ok(())
    }

    /// Takes `amount` of collateral from `trader`, who may take no more than
    /// no position encumbers.
    pub fn withdraw_collateral(&mut self, trader: &str, amount: i128) -> (r: Result<(), Error>)
        ensures
            follows(old(self)@, final(self)@, r, withdraw_step(old(self)@, trader@, amount)),
    {
        if amount <= 0 {
            return Err(Error::InvalidAmount);
        }
        self.check_not_paused()?;
        let account = self.account(trader);
        let free_collateral = account.calculate_free_collateral()?;
        if amount > free_collateral {
            return Err(Error::InsufficientCollateral);
        }
        let new_collateral = match account.collateral.checked_sub(amount) {
            Some(c) => c,
            None => { return Err(Error::Overflow); },
        };
        self.set_account(trader, Account { collateral: new_collateral, ..account });
        Ok(())
    }

    /// The position that `trader` holds in `symbol`: none where the trader
    /// holds nothing there, or the instrument is not listed.
    pub fn get_position(&self, trader: &str, symbol: &str) -> (p: Option<Position>)
        ensures
            p == (match market_of(symbol@) {
                Some(market) => self@.position(trader@, market),
                None => None,
            }),
    {
        match Market::from_symbol(symbol) {
            Some(market) => self.account(trader).position(market),
            None => None,
        }
    }

    /// Collateral of `trader` that no position encumbers: the balance less
    /// the margin of every live position.
    pub fn get_free_collateral(&self, trader: &str) -> (r: Result<i128, Error>)
        ensures
            r == self@.account(trader@).free_collateral(),
            r matches Ok(free) ==> free == self@.collateral(trader@) - self@.account(
                trader@,
            ).margin_used(),
    {
        self.account(trader).calculate_free_collateral()
    }

    /// The mark price of the instrument `symbol` at time `now`, given what
    /// the oracle last said of it.
    pub fn get_mark_price_view(&self, symbol: &str, now: u64, quote: Option<PriceData>) -> (r: Result<
        i128,
        Error,
    >)
        ensures
            r == (match market_of(symbol@) {
                Some(market) => quoted_mark_price(
                    quote,
                    now,
                    self@.market(market).net_oi,
                    self@.market(market).skew_scale,
                ),
                None => Err(Error::InvalidSymbol),
            }),
    {
        match Market::from_symbol(symbol) {
            Some(market) => self.get_mark_price(market, now, quote),
            None => Err(Error::InvalidSymbol),
        }
    }

    /// The oracle's price at the venue's scale, at time `now`.
    pub fn get_oracle_price(now: u64, quote: Option<PriceData>) -> (r: Result<i128, Error>)
        ensures
            r == oracle_price(quote, now),
    {
        scaled_oracle_price(quote, now)
    }

    /// Pauses the venue.
    pub fn pause(&mut self) -> (r: Result<(), Error>)
        ensures
            follows(old(self)@, final(self)@, r, pause_step(old(self)@, true)),
    {
        if self.admin.is_none() {
            return Err(Error::NotInitialized);
        }
        self.paused = true;
        Ok(())
    }

    /// Resumes the venue.
    pub fn unpause(&mut self) -> (r: Result<(), Error>)
        ensures
            follows(old(self)@, final(self)@, r, pause_step(old(self)@, false)),
    {
        if self.admin.is_none() {
            return Err(Error::NotInitialized);
        }
        self.paused = false;
        Ok(())
    }

    /// Names another collateral asset, on behalf of `admin`.
    pub fn set_collateral_token(&mut self, admin: &str, token_addr: &str) -> (r: Result<(), Error>)
        ensures
            follows(
                old(self)@,
                final(self)@,
                r,
                set_token_step(old(self)@, admin@, token_addr@),
            ),
    {
        let authorized = match &self.admin {
            None => { return Err(Error::NotInitialized); },
            Some(stored) => same_text(stored.as_str(), admin),
        };
        if !authorized {
            return Err(Error::Unauthorized);
        }
        self.collateral_token = Some(token_addr.to_owned());
        Ok(())
    }

    /// The administrator, or `NotInitialized` where none is set.
    pub fn get_admin(&self) -> (r: Result<&str, Error>)
        ensures
            match self@.admin {
                Some(admin) => r is Ok && r->Ok_0@ == admin,
                None => r == Err::<&str, Error>(Error::NotInitialized),
            },
    {
        match &self.admin {
            Some(admin) => Ok(admin.as_str()),
            None => Err(Error::NotInitialized),
        }
    }

    /// The collateral asset, if one is named.
    pub fn collateral_token(&self) -> (r: Option<&str>)
        ensures
            match self@.collateral_token {
                Some(token) => r is Some && r->Some_0@ == token,
                None => r is None,
            },
    {
        match &self.collateral_token {
            Some(token) => Some(token.as_str()),
            None => None,
        }
    }

    /// Whether the venue is paused.
    pub fn is_paused(&self) -> (paused: bool)
        ensures
            paused == self@.paused,
    {
        self.paused
    }

    /// Accepts the symbol of a listed instrument and refuses any other with
    /// `InvalidSymbol`.
    pub fn validate_symbol(symbol: &str) -> (r: Result<(), Error>)
        ensures
            r == (if market_of(symbol@) is Some {
                Ok::<(), Error>(())
            } else {
                Err::<(), Error>(Error::InvalidSymbol)
            }),
    {
        match Market::from_symbol(symbol) {
            Some(_) => Ok(()),
            None => Err(Error::InvalidSymbol),
        }
    }

    /// The state of `market`.
    pub fn market(&self, market: Market) -> (m: MarketState)
        ensures
            m == self@.market(market),
    {
        match market {
            Market::Xlm => self.xlm,
            Market::Btc => self.btc,
            Market::Eth => self.eth,
        }
    }

    /// Replaces the state of `market`, as when the venue is read back from
    /// where it is stored.
    pub fn set_market(&mut self, market: Market, m: MarketState)
        ensures
            final(self)@ == old(self)@.with_market(market, m),
    {
        match market {
            Market::Xlm => { self.xlm = m; },
            Market::Btc => { self.btc = m; },
            Market::Eth => { self.eth = m; },
        }
    }

    /// Refuses with `Paused` while the venue is paused.
    pub fn check_not_paused(&self) -> (r: Result<(), Error>)
        ensures
            r == (if self@.paused {
                Err::<(), Error>(Error::Paused)
            } else {
                Ok::<(), Error>(())
            }),
    {
        if self.paused {
            Err(Error::Paused)
        } else {
            Ok(())
        }
    }

    /// The mark price of `market` at time `now`, given what the oracle last
    /// said of it: the oracle price moved by the market's skew.
    pub fn get_mark_price(&self, market: Market, now: u64, quote: Option<PriceData>) -> (r: Result<
        i128,
        Error,
    >)
        ensures
            r == quoted_mark_price(
                quote,
                now,
                self@.market(market).net_oi,
                self@.market(market).skew_scale,
            ),
    {
        let oracle_price = scaled_oracle_price(quote, now)?;
        let m = self.market(market);
        compute_mark_price(oracle_price, m.net_oi, m.skew_scale)
    }

    /// The account of `trader`.
    pub fn account(&self, trader: &str) -> (a: Account)
        ensures
            a == self@.account(trader@),
    {
        self.ledger.get(trader)
    }

    /// Replaces the account of `trader`, as when the venue is read back from
    /// where it is stored. Every other account stays as it is.
    pub fn set_account(&mut self, trader: &str, account: Account)
        ensures
            final(self)@ == old(self)@.with_account(trader@, account),
    {
        self.ledger.put(trader, account);
    }
}

} // verus!
