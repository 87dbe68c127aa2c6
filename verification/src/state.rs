//! The venue's state as a mathematical value.

use vstd::prelude::*;
use crate::account::{empty_account, Account};
use crate::types::{untouched_market, Market, MarketState, Position};

verus! {

/// Everything the venue keeps: who administers it, whether it is paused,
/// which asset it takes as collateral, the state of each instrument, and
/// the account of every trader.
pub struct PerpState {
    pub admin: Option<Seq<char>>,
    pub paused: bool,
    pub collateral_token: Option<Seq<char>>,
    pub xlm: MarketState,
    pub btc: MarketState,
    pub eth: MarketState,
    pub accounts: Map<Seq<char>, Account>,
}

impl PerpState {
    /// The state of `market`.
    pub open spec fn market(self, market: Market) -> MarketState {
        match market {
            Market::Xlm => self.xlm,
            Market::Btc => self.btc,
            Market::Eth => self.eth,
        }
    }

    /// This state with the state of `market` replaced.
    pub open spec fn with_market(self, market: Market, m: MarketState) -> PerpState {
        match market {
            Market::Xlm => PerpState { xlm: m, ..self },
            Market::Btc => PerpState { btc: m, ..self },
            Market::Eth => PerpState { eth: m, ..self },
        }
    }

    /// The account of `trader`.
    pub open spec fn account(self, trader: Seq<char>) -> Account {
        self.accounts[trader]
    }

    /// This state with the account of `trader` replaced.
    pub open spec fn with_account(self, trader: Seq<char>, account: Account) -> PerpState {
        PerpState { accounts: self.accounts.insert(trader, account), ..self }
    }

    /// The position of `trader` in `market`, if any.
    pub open spec fn position(self, trader: Seq<char>, market: Market) -> Option<Position> {
        self.account(trader).spec_position(market)
    }

    /// Collateral balance of `trader`.
    pub open spec fn collateral(self, trader: Seq<char>) -> i128 {
        self.account(trader).collateral
    }
}

/// The venue before anything has happened: no administrator, not paused,
/// untouched instruments and empty accounts.
pub open spec fn blank_state() -> PerpState {
    PerpState {
        admin: None,
        paused: false,
        collateral_token: None,
        xlm: untouched_market(),
        btc: untouched_market(),
        eth: untouched_market(),
        accounts: Map::total(|trader: Seq<char>| empty_account()),
    }
}

} // verus!
