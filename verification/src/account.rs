//! A trader's account: collateral and the positions that encumber it.

use vstd::prelude::*;
use crate::error::Error;
use crate::fixed::fits;
use crate::types::{Market, Position};

verus! {

/// What the venue keeps for one trader: the collateral balance and at most
/// one position per instrument.
#[derive(Clone, Copy, Debug, PartialEq, Eq, Structural)]
pub struct Account {
    pub collateral: i128,
    pub xlm: Option<Position>,
    pub btc: Option<Position>,
    pub eth: Option<Position>,
}

/// The account of a trader the venue has never heard of.
pub open spec fn empty_account() -> Account {
    Account { collateral: 0, xlm: None, btc: None, eth: None }
}

/// Margin that a position slot encumbers: none where it is empty.
pub open spec fn margin_in(slot: Option<Position>) -> int {
    match slot {
        Some(p) => p.margin as int,
        None => 0,
    }
}

impl Account {
    /// The position held in `market`, if any.
    pub open spec fn spec_position(self, market: Market) -> Option<Position> {
        match market {
            Market::Xlm => self.xlm,
            Market::Btc => self.btc,
            Market::Eth => self.eth,
        }
    }

    /// This account with the slot of `market` replaced.
    pub open spec fn spec_with_position(self, market: Market, slot: Option<Position>) -> Account {
        match market {
            Market::Xlm => Account { xlm: slot, ..self },
            Market::Btc => Account { btc: slot, ..self },
            Market::Eth => Account { eth: slot, ..self },
        }
    }

    /// This account with another collateral balance.
    pub open spec fn spec_with_collateral(self, collateral: i128) -> Account {
        Account { collateral, ..self }
    }

    /// Margin earmarked by all live positions together.
    pub open spec fn margin_used(self) -> int {
        margin_in(self.xlm) + margin_in(self.btc) + margin_in(self.eth)
    }

    /// Collateral that no position encumbers. It is `Overflow` where the
    /// margins, summed instrument by instrument, or the difference leave the
    /// 128-bit range.
    pub open spec fn free_collateral(self) -> Result<i128, Error> {
        if !fits(margin_in(self.xlm) + margin_in(self.btc)) || !fits(self.margin_used()) || !fits(
            self.collateral - self.margin_used(),
        ) {
            Err(Error::Overflow)
        } else {
            Ok((self.collateral - self.margin_used()) as i128)
        }
    }

    /// The account of a trader the venue has never heard of.
    pub fn empty() -> (a: Account)
        ensures
            a == empty_account(),
    {
        Account { collateral: 0, xlm: None, btc: None, eth: None }
    }

    /// The position held in `market`, if any.
    pub fn position(&self, market: Market) -> (p: Option<Position>)
        ensures
            p == self.spec_position(market),
    {
        match market {
            Market::Xlm => self.xlm,
            Market::Btc => self.btc,
            Market::Eth => self.eth,
        }
    }

    /// This account with the slot of `market` replaced.
    pub fn with_position(&self, market: Market, slot: Option<Position>) -> (a: Account)
        ensures
            a == self.spec_with_position(market, slot),
    {
        match market {
            Market::Xlm => Account { collateral: self.collateral, xlm: slot, btc: self.btc, eth: self.eth },
            Market::Btc => Account { collateral: self.collateral, xlm: self.xlm, btc: slot, eth: self.eth },
            Market::Eth => Account { collateral: self.collateral, xlm: self.xlm, btc: self.btc, eth: slot },
        }
    }

    /// Collateral minus the margin of every live position.
    pub fn calculate_free_collateral(&self) -> (r: Result<i128, Error>)
        ensures
            r == self.free_collateral(),
            r matches Ok(free) ==> free == self.collateral - self.margin_used(),
    {
        let mut total_margin_used: i128 = 0;
        if let Some(p) = self.xlm {
            total_margin_used = p.margin;
        }
        if let Some(p) = self.btc {
            total_margin_used = match total_margin_used.checked_add(p.margin) {
                Some(t) => t,
                None => { return Err(Error::Overflow); },
            };
        }
        if let Some(p) = self.eth {
            total_margin_used = match total_margin_used.checked_add(p.margin) {
                Some(t) => t,
                None => { return Err(Error::Overflow); },
            };
        }
        match self.collateral.checked_sub(total_margin_used) {
            Some(free) => Ok(free),
            None => Err(Error::Overflow),
        }
    }
}

} // verus!
