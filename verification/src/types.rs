//! The records the venue keeps, and the instruments it lists.

use vstd::prelude::*;

verus! {

/// Scale of a price: six decimals.
pub const DEC_P: i128 = 1_000_000;

/// Scale of the cumulative funding index: eighteen decimals.
pub const DEC_F: i128 = 1_000_000_000_000_000_000;

/// One hundred per cent in basis points.
pub const BP: i128 = 10_000;

/// Initial margin requirement: 20 % of notional.
pub const IMR_BP: i128 = 2_000;

/// Maintenance margin requirement: 10 % of notional.
pub const MMR_BP: i128 = 1_000;

/// Bonus paid to a liquidator: 2 % of notional.
pub const BONUS_BP: i128 = 200;

/// Largest premium or discount of the mark price to the oracle price: 1 %.
pub const MAX_DRIFT_BP: i128 = 100;

/// Fee kept by the pool: 0.05 % of the quote moved.
pub const FEE_BP: i128 = 5;

/// The oracle quotes prices with fourteen decimals; dividing by this gives six.
pub const ORACLE_DIVISOR: i128 = 100_000_000;

/// Seconds after which an oracle price is stale.
pub const ORACLE_MAX_AGE: u64 = 900;

/// Seconds that must pass between two funding updates by a keeper.
pub const FUNDING_PERIOD: u64 = 1_800;

/// Largest funding velocity, in basis points per day, reached at full drift.
pub const MAX_FUNDING_VEL_BP: i128 = 1_000;

/// Seconds in a day.
pub const SECONDS_PER_DAY: i128 = 86_400;

/// Gain of the administrator's funding update: how far the funding index
/// moves for a premium as large as the reference price itself.
///
/// It is `MAX_FUNDING_VEL_BP * BP / MAX_DRIFT_BP`, so that one update moves
/// the index as far as a keeper's updates move it in a day at the same
/// premium: 1 000 at a premium of 1 %.
pub const KAPPA: i128 = 100_000;

/// Base units seeded into every pool at initialization.
pub const INITIAL_BASE: i128 = 1_000_000_000;

/// Oracle price assumed at initialization where the oracle gives none: 1.0.
pub const FALLBACK_PRICE: i128 = 1_000_000;

/// Pooled balances of one instrument.
#[derive(Clone, Copy, Debug, PartialEq, Eq, Structural)]
pub struct Reserve {
    pub base: i128,
    pub quote: i128,
}

/// Cumulative funding index of one instrument and the time it last moved.
#[derive(Clone, Copy, Debug, PartialEq, Eq, Structural)]
pub struct FundingData {
    pub rate: i128,
    pub last_update: u64,
}

/// One trader's position in one instrument. `size` is positive for a long
/// and negative for a short; `funding_index` is the funding index at the last
/// settlement.
#[derive(Clone, Copy, Debug, PartialEq, Eq, Structural)]
pub struct Position {
    pub size: i128,
    pub notional: i128,
    pub margin: i128,
    pub funding_index: i128,
}

/// What the oracle last said of an instrument: a price with fourteen
/// decimals and the time it was observed.
#[derive(Clone, Copy, Debug, PartialEq, Eq, Structural)]
pub struct PriceData {
    pub price: i128,
    pub timestamp: u64,
}

/// An instrument the venue lists.
#[derive(Clone, Copy, Debug, PartialEq, Eq, Structural)]
pub enum Market {
    Xlm,
    Btc,
    Eth,
}

/// Everything the venue keeps per instrument.
#[derive(Clone, Copy, Debug, PartialEq, Eq, Structural)]
pub struct MarketState {
    pub reserve: Reserve,
    pub funding: FundingData,
    /// Sum of all position sizes: longs minus shorts.
    pub net_oi: i128,
    /// Open interest that moves the mark price by one basis point.
    pub skew_scale: i128,
}

/// What closing part of a position settled: the profit or loss realized on
/// the part closed, and the funding charged on the whole position.
#[derive(Clone, Copy, Debug, PartialEq, Eq, Structural)]
pub struct Settlement {
    pub pnl: i128,
    pub funding_payment: i128,
}

/// What a liquidation closed and what it paid the liquidator.
#[derive(Clone, Copy, Debug, PartialEq, Eq, Structural)]
pub struct Liquidation {
    pub size: i128,
    pub bonus: i128,
}

/// A movement of the funding index, with the prices it was computed from.
#[derive(Clone, Copy, Debug, PartialEq, Eq, Structural)]
pub struct FundingUpdate {
    pub delta_rate: i128,
    pub oracle_price: i128,
    pub mark_price: i128,
}

/// What the oracle last said of each listed instrument.
#[derive(Clone, Copy, Debug, PartialEq, Eq, Structural)]
pub struct Quotes {
    pub xlm: Option<PriceData>,
    pub btc: Option<PriceData>,
    pub eth: Option<PriceData>,
}

/// The instrument that `symbol` names, if the venue lists it.
pub open spec fn market_of(symbol: Seq<char>) -> Option<Market> {
    if symbol == "XLM"@ {
        Some(Market::Xlm)
    } else if symbol == "BTC"@ {
        Some(Market::Btc)
    } else if symbol == "ETH"@ {
        Some(Market::Eth)
    } else {
        None
    }
}

/// The state of an instrument nothing has been written to: empty pool, no
/// funding, no open interest, and a skew scale of one.
pub open spec fn untouched_market() -> MarketState {
    MarketState {
        reserve: Reserve { base: 0, quote: 0 },
        funding: FundingData { rate: 0, last_update: 0 },
        net_oi: 0,
        skew_scale: 1,
    }
}

/// Whether two texts hold the same characters.
pub fn same_text(a: &str, b: &str) -> (r: bool)
    ensures
        r == (a@ == b@),
{
    let x = a.to_owned();
    let y = b.to_owned();
    x == y
}

impl Market {
    /// The symbol under which the instrument is listed.
    pub open spec fn spec_symbol(self) -> Seq<char> {
        match self {
            Market::Xlm => "XLM"@,
            Market::Btc => "BTC"@,
            Market::Eth => "ETH"@,
        }
    }

    /// The instrument that `symbol` names, if the venue lists it.
    pub fn from_symbol(symbol: &str) -> (r: Option<Market>)
        ensures
            r == market_of(symbol@),
    {
        if same_text(symbol, "XLM") {
            Some(Market::Xlm)
        } else if same_text(symbol, "BTC") {
            Some(Market::Btc)
        } else if same_text(symbol, "ETH") {
            Some(Market::Eth)
        } else {
            None
        }
    }

    /// The symbol under which the instrument is listed.
    pub fn symbol(&self) -> (s: &'static str)
        ensures
            s@ == self.spec_symbol(),
    {
        match self {
            Market::Xlm => "XLM",
            Market::Btc => "BTC",
            Market::Eth => "ETH",
        }
    }
}

/// Every listed instrument is found again under its own symbol.
pub proof fn lemma_symbol_round_trip(m: Market)
    ensures
        market_of(m.spec_symbol()) == Some(m),
{
    reveal_strlit("XLM");
    reveal_strlit("BTC");
    reveal_strlit("ETH");
    assert("XLM"@[0] == 'X');
    assert("BTC"@[0] == 'B');
    assert("ETH"@[0] == 'E');
}

impl MarketState {
    /// The state of an instrument nothing has been written to.
    pub fn untouched() -> (m: MarketState)
        ensures
            m == untouched_market(),
    {
        MarketState {
            reserve: Reserve { base: 0, quote: 0 },
            funding: FundingData { rate: 0, last_update: 0 },
            net_oi: 0,
            skew_scale: 1,
        }
    }
}

} // verus!
