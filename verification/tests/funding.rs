use flash_perp::error::Error;
use flash_perp::funding::{compute_funding_delta, compute_funding_nudge};
use flash_perp::perp::FlashPerp;
use flash_perp::types::{FundingData, FundingUpdate, Market, PriceData, Quotes, KAPPA};

fn quote_at(price: i128, timestamp: u64) -> Option<PriceData> {
    Some(PriceData { price: price * 100_000_000, timestamp })
}

fn venue() -> FlashPerp {
    let mut perp = FlashPerp::new();
    let quotes = Quotes {
        xlm: quote_at(100_000, 0),
        btc: quote_at(100_000_000_000, 0),
        eth: quote_at(4_000_000_000, 0),
    };
    assert_eq!(perp.initialize("GADMIN", "CTOKEN", 0, &quotes), Ok(()));
    assert_eq!(perp.deposit_collateral("GALICE", 10_000_000_000), Ok(()));
    perp
}

#[test]
fn funding_delta_follows_premium_and_time() {
    // premium 10 bp over 1800 s: 10 * 1000 * 1800 / (100 * 86400) = 2.08
    assert_eq!(compute_funding_delta(100_000, 100_100, 1_800), Ok(2));
    assert_eq!(compute_funding_delta(100_000, 99_900, 1_800), Ok(-2));
    // full drift for a day moves the index by the full velocity
    assert_eq!(compute_funding_delta(100_000, 101_000, 86_400), Ok(1_000));
    assert_eq!(compute_funding_delta(100_000, 100_000, 86_400), Ok(0));
}

#[test]
fn funding_delta_caps_the_premium() {
    assert_eq!(compute_funding_delta(100_000, 200_000, 86_400), Ok(1_000));
    assert_eq!(compute_funding_delta(100_000, 0, 86_400), Ok(-1_000));
    assert_eq!(compute_funding_delta(100_000, 101_000, u64::MAX), Ok(213_503_982_334_601_291));
}

#[test]
fn funding_delta_without_a_price_is_overflow() {
    assert_eq!(compute_funding_delta(0, 0, 1_800), Err(Error::Overflow));
    assert_eq!(compute_funding_delta(1, i128::MAX, 1_800), Err(Error::Overflow));
    assert_eq!(compute_funding_delta(-1, i128::MAX, 1_800), Err(Error::Overflow));
}

#[test]
fn early_poke_does_nothing() {
    let mut perp = venue();
    assert_eq!(perp.poke_funding("XLM", 1_799, quote_at(100_000, 1_799)), Ok(None));
    assert_eq!(perp.market(Market::Xlm).funding, FundingData { rate: 0, last_update: 0 });
    // not even the oracle is looked at
    assert_eq!(perp.poke_funding("XLM", 1_799, None), Ok(None));
}

#[test]
fn poke_after_a_period_moves_the_index() {
    let mut perp = venue();
    assert_eq!(perp.open_position("GALICE", "XLM", 10_000_000, 2_000_000_000, 100_000, 0, quote_at(100_000, 0)), Ok(100_000));
    let res = perp.poke_funding("XLM", 1_800, quote_at(100_000, 1_800));
    assert_eq!(res, Ok(Some(FundingUpdate { delta_rate: 2, oracle_price: 100_000, mark_price: 100_100 })));
    assert_eq!(perp.market(Market::Xlm).funding, FundingData { rate: 2, last_update: 1_800 });
}

#[test]
fn second_poke_within_a_period_is_a_no_op() {
    let mut perp = venue();
    assert_eq!(perp.open_position("GALICE", "XLM", 10_000_000, 2_000_000_000, 100_000, 0, quote_at(100_000, 0)), Ok(100_000));
    assert!(perp.poke_funding("XLM", 1_800, quote_at(100_000, 1_800)).unwrap().is_some());
    let after_first = perp.market(Market::Xlm);
    assert_eq!(perp.poke_funding("XLM", 1_800, quote_at(100_000, 1_800)), Ok(None));
    assert_eq!(perp.poke_funding("XLM", 3_599, quote_at(100_000, 3_599)), Ok(None));
    assert_eq!(perp.market(Market::Xlm), after_first);
    assert!(perp.poke_funding("XLM", 3_600, quote_at(100_000, 3_600)).unwrap().is_some());
    assert_eq!(perp.market(Market::Xlm).funding, FundingData { rate: 4, last_update: 3_600 });
}

#[test]
fn poke_before_the_last_update_is_a_no_op() {
    let mut perp = venue();
    assert!(perp.poke_funding("XLM", 5_000, quote_at(100_000, 5_000)).unwrap().is_some());
    assert_eq!(perp.poke_funding("XLM", 10, quote_at(100_000, 10)), Ok(None));
    assert_eq!(perp.market(Market::Xlm).funding.last_update, 5_000);
}

#[test]
fn poke_in_a_balanced_market_only_stamps_the_time() {
    let mut perp = venue();
    let res = perp.poke_funding("BTC", 2_000, quote_at(100_000_000_000, 1_500));
    assert_eq!(
        res,
        Ok(Some(FundingUpdate { delta_rate: 0, oracle_price: 100_000_000_000, mark_price: 100_000_000_000 }))
    );
    assert_eq!(perp.market(Market::Btc).funding, FundingData { rate: 0, last_update: 2_000 });
    assert_eq!(perp.market(Market::Xlm).funding, FundingData { rate: 0, last_update: 0 });
}

#[test]
fn poke_needs_a_listed_symbol_and_a_fresh_price() {
    let mut perp = venue();
    assert_eq!(perp.poke_funding("DOGE", 1_800, quote_at(100_000, 1_800)), Err(Error::InvalidSymbol));
    assert_eq!(perp.poke_funding("XLM", 1_800, None), Err(Error::OracleUnavailable));
    assert_eq!(perp.poke_funding("XLM", 1_800, quote_at(100_000, 899)), Err(Error::OracleStale));
    assert_eq!(perp.poke_funding("XLM", 1_800, quote_at(0, 1_800)), Err(Error::Overflow));
    assert_eq!(perp.market(Market::Xlm).funding, FundingData { rate: 0, last_update: 0 });
}

#[test]
fn nudge_is_premium_over_reference_times_gain() {
    assert_eq!(KAPPA, 100_000);
    assert_eq!(compute_funding_nudge(100_000, 100_100), Ok(100));
    assert_eq!(compute_funding_nudge(100_000, 99_900), Ok(-100));
    assert_eq!(compute_funding_nudge(100_000, 101_000), Ok(1_000));
    assert_eq!(compute_funding_nudge(100_000, 100_000), Ok(0));
    assert_eq!(compute_funding_nudge(3, 4), Ok(33_333));
    assert_eq!(compute_funding_nudge(-3, -4), Ok(33_333));
    assert_eq!(compute_funding_nudge(0, 100), Err(Error::Overflow));
    assert_eq!(compute_funding_nudge(1, i128::MAX / 2), Err(Error::Overflow));
    assert_eq!(compute_funding_nudge(-1, i128::MAX), Err(Error::Overflow));
}

#[test]
fn nudge_equals_a_day_of_keeper_funding() {
    for mark in [99_000i128, 99_900, 100_000, 100_010, 100_100, 101_000] {
        assert_eq!(compute_funding_nudge(100_000, mark), compute_funding_delta(100_000, mark, 86_400));
    }
}

#[test]
fn administered_update_nudges_the_index_once() {
    let mut perp = venue();
    assert_eq!(perp.open_position("GALICE", "XLM", 10_000_000, 2_000_000_000, 100_000, 0, quote_at(100_000, 0)), Ok(100_000));
    // mark 100_100 against a reference of 100_000
    assert_eq!(perp.update_funding("XLM", 100_000), Ok(100));
    assert_eq!(perp.market(Market::Xlm).funding, FundingData { rate: 100, last_update: 0 });
    assert_eq!(perp.update_funding("XLM", 200_000), Ok(100));
    assert_eq!(perp.market(Market::Xlm).funding, FundingData { rate: 200, last_update: 0 });
    assert_eq!(perp.update_funding("DOGE", 100_000), Err(Error::InvalidSymbol));
    assert_eq!(perp.update_funding("XLM", 0), Err(Error::Overflow));
    assert_eq!(perp.market(Market::Xlm).funding, FundingData { rate: 200, last_update: 0 });
    let mut blank = FlashPerp::new();
    assert_eq!(blank.update_funding("XLM", 100_000), Err(Error::NotInitialized));
}

#[test]
fn keeper_update_is_checked_before_any_price() {
    let mut perp = venue();
    assert_eq!(perp.check_poke("XLM", 1_799), Ok(None));
    assert_eq!(perp.check_poke("XLM", 1_800), Ok(Some(Market::Xlm)));
    assert_eq!(perp.check_poke("DOGE", 1_800), Err(Error::InvalidSymbol));
    assert_eq!(perp.pause(), Ok(()));
    assert_eq!(perp.check_poke("XLM", 1_800), Err(Error::Paused));
}
