use flash_perp::account::Account;
use flash_perp::error::Error;
use flash_perp::perp::FlashPerp;
use flash_perp::types::{Liquidation, Market, Position, PriceData, Quotes, Reserve, Settlement};

const ALICE: &str = "GALICE";
const BOB: &str = "GBOB";

fn quote(price: i128) -> Option<PriceData> {
    Some(PriceData { price: price * 100_000_000, timestamp: 0 })
}

fn venue() -> FlashPerp {
    let mut perp = FlashPerp::new();
    let quotes = Quotes { xlm: quote(100_000), btc: quote(100_000_000_000), eth: quote(4_000_000_000) };
    assert_eq!(perp.initialize("GADMIN", "CTOKEN", 0, &quotes), Ok(()));
    assert_eq!(perp.deposit_collateral(ALICE, 10_000_000_000), Ok(()));
    perp
}

#[test]
fn open_records_position_and_moves_market() {
    let mut perp = venue();
    assert_eq!(perp.open_position(ALICE, "XLM", 10_000_000, 2_000_000_000, 100_000, 0, quote(100_000)), Ok(100_000));
    assert_eq!(
        perp.get_position(ALICE, "XLM"),
        Some(Position { size: 10_000_000, notional: 1_000_000, margin: 2_000_000_000, funding_index: 0 })
    );
    let market = perp.market(Market::Xlm);
    assert_eq!(market.reserve, Reserve { base: 990_000_000, quote: 101_010_606 });
    assert_eq!(market.net_oi, 10_000_000);
    assert_eq!(perp.get_free_collateral(ALICE), Ok(8_000_000_000));
    assert_eq!(perp.account(ALICE).collateral, 10_000_000_000);
}

#[test]
fn open_short_lowers_open_interest() {
    let mut perp = venue();
    assert_eq!(perp.open_position(ALICE, "XLM", -10_000_000, 200_000, 100_000, 0, quote(100_000)), Ok(100_000));
    assert_eq!(perp.market(Market::Xlm).net_oi, -10_000_000);
    assert_eq!(perp.market(Market::Xlm).reserve.base, 1_010_000_000);
    assert_eq!(perp.get_mark_price_view("XLM", 0, quote(100_000)), Ok(99_900));
}

#[test]
fn second_open_merges_into_the_position() {
    let mut perp = venue();
    assert_eq!(perp.open_position(ALICE, "XLM", 10_000_000, 2_000_000_000, 100_000, 0, quote(100_000)), Ok(100_000));
    assert_eq!(perp.open_position(ALICE, "XLM", 5_000_000, 1_000_000_000, 100_100, 0, quote(100_000)), Ok(100_100));
    assert_eq!(
        perp.get_position(ALICE, "XLM"),
        Some(Position { size: 15_000_000, notional: 1_500_500, margin: 3_000_000_000, funding_index: 0 })
    );
    assert_eq!(perp.market(Market::Xlm).net_oi, 15_000_000);
}

#[test]
fn open_needs_a_fifth_of_notional_as_margin() {
    let mut perp = venue();
    let res = perp.open_position(ALICE, "XLM", 10_000_000, 199_999, 100_000, 0, quote(100_000));
    assert_eq!(res, Err(Error::InsufficientCollateral));
    assert_eq!(perp.get_position(ALICE, "XLM"), None);
    let res = perp.open_position(ALICE, "XLM", 10_000_000, 200_000, 100_000, 0, quote(100_000));
    assert_eq!(res, Ok(100_000));
}

#[test]
fn open_cannot_post_more_than_free_collateral() {
    let mut perp = venue();
    let res = perp.open_position(ALICE, "XLM", 10_000_000, 10_000_000_001, 100_000, 0, quote(100_000));
    assert_eq!(res, Err(Error::InsufficientCollateral));
    assert_eq!(perp.open_position(ALICE, "XLM", 10_000_000, 6_000_000_000, 100_000, 0, quote(100_000)), Ok(100_000));
    let res = perp.open_position(ALICE, "BTC", 1, 4_000_000_001, 100_000_000_000, 0, quote(100_000_000_000));
    assert_eq!(res, Err(Error::InsufficientCollateral));
    let res = perp.open_position(ALICE, "BTC", 1, 4_000_000_000, 100_000_000_000, 0, quote(100_000_000_000));
    assert_eq!(res, Ok(100_000_000_000));
    assert_eq!(perp.get_free_collateral(ALICE), Ok(0));
}

#[test]
fn open_rejects_zero_size_and_margin_that_is_not_positive() {
    let mut perp = venue();
    assert_eq!(perp.open_position(ALICE, "XLM", 0, 1, 100_000, 0, quote(100_000)), Err(Error::InvalidAmount));
    assert_eq!(perp.open_position(ALICE, "XLM", 1, 0, 100_000, 0, quote(100_000)), Err(Error::InvalidAmount));
    assert_eq!(perp.open_position(ALICE, "XLM", 1, -1, 100_000, 0, quote(100_000)), Err(Error::InvalidAmount));
}

#[test]
fn open_rejects_unlisted_instrument() {
    let mut perp = venue();
    assert_eq!(perp.open_position(ALICE, "DOGE", 1, 1, 100_000, 0, quote(100_000)), Err(Error::InvalidSymbol));
    assert_eq!(perp.open_position(ALICE, "xlm", 1, 1, 100_000, 0, quote(100_000)), Err(Error::InvalidSymbol));
}

#[test]
fn open_respects_limit_price_in_both_directions() {
    let mut perp = venue();
    assert_eq!(perp.open_position(ALICE, "XLM", 1_000, 1, 99_999, 0, quote(100_000)), Err(Error::SlippageExceeded));
    assert_eq!(perp.open_position(ALICE, "XLM", -1_000, 1, 100_001, 0, quote(100_000)), Err(Error::SlippageExceeded));
    assert_eq!(perp.open_position(ALICE, "XLM", -1_000, 20, 100_000, 0, quote(100_000)), Ok(100_000));
}

#[test]
fn open_needs_a_fresh_oracle_price() {
    let mut perp = venue();
    assert_eq!(perp.open_position(ALICE, "XLM", 1_000, 1, 100_000, 0, None), Err(Error::OracleUnavailable));
    assert_eq!(perp.open_position(ALICE, "XLM", 1_000, 1, 100_000, 901, quote(100_000)), Err(Error::OracleStale));
}

#[test]
fn open_cannot_drain_the_pool() {
    let mut perp = venue();
    let res = perp.open_position(ALICE, "XLM", 1_000_000_000, 2_000_000_000, 100_000, 0, quote(100_000));
    assert_eq!(res, Err(Error::InvalidAmount));
    assert_eq!(perp.market(Market::Xlm).reserve, Reserve { base: 1_000_000_000, quote: 100_000_000 });
    assert_eq!(perp.market(Market::Xlm).net_oi, 0);
}

#[test]
fn failed_open_changes_nothing() {
    let mut perp = venue();
    let before = (perp.market(Market::Xlm), perp.account(ALICE));
    let _ = perp.open_position(ALICE, "XLM", i128::MAX / 2, i128::MAX / 2, 100_000, 0, quote(100_000));
    assert_eq!((perp.market(Market::Xlm), perp.account(ALICE)), before);
}

#[test]
fn partial_close_settles_the_part_closed() {
    let mut perp = venue();
    assert_eq!(perp.open_position(ALICE, "XLM", 10_000_000, 2_000_000_000, 100_000, 0, quote(100_000)), Ok(100_000));
    let res = perp.close_position(ALICE, "XLM", 5_000_000, 100_100, 0, quote(100_000));
    // closing notional 500_500 against entry 500_000
    assert_eq!(res, Ok(Settlement { pnl: 500, funding_payment: 0 }));
    assert_eq!(
        perp.get_position(ALICE, "XLM"),
        Some(Position { size: 5_000_000, notional: 500_000, margin: 1_000_000_000, funding_index: 0 })
    );
    assert_eq!(perp.account(ALICE).collateral, 11_000_000_500);
    assert_eq!(perp.market(Market::Xlm).net_oi, 5_000_000);
    assert_eq!(perp.market(Market::Xlm).reserve, Reserve { base: 995_000_000, quote: 100_503_268 });
}

#[test]
fn full_close_deletes_the_position() {
    let mut perp = venue();
    assert_eq!(perp.open_position(ALICE, "XLM", 10_000_000, 2_000_000_000, 100_000, 0, quote(100_000)), Ok(100_000));
    let res = perp.close_position(ALICE, "XLM", 10_000_000, 0, 0, quote(100_000));
    assert_eq!(res, Ok(Settlement { pnl: 1_000, funding_payment: 0 }));
    assert_eq!(perp.get_position(ALICE, "XLM"), None);
    assert_eq!(perp.market(Market::Xlm).net_oi, 0);
    assert_eq!(perp.market(Market::Xlm).reserve, Reserve { base: 1_000_000_000, quote: 100_001_004 });
}

#[test]
fn round_trip_at_one_price_returns_the_margin() {
    let mut perp = venue();
    assert_eq!(perp.open_position(ALICE, "XLM", 100_000, 2_000, 100_000, 0, quote(100_000)), Ok(100_000));
    assert_eq!(perp.get_mark_price_view("XLM", 0, quote(100_000)), Ok(100_000));
    let res = perp.close_position(ALICE, "XLM", 100_000, 100_000, 0, quote(100_000));
    assert_eq!(res, Ok(Settlement { pnl: 0, funding_payment: 0 }));
    assert_eq!(perp.get_position(ALICE, "XLM"), None);
    assert_eq!(perp.account(ALICE).collateral, 10_000_000_000 + 2_000);
    assert_eq!(perp.market(Market::Xlm).net_oi, 0);
    // the fees of both trades stay in the pool
    assert_eq!(perp.market(Market::Xlm).reserve, Reserve { base: 1_000_000_000, quote: 100_000_009 });
}

#[test]
fn close_of_a_short_profits_when_price_falls() {
    let mut perp = venue();
    assert_eq!(perp.open_position(ALICE, "XLM", -10_000_000, 200_000, 100_000, 0, quote(100_000)), Ok(100_000));
    // oracle at 0.09: mark 90_000 * 9_990 / 10_000 = 89_910
    let res = perp.close_position(ALICE, "XLM", -10_000_000, 89_910, 0, quote(90_000));
    assert_eq!(res, Ok(Settlement { pnl: 1_000_000 - 899_100, funding_payment: 0 }));
    assert_eq!(perp.get_position(ALICE, "XLM"), None);
    assert_eq!(perp.account(ALICE).collateral, 10_000_000_000 + 200_000 + 100_900);
}

#[test]
fn close_beyond_held_is_invalid() {
    let mut perp = venue();
    assert_eq!(perp.open_position(ALICE, "XLM", 10_000_000, 2_000_000_000, 100_000, 0, quote(100_000)), Ok(100_000));
    assert_eq!(perp.close_position(ALICE, "XLM", 10_000_001, 0, 0, quote(100_000)), Err(Error::InvalidAmount));
    assert_eq!(perp.close_position(ALICE, "XLM", i128::MIN, 0, 0, quote(100_000)), Err(Error::InvalidAmount));
    assert_eq!(perp.close_position(ALICE, "XLM", 0, 0, 0, quote(100_000)), Err(Error::InvalidAmount));
}

#[test]
fn close_in_the_opposite_direction_is_invalid() {
    let mut perp = venue();
    assert_eq!(perp.open_position(ALICE, "XLM", 10_000_000, 2_000_000_000, 100_000, 0, quote(100_000)), Ok(100_000));
    assert_eq!(perp.close_position(ALICE, "XLM", -5_000_000, i128::MAX, 0, quote(100_000)), Err(Error::InvalidAmount));
    // rejected before the oracle is looked at
    assert_eq!(perp.close_position(ALICE, "XLM", -5_000_000, i128::MAX, 0, None), Err(Error::InvalidAmount));
}

#[test]
fn close_without_position_is_not_found() {
    let mut perp = venue();
    assert_eq!(perp.close_position(ALICE, "XLM", 1, 0, 0, quote(100_000)), Err(Error::PositionNotFound));
    assert_eq!(perp.close_position(ALICE, "DOGE", 1, 0, 0, quote(100_000)), Err(Error::PositionNotFound));
}

#[test]
fn close_respects_limit_price() {
    let mut perp = venue();
    assert_eq!(perp.open_position(ALICE, "XLM", 10_000_000, 2_000_000_000, 100_000, 0, quote(100_000)), Ok(100_000));
    assert_eq!(perp.close_position(ALICE, "XLM", 5_000_000, 100_101, 0, quote(100_000)), Err(Error::SlippageExceeded));
    assert_eq!(perp.open_position(BOB, "XLM", 1, 1, 0, 0, quote(100_000)), Err(Error::SlippageExceeded));
}

#[test]
fn close_charges_funding_since_last_settlement() {
    let mut perp = venue();
    assert_eq!(perp.open_position(ALICE, "XLM", 10_000_000, 2_000_000_000, 100_000, 0, quote(100_000)), Ok(100_000));
    let mut market = perp.market(Market::Xlm);
    market.funding.rate = 3_000_000_000_000_000_000;
    perp.set_market(Market::Xlm, market);
    let res = perp.close_position(ALICE, "XLM", 5_000_000, 0, 0, quote(100_000));
    // the whole position owes 10_000_000 * 3
    assert_eq!(res, Ok(Settlement { pnl: 500, funding_payment: 30_000_000 }));
    assert_eq!(perp.account(ALICE).collateral, 10_000_000_000 + 1_000_000_000 + 500 - 30_000_000);
    assert_eq!(perp.get_position(ALICE, "XLM").unwrap().funding_index, 3_000_000_000_000_000_000);
}

#[test]
fn thin_position_is_liquidated_for_a_bonus() {
    let mut perp = venue();
    assert_eq!(perp.open_position(ALICE, "XLM", 10_000_000, 200_000, 100_000, 0, quote(100_000)), Ok(100_000));
    // oracle at 0.30: mark 300_300, notional 3_003_000, ratio 666 bp
    let res = perp.liquidate(BOB, ALICE, "XLM", 0, quote(300_000));
    assert_eq!(res, Ok(Liquidation { size: 10_000_000, bonus: 60_060 }));
    assert_eq!(perp.get_position(ALICE, "XLM"), None);
    assert_eq!(perp.account(BOB).collateral, 60_060);
    assert_eq!(perp.account(ALICE).collateral, 10_000_000_000);
    assert_eq!(perp.get_free_collateral(ALICE), Ok(10_000_000_000));
    assert_eq!(perp.market(Market::Xlm).net_oi, 0);
    assert_eq!(perp.market(Market::Xlm).reserve.base, 1_000_000_000);
}

#[test]
fn adequate_position_is_not_liquidated() {
    let mut perp = venue();
    assert_eq!(perp.open_position(ALICE, "XLM", 10_000_000, 200_000, 100_000, 0, quote(100_000)), Ok(100_000));
    // ratio 1_998 bp at the current mark
    assert_eq!(perp.liquidate(BOB, ALICE, "XLM", 0, quote(100_000)), Err(Error::BelowMaintenanceMargin));
    // oracle at 0.1998: mark 199_999, notional 1_999_990, ratio 1_000 bp: still adequate
    assert_eq!(perp.liquidate(BOB, ALICE, "XLM", 0, quote(199_800)), Err(Error::BelowMaintenanceMargin));
    // oracle at 0.1999: mark 200_099, notional 2_000_990, ratio 999 bp
    assert_eq!(perp.liquidate(BOB, ALICE, "XLM", 0, quote(199_900)).map(|l| l.size), Ok(10_000_000));
}

#[test]
fn nobody_liquidates_themselves() {
    let mut perp = venue();
    assert_eq!(perp.open_position(ALICE, "XLM", 10_000_000, 200_000, 100_000, 0, quote(100_000)), Ok(100_000));
    assert_eq!(perp.liquidate(ALICE, ALICE, "XLM", 0, quote(300_000)), Err(Error::SelfLiquidation));
}

#[test]
fn liquidation_without_position_is_not_found() {
    let mut perp = venue();
    assert_eq!(perp.liquidate(BOB, ALICE, "XLM", 0, quote(300_000)), Err(Error::PositionNotFound));
    assert_eq!(perp.liquidate(BOB, ALICE, "DOGE", 0, quote(300_000)), Err(Error::PositionNotFound));
}

#[test]
fn free_collateral_counts_every_live_position() {
    let mut perp = venue();
    assert_eq!(perp.open_position(ALICE, "XLM", 10_000_000, 2_000_000_000, 100_000, 0, quote(100_000)), Ok(100_000));
    assert_eq!(perp.open_position(ALICE, "ETH", -1_000, 3_000_000_000, 0, 0, quote(4_000_000_000)), Ok(4_000_000_000));
    let account = perp.account(ALICE);
    let margins: i128 = [account.xlm, account.btc, account.eth].iter().flatten().map(|p| p.margin).sum();
    assert_eq!(margins, 5_000_000_000);
    assert_eq!(perp.get_free_collateral(ALICE), Ok(account.collateral - margins));
    assert_eq!(perp.get_free_collateral(BOB), Ok(0));
}

#[test]
fn accounts_are_kept_apart() {
    let mut perp = venue();
    assert_eq!(perp.deposit_collateral(BOB, 7), Ok(()));
    assert_eq!(perp.open_position(ALICE, "XLM", 10_000_000, 2_000_000_000, 100_000, 0, quote(100_000)), Ok(100_000));
    assert_eq!(perp.account(BOB), Account { collateral: 7, xlm: None, btc: None, eth: None });
    assert_eq!(perp.get_position(BOB, "XLM"), None);
    assert_eq!(perp.deposit_collateral(ALICE, 1), Ok(()));
    assert_eq!(perp.account(ALICE).collateral, 10_000_000_001);
    assert_eq!(perp.account(BOB).collateral, 7);
}

#[test]
fn open_that_offsets_the_position_deletes_it() {
    let mut perp = venue();
    assert_eq!(perp.open_position(ALICE, "XLM", 10_000_000, 2_000_000_000, 100_000, 0, quote(100_000)), Ok(100_000));
    // the offsetting short is priced at the skewed mark and must post its own margin
    let res = perp.open_position(ALICE, "XLM", -10_000_000, 200_199, 100_100, 0, quote(100_000));
    assert_eq!(res, Err(Error::InsufficientCollateral));
    assert_eq!(perp.open_position(ALICE, "XLM", -10_000_000, 300_000, 100_100, 0, quote(100_000)), Ok(100_100));
    assert_eq!(perp.get_position(ALICE, "XLM"), None);
    assert_eq!(perp.account(ALICE), Account { collateral: 10_000_000_000, xlm: None, btc: None, eth: None });
    assert_eq!(perp.get_free_collateral(ALICE), Ok(10_000_000_000));
    assert_eq!(perp.market(Market::Xlm).net_oi, 0);
    assert_eq!(perp.market(Market::Xlm).reserve, Reserve { base: 1_000_000_000, quote: 100_001_004 });
    assert_eq!(perp.close_position(ALICE, "XLM", 1, 0, 0, quote(100_000)), Err(Error::PositionNotFound));
    assert_eq!(perp.withdraw_collateral(ALICE, 10_000_000_000), Ok(()));
}

#[test]
fn open_that_nearly_offsets_keeps_what_is_left() {
    let mut perp = venue();
    assert_eq!(perp.open_position(ALICE, "XLM", 10_000_000, 2_000_000_000, 100_000, 0, quote(100_000)), Ok(100_000));
    assert_eq!(perp.open_position(ALICE, "XLM", -9_999_999, 300_000, 100_100, 0, quote(100_000)), Ok(100_100));
    assert_eq!(
        perp.get_position(ALICE, "XLM"),
        Some(Position { size: 1, notional: 1_000_000 + 1_000_999, margin: 2_000_300_000, funding_index: 0 })
    );
    assert_eq!(perp.market(Market::Xlm).net_oi, 1);
}

#[test]
fn trades_are_checked_before_any_price() {
    let mut perp = venue();
    assert_eq!(perp.check_open("XLM", 1, 1), Ok(Market::Xlm));
    assert_eq!(perp.check_open("XLM", 0, 1), Err(Error::InvalidAmount));
    assert_eq!(perp.check_open("XLM", 1, 0), Err(Error::InvalidAmount));
    assert_eq!(perp.check_open("DOGE", 1, 1), Err(Error::InvalidSymbol));
    assert_eq!(perp.check_close(ALICE, "XLM", 1), Err(Error::PositionNotFound));
    assert_eq!(perp.check_liquidate(BOB, ALICE, "XLM"), Err(Error::PositionNotFound));
    assert_eq!(perp.check_liquidate(ALICE, ALICE, "XLM"), Err(Error::SelfLiquidation));
    assert_eq!(perp.open_position(ALICE, "XLM", 10_000_000, 2_000_000_000, 100_000, 0, quote(100_000)), Ok(100_000));
    let held = Position { size: 10_000_000, notional: 1_000_000, margin: 2_000_000_000, funding_index: 0 };
    assert_eq!(perp.check_close(ALICE, "XLM", 10_000_000), Ok((Market::Xlm, held)));
    assert_eq!(perp.check_close(ALICE, "XLM", 10_000_001), Err(Error::InvalidAmount));
    assert_eq!(perp.check_close(ALICE, "XLM", -1), Err(Error::InvalidAmount));
    assert_eq!(perp.check_close(ALICE, "XLM", 0), Err(Error::InvalidAmount));
    assert_eq!(perp.check_liquidate(BOB, ALICE, "XLM"), Ok((Market::Xlm, held)));
    assert_eq!(perp.pause(), Ok(()));
    assert_eq!(perp.check_open("XLM", 1, 1), Err(Error::Paused));
    assert_eq!(perp.check_close(ALICE, "XLM", 1), Err(Error::Paused));
    assert_eq!(perp.check_liquidate(BOB, ALICE, "XLM"), Err(Error::Paused));
}
