use flash_perp::error::Error;
use flash_perp::perp::FlashPerp;
use flash_perp::types::{PriceData, Quotes};

const ADMIN: &str = "GADMIN";
const TOKEN: &str = "CTOKEN";
const TRADER: &str = "GTRADER";

fn xlm_quote() -> Option<PriceData> {
    Some(PriceData { price: 10_000_000_000_000, timestamp: 0 })
}

fn quotes() -> Quotes {
    Quotes {
        xlm: xlm_quote(),
        btc: Some(PriceData { price: 10_000_000_000_000_000_000, timestamp: 0 }),
        eth: Some(PriceData { price: 400_000_000_000_000_000, timestamp: 0 }),
    }
}

#[test]
fn test_initialization() {
    let mut perp = FlashPerp::new();

    let result = perp.initialize(ADMIN, TOKEN, 0, &quotes());
    assert_eq!(result, Ok(()));

    // Test double initialization
    let result2 = perp.initialize(ADMIN, TOKEN, 0, &quotes());
    assert_eq!(result2, Err(Error::AlreadyInitialized));
}

#[test]
fn test_deposit_withdraw() {
    let mut perp = FlashPerp::new();
    let _ = perp.initialize(ADMIN, TOKEN, 0, &quotes());

    // Deposit
    let _ = perp.deposit_collateral(TRADER, 1_000_000_000);
    assert_eq!(perp.get_free_collateral(TRADER), Ok(1_000_000_000));

    // Withdraw
    let _ = perp.withdraw_collateral(TRADER, 300_000_000);
    assert_eq!(perp.get_free_collateral(TRADER), Ok(700_000_000));
}

#[test]
fn test_open_close_position() {
    let mut perp = FlashPerp::new();
    let symbol = "XLM";

    let _ = perp.initialize(ADMIN, TOKEN, 0, &quotes());
    let _ = perp.deposit_collateral(TRADER, 10_000_000_000); // 10k USDC

    // Determine current mark price for slippage limit
    let mark = perp.get_mark_price_view(symbol, 0, xlm_quote()).unwrap();

    // Open long position
    let _ = perp.open_position(TRADER, symbol, 10_000_000, 2_000_000_000, mark, 0, xlm_quote()); // limit = current price

    let position = perp.get_position(TRADER, symbol).unwrap();
    assert_eq!(position.size, 10_000_000);
    assert_eq!(position.margin, 2_000_000_000);

    let mark2 = perp.get_mark_price_view(symbol, 0, xlm_quote()).unwrap();
    // Close half with limit
    let _ = perp.close_position(TRADER, symbol, 5_000_000, mark2, 0, xlm_quote());

    let position = perp.get_position(TRADER, symbol).unwrap();
    assert_eq!(position.size, 5_000_000);

    // --- Slippage failure case ---
    let bad_limit = mark - 1; // for long position, too low
    let res = perp.open_position(TRADER, symbol, 1_000_000, 200_000_000, bad_limit, 0, xlm_quote());
    assert_eq!(res, Err(Error::SlippageExceeded));
}

#[test]
fn test_overflow_guard() {
    let mut perp = FlashPerp::new();
    let symbol = "XLM";

    let _ = perp.initialize(ADMIN, TOKEN, 0, &quotes());

    // Deposit an enormous collateral so margin check is not the limiting factor
    let _ = perp.deposit_collateral(TRADER, i128::MAX / 2);

    let mark = perp.get_mark_price_view(symbol, 0, xlm_quote()).unwrap();

    let size = i128::MAX / 2;
    let margin = i128::MAX / 2;

    let res = perp.open_position(TRADER, symbol, size, margin, mark, 0, xlm_quote());

    // Expect an overflow error (or similar upper-bound check)
    assert_eq!(res, Err(Error::Overflow));
}
