use flash_loan_executor::arbitrage::ArbitrageExecutor;
use flash_loan_executor::arithmetic::{
    apply_slippage, constant_product_output, flash_loan_fee, min_profit_floor, overflow_checked, scale_by_bps,
};
use flash_loan_executor::errors::Error;
use flash_loan_executor::flash_loan::FlashLoanManager;

#[test]
fn test_apply_slippage() {
    // 1% slippage (100 bps) on 1000 = 990
    let result = ArbitrageExecutor::apply_slippage(1000, 100).unwrap();
    assert_eq!(result, 990);

    // 0.5% slippage (50 bps) on 10000 = 9950
    let result = ArbitrageExecutor::apply_slippage(10000, 50).unwrap();
    assert_eq!(result, 9950);
}

#[test]
fn test_flash_loan_fee_calculation() {
    // 0.09% of 1,000,000 = 900
    let fee = FlashLoanManager::calculate_flash_loan_fee(1_000_000).unwrap();
    assert_eq!(fee, 900);

    // 0.09% of 100 = 0.09, rounded down to 0
    let fee_small = FlashLoanManager::calculate_flash_loan_fee(100).unwrap();
    assert_eq!(fee_small, 0);
}

#[test]
fn fee_rounds_down() {
    assert_eq!(flash_loan_fee(1_234_567), Ok(1111));
    assert_eq!(flash_loan_fee(1_111), Ok(0));
    assert_eq!(flash_loan_fee(1_112), Ok(1));
    assert_eq!(flash_loan_fee(0), Ok(0));
    assert_eq!(flash_loan_fee(-1), Ok(-1));
}

#[test]
fn fee_overflow_is_reported() {
    assert_eq!(flash_loan_fee(i128::MAX), Err(Error::ArithmeticOverflow));
    assert_eq!(flash_loan_fee(i128::MAX / 9 + 1), Err(Error::ArithmeticOverflow));
    assert_eq!(flash_loan_fee(i128::MAX / 9), Ok((i128::MAX / 9) * 9 / 10000));
    assert_eq!(flash_loan_fee(i128::MIN), Err(Error::ArithmeticOverflow));
}

#[test]
fn slippage_edges() {
    assert_eq!(apply_slippage(1000, 0), Ok(1000));
    assert_eq!(apply_slippage(1000, 10000), Ok(0));
    assert_eq!(apply_slippage(0, 100), Ok(0));
    assert_eq!(apply_slippage(1_002_000, 100), Ok(991_980));
    assert_eq!(apply_slippage(999, 1), Ok(998));
}

#[test]
fn slippage_tolerance_above_whole_is_refused() {
    assert_eq!(apply_slippage(1000, 10001), Err(Error::ArithmeticOverflow));
    assert_eq!(apply_slippage(1000, u32::MAX), Err(Error::ArithmeticOverflow));
    assert_eq!(ArbitrageExecutor::apply_slippage(0, 10001), Err(Error::ArithmeticOverflow));
}

#[test]
fn slippage_overflow_is_reported() {
    assert_eq!(apply_slippage(i128::MAX, 100), Err(Error::ArithmeticOverflow));
    assert_eq!(apply_slippage(i128::MAX, 10000), Ok(0));
    assert_eq!(apply_slippage(i128::MAX, 9999), Ok(i128::MAX / 10000));
}

#[test]
fn profit_floor_values() {
    assert_eq!(min_profit_floor(1_000_000, 20), Ok(2_000));
    assert_eq!(min_profit_floor(1_000_000, 22), Ok(2_200));
    assert_eq!(min_profit_floor(1_000_000, 0), Ok(0));
    assert_eq!(min_profit_floor(999, 50), Ok(4));
    assert_eq!(min_profit_floor(i128::MAX, 2), Err(Error::ArithmeticOverflow));
}

#[test]
fn scale_by_bps_values() {
    assert_eq!(scale_by_bps(10_000, 1), Ok(1));
    assert_eq!(scale_by_bps(9_999, 1), Ok(0));
    assert_eq!(scale_by_bps(-9_999, 1), Ok(-1));
    assert_eq!(scale_by_bps(i128::MIN, -1), Err(Error::ArithmeticOverflow));
}

#[test]
fn overflow_checked_maps_none() {
    assert_eq!(overflow_checked(Some(7)), Ok(7));
    assert_eq!(overflow_checked(None), Err(Error::ArithmeticOverflow));
}

#[test]
fn constant_product_values() {
    assert_eq!(constant_product_output(1_000_000_000, 1_000_000_000, 1_000_000), Ok(996_006));
    assert_eq!(constant_product_output(1000, 1000, 100), Ok(90));
    assert_eq!(constant_product_output(1000, 2000, 1), Ok(1));
    assert_eq!(constant_product_output(1000, 1000, 0), Ok(0));
}

#[test]
fn constant_product_output_stays_within_reserve_and_grows_with_input() {
    let mut last = 0;
    let mut amount_in = 0;
    while amount_in <= 1_000_000 {
        let out = constant_product_output(5_000, 7_000, amount_in).unwrap();
        assert!(out <= 7_000);
        assert!(out >= last);
        last = out;
        amount_in += 997;
    }
}

#[test]
fn constant_product_failures() {
    assert_eq!(constant_product_output(0, 1000, 0), Err(Error::ArithmeticOverflow));
    assert_eq!(constant_product_output(1000, 1000, i128::MAX), Err(Error::ArithmeticOverflow));
    assert_eq!(constant_product_output(i128::MAX, 1000, 10), Err(Error::ArithmeticOverflow));
    assert_eq!(constant_product_output(1000, i128::MAX, 10), Err(Error::ArithmeticOverflow));
}

#[test]
fn error_codes() {
    assert_eq!(Error::AlreadyInitialized.code(), 1);
    assert_eq!(Error::Unauthorized.code(), 2);
    assert_eq!(Error::ReentrancyGuard.code(), 3);
    assert_eq!(Error::InvalidFlashLoanAmount.code(), 4);
    assert_eq!(Error::InsufficientLiquidity.code(), 5);
    assert_eq!(Error::SlippageExceeded.code(), 6);
    assert_eq!(Error::InvalidRoute.code(), 7);
    assert_eq!(Error::SwapFailed.code(), 8);
    assert_eq!(Error::RepaymentFailed.code(), 9);
    assert_eq!(Error::NoProfitGenerated.code(), 10);
    assert_eq!(Error::ProfitBelowThreshold.code(), 11);
    assert_eq!(Error::InvalidPoolAddress.code(), 12);
    assert_eq!(Error::InvalidTokenAddress.code(), 13);
    assert_eq!(Error::ArithmeticOverflow.code(), 14);
    assert_eq!(Error::ContractPaused.code(), 15);
    assert_eq!(Error::InvalidWithdrawAmount.code(), 16);
}
