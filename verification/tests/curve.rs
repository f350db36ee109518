use vector_protocol::{
    shares_for_deposit, swap_amount_out, trade_fee, PoolError, BOOTSTRAP_SHARES, BPS_DENOMINATOR,
};

fn product(a: u64, b: u64) -> u128 {
    (a as u128) * (b as u128)
}

#[test]
fn constants_have_their_values() {
    assert_eq!(BOOTSTRAP_SHARES, 1_000_000_000);
    assert_eq!(BPS_DENOMINATOR, 10_000);
}

#[test]
fn fee_rounds_down() {
    assert_eq!(trade_fee(100, 30), Ok(0));
    assert_eq!(trade_fee(10_000, 30), Ok(30));
    assert_eq!(trade_fee(9_999, 30), Ok(29));
    assert_eq!(trade_fee(1_000_000, 25), Ok(2_500));
    assert_eq!(trade_fee(0, 10_000), Ok(0));
    assert_eq!(trade_fee(77, 10_000), Ok(77));
    assert_eq!(trade_fee(77, 0), Ok(0));
}

#[test]
fn fee_product_overflow_is_reported() {
    assert_eq!(trade_fee(u64::MAX, 2), Err(PoolError::ArithmeticOverflow));
    assert_eq!(trade_fee(u64::MAX / 30 + 1, 30), Err(PoolError::ArithmeticOverflow));
    assert_eq!(trade_fee(u64::MAX / 30, 30), Ok(u64::MAX / 30 * 30 / 10_000));
    assert_eq!(trade_fee(u64::MAX, 1), Ok(u64::MAX / 10_000));
    assert_eq!(trade_fee(u64::MAX, 0), Ok(0));
}

#[test]
fn swap_of_one_hundred_against_even_reserves() {
    assert_eq!(trade_fee(100, 30), Ok(0));
    assert_eq!(swap_amount_out(1000, 1000, 100, 30), Ok(90));
}

#[test]
fn swap_withholds_the_fee_before_the_curve() {
    // fee = 30, net = 9_970, out = floor(50_000 * 9_970 / 109_970) = 4_533
    assert_eq!(swap_amount_out(100_000, 50_000, 10_000, 30), Ok(4_533));
    // at one hundred percent nothing meets the curve
    assert_eq!(swap_amount_out(100_000, 50_000, 10_000, 10_000), Ok(0));
}

#[test]
fn swap_without_fee_follows_the_curve() {
    assert_eq!(swap_amount_out(1000, 1000, 100, 0), Ok(1000 * 100 / 1100));
    assert_eq!(swap_amount_out(3, 7, 5, 0), Ok(7 * 5 / 8));
    assert_eq!(swap_amount_out(0, 500, 1, 0), Ok(500));
    assert_eq!(swap_amount_out(12_345, 0, 678, 0), Ok(0));
    assert_eq!(swap_amount_out(12_345, 678, 0, 0), Ok(0));
}

#[test]
fn swap_never_lowers_the_product_of_the_reserves() {
    let cases: [(u64, u64, u64, u16); 8] = [
        (1000, 1000, 100, 30),
        (1000, 1000, 100, 0),
        (1, 1, 1, 0),
        (7, 1_000_000, 3, 1),
        (1_000_000, 7, 999_999, 9_999),
        (5, 5, 1_000_000_000, 30),
        (0, 10, 10, 0),
        (4_000_000_000, 4_000_000_000, 4_000_000_000, 300),
    ];
    for (reserve_in, reserve_out, amount_in, fee_bps) in cases {
        let amount_out = swap_amount_out(reserve_in, reserve_out, amount_in, fee_bps).unwrap();
        assert!(amount_out <= reserve_out);
        let before = product(reserve_in, reserve_out);
        let after = product(reserve_in + amount_in, reserve_out - amount_out);
        assert!(after >= before);
    }
}

#[test]
fn swap_payout_does_not_grow_with_the_fee() {
    let mut last = swap_amount_out(1_000_000, 2_000_000, 50_000, 0).unwrap();
    assert_eq!(last, 2_000_000 * 50_000 / 1_050_000);
    let mut fee_bps: u16 = 1;
    while fee_bps <= 10_000 {
        let out = swap_amount_out(1_000_000, 2_000_000, 50_000, fee_bps).unwrap();
        assert!(out <= last);
        last = out;
        fee_bps += 1;
    }
    assert_eq!(last, 0);
}

#[test]
fn swap_never_pays_more_than_the_reserve() {
    assert_eq!(swap_amount_out(10, 1000, 1_000_000_000, 0), Ok(999));
    assert_eq!(swap_amount_out(1, 1000, 18_000_000_000_000_000, 0), Ok(999));
    assert_eq!(swap_amount_out(0, 1000, 18_000_000_000_000_000, 0), Ok(1000));
    assert_eq!(swap_amount_out(1, 1, u64::MAX - 1, 0), Ok(0));
}

#[test]
fn swap_fee_overflow_is_an_arithmetic_overflow() {
    assert_eq!(
        swap_amount_out(1000, 1000, u64::MAX / 30 + 1, 30),
        Err(PoolError::ArithmeticOverflow)
    );
    assert_eq!(swap_amount_out(0, 0, u64::MAX, 2), Err(PoolError::ArithmeticOverflow));
}

#[test]
fn swap_fee_above_the_amount_is_a_calculation_error() {
    // fee = floor(100 * 20_000 / 10_000) = 200 > 100
    assert_eq!(swap_amount_out(1000, 1000, 100, 20_000), Err(PoolError::CalculationError));
    assert_eq!(swap_amount_out(1000, 1000, 1, 10_001), Ok(0));
    assert_eq!(swap_amount_out(1000, 1000, 10_000, 10_001), Err(PoolError::CalculationError));
}

#[test]
fn swap_curve_overflow_is_a_calculation_error() {
    // reserve_out * net leaves the range
    assert_eq!(swap_amount_out(1, u64::MAX, 2, 0), Err(PoolError::CalculationError));
    // reserve_in + net leaves the range
    assert_eq!(swap_amount_out(u64::MAX, 1, 1, 0), Err(PoolError::CalculationError));
    // the largest sum that fits
    assert_eq!(swap_amount_out(u64::MAX - 1, 1, 1, 0), Ok(0));
}

#[test]
fn swap_into_nothing_is_a_calculation_error() {
    assert_eq!(swap_amount_out(0, 0, 0, 0), Err(PoolError::CalculationError));
    assert_eq!(swap_amount_out(0, 1000, 0, 30), Err(PoolError::CalculationError));
    // the whole amount is withheld and the source reserve is empty
    assert_eq!(swap_amount_out(0, 1000, 5, 10_000), Err(PoolError::CalculationError));
}

#[test]
fn first_deposit_mints_the_bootstrap_shares() {
    assert_eq!(shares_for_deposit(0, 0, 1, 1), Ok(BOOTSTRAP_SHARES));
    assert_eq!(shares_for_deposit(0, 0, 5, 7_000_000), Ok(1_000_000_000));
    assert_eq!(shares_for_deposit(0, 0, u64::MAX, u64::MAX), Ok(1_000_000_000));
    // a reserve that was funded from outside does not change the regime
    assert_eq!(shares_for_deposit(0, 123, 5, 7), Ok(1_000_000_000));
}

#[test]
fn later_deposit_mints_in_proportion() {
    assert_eq!(shares_for_deposit(500, 1000, 100, 100), Ok(50));
    assert_eq!(shares_for_deposit(500, 1000, 100, 0), Ok(50));
    assert_eq!(shares_for_deposit(500, 1000, 100, 1_000_000), Ok(50));
    assert_eq!(shares_for_deposit(3, 7, 5, 1), Ok(2));
    assert_eq!(shares_for_deposit(1_000_000_000, 10, 10, 10), Ok(1_000_000_000));
    assert_eq!(shares_for_deposit(1_000_000_000, 3, 1, 1), Ok(333_333_333));
    assert_eq!(shares_for_deposit(7, 1000, 0, 0), Ok(0));
    assert_eq!(shares_for_deposit(7, 1000, 1, 1), Ok(0));
}

#[test]
fn deposit_product_overflow_is_reported() {
    assert_eq!(shares_for_deposit(u64::MAX, 1, 2, 2), Err(PoolError::ArithmeticOverflow));
    assert_eq!(
        shares_for_deposit(1 << 32, 1 << 40, 1 << 32, 1),
        Err(PoolError::ArithmeticOverflow)
    );
    assert_eq!(shares_for_deposit((1 << 32) - 1, 1, (1 << 32) + 1, 1), Ok(u64::MAX));
    // the product is formed before the division
    assert_eq!(shares_for_deposit(u64::MAX, 0, 2, 2), Err(PoolError::ArithmeticOverflow));
}

#[test]
fn deposit_against_an_empty_reserve_is_a_calculation_error() {
    assert_eq!(shares_for_deposit(5, 0, 1, 1), Err(PoolError::CalculationError));
    assert_eq!(shares_for_deposit(1_000_000_000, 0, 0, 0), Err(PoolError::CalculationError));
}
