use privacy_vault::engine::{
    accrued_reward, holding_duration, relayer_fee, RELAYER_FEE_DENOMINATOR, RELAYER_FEE_NUMERATOR,
    SMALLEST_FEE_BEARING_AMOUNT,
};
use privacy_vault::ErrorCode;

#[test]
fn fee_is_half_a_percent_rounded_down() {
    assert_eq!(relayer_fee(1000), Ok(5));
    assert_eq!(relayer_fee(1199), Ok(5));
    assert_eq!(relayer_fee(1200), Ok(6));
    assert_eq!(relayer_fee(1_000_000), Ok(5_000));
    assert_eq!(relayer_fee(123_456_789), Ok(617_283));
}

#[test]
fn fee_constants_spell_half_a_percent() {
    assert_eq!(RELAYER_FEE_NUMERATOR, 5);
    assert_eq!(RELAYER_FEE_DENOMINATOR, 1000);
    assert_eq!(SMALLEST_FEE_BEARING_AMOUNT, 200);
}

#[test]
fn amounts_below_two_hundred_bear_no_fee() {
    assert_eq!(relayer_fee(0), Ok(0));
    assert_eq!(relayer_fee(1), Ok(0));
    assert_eq!(relayer_fee(199), Ok(0));
    assert_eq!(relayer_fee(200), Ok(1));
    assert_eq!(relayer_fee(399), Ok(1));
    assert_eq!(relayer_fee(400), Ok(2));
}

#[test]
fn fee_never_exceeds_the_amount() {
    let mut amount: u64 = 0;
    while amount < 5_000 {
        let fee = relayer_fee(amount).unwrap();
        assert!(fee <= amount);
        assert_eq!(fee, amount * 5 / 1000);
        amount += 1;
    }
}

#[test]
fn fee_overflows_when_five_times_the_amount_does() {
    let largest = u64::MAX / 5;
    assert_eq!(relayer_fee(largest), Ok(largest * 5 / 1000));
    assert_eq!(relayer_fee(largest + 1), Err(ErrorCode::ArithmeticOverflow));
    assert_eq!(relayer_fee(u64::MAX), Err(ErrorCode::ArithmeticOverflow));
}

#[test]
fn holding_duration_is_the_difference() {
    assert_eq!(holding_duration(0, 100), Ok(100));
    assert_eq!(holding_duration(1_700_000_000, 1_700_086_400), Ok(86_400));
    assert_eq!(holding_duration(42, 42), Ok(0));
    assert_eq!(holding_duration(-50, 50), Ok(100));
}

#[test]
fn holding_duration_spans_the_whole_clock() {
    assert_eq!(holding_duration(i64::MIN, i64::MAX), Ok(u64::MAX));
    assert_eq!(holding_duration(i64::MIN, 0), Ok(1u64 << 63));
    assert_eq!(holding_duration(0, i64::MAX), Ok(i64::MAX as u64));
}

#[test]
fn holding_duration_refuses_a_clock_that_ran_backwards() {
    assert_eq!(holding_duration(100, 99), Err(ErrorCode::ArithmeticOverflow));
    assert_eq!(holding_duration(0, -1), Err(ErrorCode::ArithmeticOverflow));
    assert_eq!(holding_duration(i64::MAX, i64::MIN), Err(ErrorCode::ArithmeticOverflow));
}

#[test]
fn reward_is_duration_times_rate() {
    assert_eq!(accrued_reward(100, 2), Ok(200));
    assert_eq!(accrued_reward(0, 7), Ok(0));
    assert_eq!(accrued_reward(7, 0), Ok(0));
    assert_eq!(accrued_reward(86_400, 1_000_000), Ok(86_400_000_000));
    assert_eq!(accrued_reward(u64::MAX, 1), Ok(u64::MAX));
}

#[test]
fn reward_overflow_is_refused() {
    assert_eq!(accrued_reward(u64::MAX, 2), Err(ErrorCode::ArithmeticOverflow));
    assert_eq!(accrued_reward(1 << 32, 1 << 32), Err(ErrorCode::ArithmeticOverflow));
    assert_eq!(accrued_reward((1 << 32) - 1, 1 << 32), Ok(((1u64 << 32) - 1) << 32));
}
