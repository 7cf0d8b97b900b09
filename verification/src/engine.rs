//! The arithmetic of a redemption: holding time, accrued reward, relayer fee.
//!
//! Every result is exact. Where the exact value does not fit, the computation
//! is refused with `ArithmeticOverflow`; nothing wraps, saturates or clamps.
use crate::error::ErrorCode;
use vstd::prelude::*;

verus! {

/// The relayer keeps `RELAYER_FEE_NUMERATOR / RELAYER_FEE_DENOMINATOR` of the
/// redeemed amount, rounded down.
pub const RELAYER_FEE_NUMERATOR: u64 = 5;

/// See `RELAYER_FEE_NUMERATOR`.
pub const RELAYER_FEE_DENOMINATOR: u64 = 1000;

/// Smallest amount on which the relayer earns anything.
pub const SMALLEST_FEE_BEARING_AMOUNT: u64 = 200;

/// The relayer's share of `amount`: half a percent, rounded down.
pub open spec fn fee_on(amount: u64) -> int {
    (amount * RELAYER_FEE_NUMERATOR) / (RELAYER_FEE_DENOMINATOR as int)
}

/// Whether the fee on `amount` can be computed in 64 bits.
pub open spec fn fee_computable(amount: u64) -> bool {
    amount * RELAYER_FEE_NUMERATOR <= u64::MAX
}

/// Seconds from `created_at` to `now`.
pub open spec fn seconds_held(created_at: i64, now: i64) -> int {
    now - created_at
}

/// Reward units accrued over `duration` seconds at `rate` units per second.
pub open spec fn reward_for(duration: u64, rate: u64) -> int {
    duration * rate
}

/// The fee never exceeds the amount, and amounts below
/// `SMALLEST_FEE_BEARING_AMOUNT` bear none.
pub proof fn lemma_fee_bounds(amount: u64)
    ensures
        0 <= fee_on(amount) <= amount,
        amount < SMALLEST_FEE_BEARING_AMOUNT <==> fee_on(amount) == 0,
{
}

/// The fee does not fall when the amount grows.
pub proof fn lemma_fee_monotonic(smaller: u64, larger: u64)
    requires
        smaller <= larger,
    ensures
        fee_on(smaller) <= fee_on(larger),
{
}

/// The relayer's fee on `amount`, or `ArithmeticOverflow` when five times the
/// amount does not fit in 64 bits.
pub fn relayer_fee(amount: u64) -> (fee: Result<u64, ErrorCode>)
    ensures
        fee_computable(amount) ==> fee == Ok::<u64, ErrorCode>(fee_on(amount) as u64),
        !fee_computable(amount) ==> fee == Err::<u64, ErrorCode>(ErrorCode::ArithmeticOverflow),
{
    match amount.checked_mul(RELAYER_FEE_NUMERATOR) {
        Some(scaled) => Ok(scaled / RELAYER_FEE_DENOMINATOR),
        None => Err(ErrorCode::ArithmeticOverflow),
    }
}

/// How long a deposit made at `created_at` has been held at `now`, or
/// `ArithmeticOverflow` when `now` lies before `created_at`.
pub fn holding_duration(created_at: i64, now: i64) -> (duration: Result<u64, ErrorCode>)
    ensures
        now >= created_at ==> duration == Ok::<u64, ErrorCode>(
            seconds_held(created_at, now) as u64,
        ),
        now < created_at ==> duration == Err::<u64, ErrorCode>(ErrorCode::ArithmeticOverflow),
{
    if now < created_at {
        Err(ErrorCode::ArithmeticOverflow)
    } else {
        let wide: i128 = now as i128 - created_at as i128;
        Ok(wide as u64)
    }
}

/// The reward accrued over `duration` seconds at `rate` units per second, or
/// `ArithmeticOverflow` when the product does not fit in 64 bits.
pub fn accrued_reward(duration: u64, rate: u64) -> (reward: Result<u64, ErrorCode>)
    ensures
        reward_for(duration, rate) <= u64::MAX ==> reward == Ok::<u64, ErrorCode>(
            reward_for(duration, rate) as u64,
        ),
        reward_for(duration, rate) > u64::MAX ==> reward == Err::<u64, ErrorCode>(
            ErrorCode::ArithmeticOverflow,
        ),
{
    match duration.checked_mul(rate) {
        Some(reward) => Ok(reward),
        None => Err(ErrorCode::ArithmeticOverflow),
    }
}

} // verus!
