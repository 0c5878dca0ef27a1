use vstd::prelude::*;

use crate::errors::AppError;

verus! {

/// Numerator of the reward rate per slot: 1% of the staked amount.
pub const NUMERATOR: u64 = 1_000;

/// Denominator of the reward rate per slot.
pub const DENOMINATOR: u64 = 100_000;

/// The reward that one slot earns on `amount` staked tokens, rounded down.
pub open spec fn reward_per_slot(amount: int) -> int {
    amount * NUMERATOR as int / DENOMINATOR as int
}

/// The reward earned by `amount` staked tokens over `elapsed` slots.
pub open spec fn reward(amount: int, elapsed: int) -> int {
    elapsed * reward_per_slot(amount)
}

/// Whether computing the reward overflows a `u64`: either the scaled amount
/// or the final product does not fit.
pub open spec fn reward_overflows(amount: int, elapsed: int) -> bool {
    amount * NUMERATOR as int > u64::MAX as int || reward(amount, elapsed) > u64::MAX as int
}

/// Computes `elapsed * floor(amount * NUMERATOR / DENOMINATOR)` with both
/// multiplications checked.
pub fn reward_for(amount: u64, elapsed: u64) -> (r: Result<u64, AppError>)
    ensures
        match r {
            Ok(v) => !reward_overflows(amount as int, elapsed as int) && v == reward(
                amount as int,
                elapsed as int,
            ),
            Err(e) => reward_overflows(amount as int, elapsed as int) && e
                == AppError::RewardOverflow,
        },
{
    let scaled = match amount.checked_mul(NUMERATOR) {
        Some(v) => v,
        None => return Err(AppError::RewardOverflow),
    };
    let per_slot = scaled / DENOMINATOR;
    match elapsed.checked_mul(per_slot) {
        Some(v) => Ok(v),
        None => Err(AppError::RewardOverflow),
    }
}

/// The reward never shrinks as more slots pass.
pub proof fn lemma_reward_monotonic(amount: u64, t1: u64, t2: u64)
    requires
        t1 <= t2,
    ensures
        reward(amount as int, t1 as int) <= reward(amount as int, t2 as int),
{
    let p = reward_per_slot(amount as int);
    assert(p >= 0);
    assert(t1 * p <= t2 * p) by (nonlinear_arith)
        requires
            t1 <= t2,
            p >= 0,
    ;
}

/// Doubling the elapsed slots doubles the reward.
pub proof fn lemma_reward_doubles(amount: u64, t: u64)
    ensures
        reward(amount as int, 2 * t) == 2 * reward(amount as int, t as int),
{
    let p = reward_per_slot(amount as int);
    assert((2 * t) * p == 2 * (t * p)) by (nonlinear_arith);
}

} // verus!
