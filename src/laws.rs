use vstd::prelude::*;

use crate::accounts::{balance_of, Stake, Unstake};
use crate::errors::AppError;
use crate::instructions::{remaining, stake_error, staked, unstake_error, unstaked};
use crate::reward::NUMERATOR;

verus! {

/// A staked record cannot be staked again: a stake on it fails with
/// `IsStaked`. A successful stake leaves the record staked, and so does every
/// successful unstake that leaves principal on it.
pub proof fn lemma_no_double_stake(
    ctx: Stake,
    amount: u64,
    now: u64,
    out: Unstake,
    withdraw: u64,
    at: u64,
    again: u64,
)
    ensures
        ctx.stake_info.is_staked ==> stake_error(ctx, again) == Some(AppError::IsStaked),
        stake_error(ctx, amount) is None ==> stake_error(staked(ctx, amount, now), again) == Some(
            AppError::IsStaked,
        ),
        unstake_error(out, withdraw, at) is None && remaining(out, withdraw, at) > 0
            ==> stake_error(unstaked(out, withdraw, at).stake_accounts(), again) == Some(
            AppError::IsStaked,
        ),
{
}

/// A stake followed by an unstake in the same slot succeeds and gives the
/// staker back exactly what the stake took: no reward accrues in no time.
pub proof fn lemma_same_slot_round_trip(
    ctx: Stake,
    amount: u64,
    now: u64,
    reward_vault: u64,
    withdraw: u64,
)
    requires
        ctx.wf(),
        ctx.staker_token_account + balance_of(ctx.vault_token_account) + reward_vault
            <= u64::MAX as int,
        stake_error(ctx, amount) is None,
        amount * NUMERATOR as int <= u64::MAX as int,
        withdraw <= amount,
    ensures
        ({
            let u = staked(ctx, amount, now).with_reward_vault(reward_vault);
            &&& u.wf()
            &&& unstake_error(u, withdraw, now) is None
            &&& unstaked(u, withdraw, now).staker_token_account == ctx.staker_token_account
        }),
{
}

/// Withdrawing more than the staked principal fails with `OverStakeBalance`.
pub proof fn lemma_over_withdraw_rejected(ctx: Unstake, amount: u64, now: u64)
    requires
        ctx.stake_info.is_staked,
        amount > ctx.stake_info.amount,
    ensures
        unstake_error(ctx, amount, now) == Some(AppError::OverStakeBalance),
{
}

/// An unstake that drains the principal leaves the record unstaked and the
/// escrow vault closed; a later stake of any amount the staker holds succeeds
/// and opens a vault that holds exactly that amount.
pub proof fn lemma_drained_position_restakes(
    ctx: Unstake,
    amount: u64,
    now: u64,
    again: u64,
    later: u64,
)
    requires
        unstake_error(ctx, amount, now) is None,
        unstaked(ctx, amount, now).stake_info.amount == 0,
        0 < again <= unstaked(ctx, amount, now).staker_token_account,
    ensures
        ({
            let after = unstaked(ctx, amount, now);
            &&& !after.stake_info.is_staked
            &&& after.vault_token_account is None
            &&& stake_error(after.stake_accounts(), again) is None
            &&& staked(after.stake_accounts(), again, later).vault_token_account == Some(again)
        }),
{
}

} // verus!
