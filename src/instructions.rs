use vstd::prelude::*;

use crate::accounts::{balance_of, Initialize, Stake, Unstake, UnstakeOutcome};
use crate::errors::AppError;
use crate::reward::{reward, reward_for, reward_overflows};
use crate::state::StakeInfo;

verus! {

/// The accounts after the reward vault is opened; an open vault is left as it is.
pub open spec fn initialized(ctx: Initialize) -> Initialize {
    Initialize {
        admin: ctx.admin,
        mint: ctx.mint,
        reward_vault: Some(balance_of(ctx.reward_vault) as u64),
    }
}

/// Opens the reward vault of a mint if it does not exist yet.
pub fn initialize(ctx: &mut Initialize) -> (r: Result<(), AppError>)
    ensures
        r is Ok,
        *final(ctx) == initialized(*old(ctx)),
{
    if ctx.reward_vault.is_none() {
        ctx.reward_vault = Some(0);
    }
    Ok(())
}

/// Why a stake of `amount` fails, if it does.
pub open spec fn stake_error(ctx: Stake, amount: u64) -> Option<AppError> {
    if ctx.stake_info.is_staked {
        Some(AppError::IsStaked)
    } else if amount == 0 {
        Some(AppError::NoToken)
    } else if amount > ctx.staker_token_account {
        Some(AppError::InsufficientFunds)
    } else {
        None
    }
}

/// The accounts after a successful stake of `amount` at slot `now`.
pub open spec fn staked(ctx: Stake, amount: u64, now: u64) -> Stake {
    Stake {
        staker: ctx.staker,
        mint: ctx.mint,
        staker_token_account: (ctx.staker_token_account - amount) as u64,
        stake_info: StakeInfo {
            staker: ctx.staker,
            mint: ctx.mint,
            stake_at: now,
            is_staked: true,
            amount,
        },
        vault_token_account: Some((balance_of(ctx.vault_token_account) + amount) as u64),
    }
}

/// Stakes `amount` tokens at slot `now`: records the stake and moves the tokens
/// from the staker's account into the escrow vault, which is opened if needed.
/// A record that is already staked cannot be topped up.
pub fn stake(ctx: &mut Stake, amount: u64, now: u64) -> (r: Result<(), AppError>)
    requires
        old(ctx).wf(),
    ensures
        match stake_error(*old(ctx), amount) {
            Some(e) => r == Err::<(), AppError>(e) && *final(ctx) == *old(ctx),
            None => r is Ok && *final(ctx) == staked(*old(ctx), amount, now),
        },
        final(ctx).wf(),
        old(ctx).stake_info.wf() ==> final(ctx).stake_info.wf(),
        final(ctx).staker_token_account + balance_of(final(ctx).vault_token_account)
            == old(ctx).staker_token_account + balance_of(old(ctx).vault_token_account),
{
    if ctx.stake_info.is_staked {
        return Err(AppError::IsStaked);
    }
    if amount == 0 {
        return Err(AppError::NoToken);
    }
    if amount > ctx.staker_token_account {
        return Err(AppError::InsufficientFunds);
    }
    let vault: u64 = match ctx.vault_token_account {
        Some(b) => b,
        None => 0,
    };
    ctx.stake_info = StakeInfo {
        staker: ctx.staker,
        mint: ctx.mint,
        stake_at: now,
        is_staked: true,
        amount,
    };
    ctx.staker_token_account = ctx.staker_token_account - amount;
    ctx.vault_token_account = Some(vault + amount);
    Ok(())
}

/// The slots since the last stake event.
pub open spec fn elapsed(ctx: Unstake, now: u64) -> int {
    now - ctx.stake_info.stake_at
}

/// The reward that an unstake at slot `now` pays.
pub open spec fn unstake_reward(ctx: Unstake, now: u64) -> int {
    reward(ctx.stake_info.amount as int, elapsed(ctx, now))
}

/// The principal left on record after an unstake of `amount`: the record is
/// only reduced when a reward is paid.
pub open spec fn remaining(ctx: Unstake, amount: u64, now: u64) -> int {
    if unstake_reward(ctx, now) > 0 {
        ctx.stake_info.amount - amount
    } else {
        ctx.stake_info.amount as int
    }
}

/// Why an unstake of `amount` at slot `now` fails, if it does.
pub open spec fn unstake_error(ctx: Unstake, amount: u64, now: u64) -> Option<AppError> {
    let info = ctx.stake_info;
    if !info.is_staked {
        Some(AppError::NotStaked)
    } else if amount > info.amount {
        Some(AppError::OverStakeBalance)
    } else if now < info.stake_at {
        Some(AppError::ClockRegression)
    } else if info.amount > balance_of(ctx.vault_token_account) {
        Some(AppError::InsufficientFunds)
    } else if reward_overflows(info.amount as int, elapsed(ctx, now)) {
        Some(AppError::RewardOverflow)
    } else if unstake_reward(ctx, now) > ctx.reward_vault {
        Some(AppError::InsufficientFunds)
    } else if remaining(ctx, amount, now) == 0 && balance_of(ctx.vault_token_account)
        != info.amount {
        Some(AppError::NonZeroBalance)
    } else {
        None
    }
}

/// What a successful unstake of `amount` at slot `now` moves.
pub open spec fn unstake_outcome(ctx: Unstake, amount: u64, now: u64) -> UnstakeOutcome {
    UnstakeOutcome {
        principal: ctx.stake_info.amount,
        reward: unstake_reward(ctx, now) as u64,
        vault_closed: remaining(ctx, amount, now) == 0,
    }
}

/// The accounts after a successful unstake of `amount` at slot `now`.
pub open spec fn unstaked(ctx: Unstake, amount: u64, now: u64) -> Unstake {
    let info = ctx.stake_info;
    let rewarded = unstake_reward(ctx, now) > 0;
    let closed = remaining(ctx, amount, now) == 0;
    Unstake {
        staker: ctx.staker,
        mint: ctx.mint,
        staker_token_account: (ctx.staker_token_account + info.amount + unstake_reward(
            ctx,
            now,
        )) as u64,
        stake_info: StakeInfo {
            staker: info.staker,
            mint: info.mint,
            stake_at: if rewarded {
                now
            } else {
                info.stake_at
            },
            is_staked: if closed {
                false
            } else {
                info.is_staked
            },
            amount: remaining(ctx, amount, now) as u64,
        },
        vault_token_account: if closed {
            None
        } else {
            Some((balance_of(ctx.vault_token_account) - info.amount) as u64)
        },
        reward_vault: (ctx.reward_vault - unstake_reward(ctx, now)) as u64,
    }
}

/// Unstakes `amount` tokens at slot `now`.
///
/// The whole principal leaves the escrow vault for the staker first. Then the
/// reward for the slots since the last stake event is paid from the reward
/// vault. Only when that reward is positive is `amount` taken off the record
/// and the slot of the last event moved to `now`; an unstake that earns no
/// reward leaves the record as it was. A record left with no principal is no
/// longer staked, and its escrow vault is closed.
pub fn unstake(ctx: &mut Unstake, amount: u64, now: u64) -> (r: Result<UnstakeOutcome, AppError>)
    requires
        old(ctx).wf(),
    ensures
        match unstake_error(*old(ctx), amount, now) {
            Some(e) => r == Err::<UnstakeOutcome, AppError>(e) && *final(ctx) == *old(ctx),
            None => r == Ok::<UnstakeOutcome, AppError>(unstake_outcome(*old(ctx), amount, now))
                && *final(ctx) == unstaked(*old(ctx), amount, now),
        },
        final(ctx).wf(),
        old(ctx).stake_info.wf() ==> final(ctx).stake_info.wf(),
        final(ctx).stake_info.stake_at >= old(ctx).stake_info.stake_at,
        final(ctx).staker_token_account + balance_of(final(ctx).vault_token_account)
            + final(ctx).reward_vault == old(ctx).staker_token_account + balance_of(
            old(ctx).vault_token_account,
        ) + old(ctx).reward_vault,
{
    let info = ctx.stake_info;
    if !info.is_staked {
        return Err(AppError::NotStaked);
    }
    if amount > info.amount {
        return Err(AppError::OverStakeBalance);
    }
    if now < info.stake_at {
        return Err(AppError::ClockRegression);
    }
    let elapsed = now - info.stake_at;
    let vault: u64 = match ctx.vault_token_account {
        Some(b) => b,
        None => 0,
    };
    if info.amount > vault {
        return Err(AppError::InsufficientFunds);
    }
    let reward = match reward_for(info.amount, elapsed) {
        Ok(v) => v,
        Err(e) => return Err(e),
    };
    if reward > ctx.reward_vault {
        return Err(AppError::InsufficientFunds);
    }
    let left: u64 = if reward > 0 {
        info.amount - amount
    } else {
        info.amount
    };
    let vault_left = vault - info.amount;
    let closed = left == 0;
    if closed && vault_left != 0 {
        return Err(AppError::NonZeroBalance);
    }
    ctx.staker_token_account = ctx.staker_token_account + info.amount + reward;
    ctx.reward_vault = ctx.reward_vault - reward;
    ctx.stake_info.amount = left;
    if reward > 0 {
        ctx.stake_info.stake_at = now;
    }
    if closed {
        ctx.stake_info.is_staked = false;
        ctx.vault_token_account = None;
    } else {
        ctx.vault_token_account = Some(vault_left);
    }
    Ok(UnstakeOutcome { principal: info.amount, reward, vault_closed: closed })
}

} // verus!
