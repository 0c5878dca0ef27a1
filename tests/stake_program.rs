use stake_program::accounts::{Initialize, Stake, Unstake, UnstakeOutcome};
use stake_program::errors::AppError;
use stake_program::instructions::{initialize, stake, unstake};
use stake_program::reward::reward_for;
use stake_program::state::{Address, StakeInfo};

fn staker() -> Address {
    Address([7u8; 32])
}

fn mint() -> Address {
    Address([9u8; 32])
}

fn fresh_stake(wallet: u64) -> Stake {
    Stake {
        staker: staker(),
        mint: mint(),
        staker_token_account: wallet,
        stake_info: StakeInfo::empty(staker(), mint()),
        vault_token_account: None,
    }
}

fn to_unstake(s: &Stake, reward_vault: u64) -> Unstake {
    Unstake {
        staker: s.staker,
        mint: s.mint,
        staker_token_account: s.staker_token_account,
        stake_info: s.stake_info,
        vault_token_account: s.vault_token_account,
        reward_vault,
    }
}

fn to_stake(u: &Unstake) -> Stake {
    Stake {
        staker: u.staker,
        mint: u.mint,
        staker_token_account: u.staker_token_account,
        stake_info: u.stake_info,
        vault_token_account: u.vault_token_account,
    }
}

#[test]
fn stake_records_and_escrows() {
    let mut s = fresh_stake(5000);
    assert_eq!(stake(&mut s, 1000, 3), Ok(()));
    assert_eq!(s.staker_token_account, 4000);
    assert_eq!(s.vault_token_account, Some(1000));
    assert_eq!(s.stake_info.amount, 1000);
    assert_eq!(s.stake_info.stake_at, 3);
    assert!(s.stake_info.is_staked);
    assert_eq!(s.stake_info.staker, staker());
    assert_eq!(s.stake_info.mint, mint());
}

#[test]
fn second_stake_fails_and_changes_nothing() {
    let mut s = fresh_stake(5000);
    assert_eq!(stake(&mut s, 1000, 0), Ok(()));
    let before = s;
    assert_eq!(stake(&mut s, 500, 4), Err(AppError::IsStaked));
    assert_eq!(s, before);
    assert_eq!(stake(&mut s, 0, 4), Err(AppError::IsStaked));
    assert_eq!(s, before);
}

#[test]
fn stake_of_zero_fails() {
    let mut s = fresh_stake(5000);
    let before = s;
    assert_eq!(stake(&mut s, 0, 0), Err(AppError::NoToken));
    assert_eq!(s, before);
}

#[test]
fn stake_beyond_wallet_fails() {
    let mut s = fresh_stake(999);
    let before = s;
    assert_eq!(stake(&mut s, 1000, 0), Err(AppError::InsufficientFunds));
    assert_eq!(s, before);
}

#[test]
fn partial_unstake_after_ten_slots() {
    let mut s = fresh_stake(5000);
    assert_eq!(stake(&mut s, 1000, 0), Ok(()));
    let mut u = to_unstake(&s, 10_000);
    let out = unstake(&mut u, 500, 10);
    assert_eq!(out, Ok(UnstakeOutcome { principal: 1000, reward: 100, vault_closed: false }));
    assert_eq!(u.stake_info.amount, 500);
    assert_eq!(u.stake_info.stake_at, 10);
    assert!(u.stake_info.is_staked);
    assert_eq!(u.staker_token_account, 5100);
    assert_eq!(u.vault_token_account, Some(0));
    assert_eq!(u.reward_vault, 9900);
}

#[test]
fn full_unstake_in_same_slot_leaves_record() {
    let mut s = fresh_stake(5000);
    assert_eq!(stake(&mut s, 1000, 0), Ok(()));
    let mut u = to_unstake(&s, 10_000);
    let out = unstake(&mut u, 1000, 0);
    assert_eq!(out, Ok(UnstakeOutcome { principal: 1000, reward: 0, vault_closed: false }));
    assert_eq!(u.stake_info.amount, 1000);
    assert!(u.stake_info.is_staked);
    assert_eq!(u.stake_info.stake_at, 0);
    assert_eq!(u.vault_token_account, Some(0));
    assert_eq!(u.reward_vault, 10_000);
}

#[test]
fn same_slot_round_trip_restores_wallet() {
    let mut s = fresh_stake(4321);
    assert_eq!(stake(&mut s, 1234, 77), Ok(()));
    let mut u = to_unstake(&s, 50);
    assert!(unstake(&mut u, 600, 77).is_ok());
    assert_eq!(u.staker_token_account, 4321);
    assert_eq!(u.reward_vault, 50);
}

#[test]
fn reward_grows_with_time() {
    assert_eq!(reward_for(1000, 10), Ok(100));
    assert_eq!(reward_for(1000, 20), Ok(200));
    assert_eq!(reward_for(1000, 0), Ok(0));
    assert_eq!(reward_for(12_345, 7), Ok(7 * 123));
    let mut last = 0;
    for t in 0..50u64 {
        let r = reward_for(25_000, t).unwrap();
        assert!(r >= last);
        assert_eq!(reward_for(25_000, 2 * t).unwrap(), 2 * r);
        last = r;
    }
}

#[test]
fn small_stake_earns_nothing() {
    assert_eq!(reward_for(99, 1_000_000), Ok(0));
    assert_eq!(reward_for(100, 3), Ok(3));
}

#[test]
fn reward_overflow_is_reported() {
    assert_eq!(reward_for(u64::MAX / 1000 + 1, 0), Err(AppError::RewardOverflow));
    assert_eq!(reward_for(u64::MAX / 1000, 1), Ok(u64::MAX / 1000 * 1000 / 100_000));
    assert_eq!(reward_for(1_000_000_000, u64::MAX / 2), Err(AppError::RewardOverflow));
}

#[test]
fn over_withdraw_is_rejected() {
    let mut s = fresh_stake(5000);
    assert_eq!(stake(&mut s, 1000, 0), Ok(()));
    let mut u = to_unstake(&s, 10_000);
    let before = u;
    assert_eq!(unstake(&mut u, 1001, 10), Err(AppError::OverStakeBalance));
    assert_eq!(u, before);
}

#[test]
fn unstake_without_stake_fails() {
    let s = fresh_stake(5000);
    let mut u = to_unstake(&s, 10_000);
    let before = u;
    assert_eq!(unstake(&mut u, 0, 10), Err(AppError::NotStaked));
    assert_eq!(u, before);
}

#[test]
fn clock_regression_is_rejected() {
    let mut s = fresh_stake(5000);
    assert_eq!(stake(&mut s, 1000, 50), Ok(()));
    let mut u = to_unstake(&s, 10_000);
    let before = u;
    assert_eq!(unstake(&mut u, 100, 49), Err(AppError::ClockRegression));
    assert_eq!(u, before);
}

#[test]
fn drained_position_closes_and_restakes() {
    let mut s = fresh_stake(5000);
    assert_eq!(stake(&mut s, 1000, 0), Ok(()));
    let mut u = to_unstake(&s, 10_000);
    let out = unstake(&mut u, 1000, 5);
    assert_eq!(out, Ok(UnstakeOutcome { principal: 1000, reward: 50, vault_closed: true }));
    assert!(!u.stake_info.is_staked);
    assert_eq!(u.stake_info.amount, 0);
    assert_eq!(u.vault_token_account, None);
    assert_eq!(u.staker_token_account, 5050);
    let mut again = to_stake(&u);
    assert_eq!(stake(&mut again, 2000, 8), Ok(()));
    assert_eq!(again.vault_token_account, Some(2000));
    assert_eq!(again.staker_token_account, 3050);
    assert!(again.stake_info.is_staked);
}

#[test]
fn second_unstake_after_partial_finds_vault_empty() {
    let mut s = fresh_stake(5000);
    assert_eq!(stake(&mut s, 1000, 0), Ok(()));
    let mut u = to_unstake(&s, 10_000);
    assert!(unstake(&mut u, 500, 10).is_ok());
    let before = u;
    assert_eq!(unstake(&mut u, 500, 20), Err(AppError::InsufficientFunds));
    assert_eq!(u, before);
}

#[test]
fn empty_reward_vault_fails_unstake() {
    let mut s = fresh_stake(5000);
    assert_eq!(stake(&mut s, 1000, 0), Ok(()));
    let mut u = to_unstake(&s, 99);
    let before = u;
    assert_eq!(unstake(&mut u, 500, 10), Err(AppError::InsufficientFunds));
    assert_eq!(u, before);
}

#[test]
fn reward_overflow_fails_unstake() {
    let mut s = fresh_stake(u64::MAX / 2);
    assert_eq!(stake(&mut s, u64::MAX / 4, 0), Ok(()));
    let mut u = to_unstake(&s, 0);
    let before = u;
    assert_eq!(unstake(&mut u, 1, 0), Err(AppError::RewardOverflow));
    assert_eq!(u, before);
}

#[test]
fn vault_with_extra_tokens_cannot_close() {
    let mut s = fresh_stake(5000);
    assert_eq!(stake(&mut s, 1000, 0), Ok(()));
    s.vault_token_account = Some(1500);
    let mut u = to_unstake(&s, 10_000);
    let before = u;
    assert_eq!(unstake(&mut u, 1000, 5), Err(AppError::NonZeroBalance));
    assert_eq!(u, before);
}

#[test]
fn initialize_opens_reward_vault_once() {
    let mut ctx = Initialize { admin: staker(), mint: mint(), reward_vault: None };
    assert_eq!(initialize(&mut ctx), Ok(()));
    assert_eq!(ctx.reward_vault, Some(0));
    ctx.reward_vault = Some(700);
    assert_eq!(initialize(&mut ctx), Ok(()));
    assert_eq!(ctx.reward_vault, Some(700));
}
