use vstd::prelude::*;

verus! {

/// A 32-byte account address: a staker's wallet or a token mint.
#[derive(Clone, Copy, Debug, PartialEq, Eq)]
pub struct Address(pub [u8; 32]);

/// The stake record of one staker for one mint.
#[derive(Clone, Copy, Debug, PartialEq, Eq)]
pub struct StakeInfo {
    /// Who staked.
    pub staker: Address,
    /// Which token is staked.
    pub mint: Address,
    /// The slot of the last stake event: a stake, or an unstake that paid a reward.
    pub stake_at: u64,
    /// Whether tokens are currently staked.
    pub is_staked: bool,
    /// The principal currently in escrow.
    pub amount: u64,
}

impl StakeInfo {
    /// A record is staked exactly while it holds principal.
    pub open spec fn wf(self) -> bool {
        self.is_staked == (self.amount > 0)
    }

    /// The record of an account that has never been staked from.
    pub fn empty(staker: Address, mint: Address) -> (r: StakeInfo)
        ensures
            r.staker == staker,
            r.mint == mint,
            r.stake_at == 0,
            !r.is_staked,
            r.amount == 0,
            r.wf(),
    {
        StakeInfo { staker, mint, stake_at: 0, is_staked: false, amount: 0 }
    }
}

} // verus!
