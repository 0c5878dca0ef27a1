use vstd::prelude::*;

use crate::state::{Address, StakeInfo};

verus! {

/// The balance of a token account that may not exist; a missing account holds nothing.
pub open spec fn balance_of(account: Option<u64>) -> int {
    match account {
        Some(b) => b as int,
        None => 0,
    }
}

/// The accounts of the instruction that opens the reward vault of a mint.
#[derive(Clone, Copy, Debug, PartialEq, Eq)]
pub struct Initialize {
    /// Who pays for the reward vault.
    pub admin: Address,
    /// The mint whose rewards the vault holds.
    pub mint: Address,
    /// The balance of the reward vault, `None` while it does not exist.
    pub reward_vault: Option<u64>,
}

/// The accounts of the stake instruction.
#[derive(Clone, Copy, Debug, PartialEq, Eq)]
pub struct Stake {
    /// Who stakes.
    pub staker: Address,
    /// The mint of the staked token.
    pub mint: Address,
    /// The balance of the staker's own token account.
    pub staker_token_account: u64,
    /// The stake record of this staker and mint.
    pub stake_info: StakeInfo,
    /// The balance of the escrow vault, `None` while it does not exist.
    pub vault_token_account: Option<u64>,
}

/// The accounts of the unstake instruction.
#[derive(Clone, Copy, Debug, PartialEq, Eq)]
pub struct Unstake {
    /// Who unstakes.
    pub staker: Address,
    /// The mint of the staked token.
    pub mint: Address,
    /// The balance of the staker's own token account.
    pub staker_token_account: u64,
    /// The stake record of this staker and mint.
    pub stake_info: StakeInfo,
    /// The balance of the escrow vault, `None` while it does not exist.
    pub vault_token_account: Option<u64>,
    /// The balance of the mint's shared reward vault.
    pub reward_vault: u64,
}

impl Stake {
    /// The token balances that the instruction moves between sum to no more
    /// than a mint's supply can be, a `u64`.
    pub open spec fn wf(self) -> bool {
        self.staker_token_account + balance_of(self.vault_token_account) <= u64::MAX as int
    }

    /// The same position seen by the unstake instruction, beside the mint's reward vault.
    pub open spec fn with_reward_vault(self, reward_vault: u64) -> Unstake {
        Unstake {
            staker: self.staker,
            mint: self.mint,
            staker_token_account: self.staker_token_account,
            stake_info: self.stake_info,
            vault_token_account: self.vault_token_account,
            reward_vault,
        }
    }
}

impl Unstake {
    /// The token balances that the instruction moves between sum to no more
    /// than a mint's supply can be, a `u64`.
    pub open spec fn wf(self) -> bool {
        self.staker_token_account + balance_of(self.vault_token_account) + self.reward_vault
            <= u64::MAX as int
    }

    /// The same position seen by the stake instruction.
    pub open spec fn stake_accounts(self) -> Stake {
        Stake {
            staker: self.staker,
            mint: self.mint,
            staker_token_account: self.staker_token_account,
            stake_info: self.stake_info,
            vault_token_account: self.vault_token_account,
        }
    }
}

/// What one successful unstake moved, for the caller to carry out on the ledger.
#[derive(Clone, Copy, Debug, PartialEq, Eq, Structural)]
pub struct UnstakeOutcome {
    /// Tokens moved from the escrow vault to the staker: the whole principal.
    pub principal: u64,
    /// Tokens moved from the reward vault to the staker; none moves when zero.
    pub reward: u64,
    /// Whether the escrow vault was closed, its rent going to the staker.
    pub vault_closed: bool,
}

} // verus!
