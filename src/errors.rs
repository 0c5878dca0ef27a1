use vstd::prelude::*;

verus! {

/// The ways in which an instruction of the stake program fails.
#[derive(Clone, Copy, Debug, PartialEq, Eq, Structural)]
pub enum AppError {
    /// Tokens are already staked.
    IsStaked,
    /// Tokens are not staked.
    NotStaked,
    /// No token to stake.
    NoToken,
    /// Over your stake balance.
    OverStakeBalance,
    /// A token account holds less than a transfer moves out of it.
    InsufficientFunds,
    /// The reward does not fit in a `u64`.
    RewardOverflow,
    /// The clock reads earlier than the last stake event.
    ClockRegression,
    /// The vault still holds tokens when it is to be closed.
    NonZeroBalance,
}

} // verus!
