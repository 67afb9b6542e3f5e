use vstd::prelude::*;
use crate::errors::{settles, StreakError};
use crate::state::player::Player;

verus! {

/// The record and balances that a reward claim reads and changes.
#[derive(Clone, Copy, Debug)]
pub struct ClaimRewards {
    pub player: Player,
    /// Balance held by the pool
    pub vault_lamports: u64,
    /// Balance of the claiming participant
    pub user_lamports: u64,
}

/// What a reward claim does: the rejection, or the record and balances afterwards.
pub open spec fn rewards_outcome(pre: ClaimRewards) -> Result<ClaimRewards, StreakError> {
    let amount = pre.player.pending_rewards;
    if amount == 0 {
        Err(StreakError::NoRewards)
    } else if pre.vault_lamports < amount {
        Err(StreakError::InsufficientFunds)
    } else if pre.user_lamports + amount > u64::MAX {
        Err(StreakError::Overflow)
    } else {
        Ok(
            ClaimRewards {
                player: Player { pending_rewards: 0, ..pre.player },
                vault_lamports: (pre.vault_lamports - amount) as u64,
                user_lamports: (pre.user_lamports + amount) as u64,
            },
        )
    }
}

/// Pays the participant's pending referral rewards out of the pool.
pub fn handler(ctx: &mut ClaimRewards) -> (r: Result<(), StreakError>)
    ensures
        settles(rewards_outcome(*old(ctx)), *old(ctx), *final(ctx), r),
{
    let rewards = ctx.player.pending_rewards;
    if rewards == 0 {
        return Err(StreakError::NoRewards);
    }
    let vault = match ctx.vault_lamports.checked_sub(rewards) {
        Some(v) => v,
        None => {
            return Err(StreakError::InsufficientFunds);
        },
    };
    let user = match ctx.user_lamports.checked_add(rewards) {
        Some(v) => v,
        None => {
            return Err(StreakError::Overflow);
        },
    };
    ctx.vault_lamports = vault;
    ctx.user_lamports = user;
    ctx.player.pending_rewards = 0;
    Ok(())
}

} // verus!
