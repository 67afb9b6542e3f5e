use vstd::prelude::*;
use crate::errors::{settles, StreakError};
use crate::state::game_state::GameState;
use crate::state::player::Player;

verus! {

/// The records and balances that a withdrawal reads and changes.
#[derive(Clone, Copy, Debug)]
pub struct Withdraw {
    pub game_state: GameState,
    pub player: Player,
    /// Balance held by the pool
    pub vault_lamports: u64,
    /// Balance of the withdrawing participant
    pub user_lamports: u64,
}

/// What a withdrawal does: the rejection, or the records and balances afterwards.
pub open spec fn withdraw_outcome(pre: Withdraw) -> Result<Withdraw, StreakError> {
    let p = pre.player;
    let gs = pre.game_state;
    let total = p.stake + p.pending_rewards;
    if !p.is_active {
        Err(StreakError::NotStaked)
    } else if total > u64::MAX {
        Err(StreakError::Overflow)
    } else if pre.vault_lamports < total {
        Err(StreakError::InsufficientFunds)
    } else if pre.user_lamports + total > u64::MAX || gs.total_players == 0 || gs.total_pool
        < p.stake {
        Err(StreakError::Overflow)
    } else {
        Ok(
            Withdraw {
                game_state: GameState {
                    total_players: (gs.total_players - 1) as u64,
                    total_pool: (gs.total_pool - p.stake) as u64,
                    ..gs
                },
                player: Player {
                    is_active: false,
                    stake: 0,
                    streak_days: 0,
                    pending_rewards: 0,
                    ..p
                },
                vault_lamports: (pre.vault_lamports - total) as u64,
                user_lamports: (pre.user_lamports + total) as u64,
            },
        )
    }
}

/// Ends the participant's life by choice, paying out stake and pending rewards.
pub fn handler(ctx: &mut Withdraw) -> (r: Result<(), StreakError>)
    ensures
        settles(withdraw_outcome(*old(ctx)), *old(ctx), *final(ctx), r),
{
    if !ctx.player.is_active {
        return Err(StreakError::NotStaked);
    }
    let player_stake = ctx.player.stake;
    let total_withdraw = match player_stake.checked_add(ctx.player.pending_rewards) {
        Some(v) => v,
        None => {
            return Err(StreakError::Overflow);
        },
    };
    let vault = match ctx.vault_lamports.checked_sub(total_withdraw) {
        Some(v) => v,
        None => {
            return Err(StreakError::InsufficientFunds);
        },
    };
    let user = match ctx.user_lamports.checked_add(total_withdraw) {
        Some(v) => v,
        None => {
            return Err(StreakError::Overflow);
        },
    };
    let total_players = match ctx.game_state.total_players.checked_sub(1) {
        Some(v) => v,
        None => {
            return Err(StreakError::Overflow);
        },
    };
    let total_pool = match ctx.game_state.total_pool.checked_sub(player_stake) {
        Some(v) => v,
        None => {
            return Err(StreakError::Overflow);
        },
    };
    ctx.player.is_active = false;
    ctx.player.stake = 0;
    ctx.player.streak_days = 0;
    ctx.player.pending_rewards = 0;
    ctx.vault_lamports = vault;
    ctx.user_lamports = user;
    ctx.game_state.total_players = total_players;
    ctx.game_state.total_pool = total_pool;
    Ok(())
}

} // verus!
