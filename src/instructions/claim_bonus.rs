use vstd::prelude::*;
use crate::constants::BONUS_GROWTH_BPS;
use crate::errors::{settles, StreakError};
use crate::rules::{grow, grown};
use crate::state::game_state::{bonus_open, GameState};
use crate::state::player::Player;

verus! {

/// The records that a bonus claim reads and changes.
#[derive(Clone, Copy, Debug)]
pub struct ClaimBonus {
    pub game_state: GameState,
    pub player: Player,
}

/// What a bonus claim at `now` does: the rejection, or the records afterwards.
pub open spec fn bonus_outcome(pre: ClaimBonus, now: i64) -> Result<ClaimBonus, StreakError> {
    let p = pre.player;
    let gs = pre.game_state;
    if !p.is_active {
        Err(StreakError::NotStaked)
    } else if !bonus_open(gs, now) {
        Err(StreakError::NoBonusWindow)
    } else if p.last_bonus_claimed >= gs.current_bonus_window {
        Err(StreakError::AlreadyClaimed)
    } else if grown(p.stake, BONUS_GROWTH_BPS) is None || p.total_bonus_claims == u32::MAX {
        Err(StreakError::Overflow)
    } else {
        Ok(
            ClaimBonus {
                player: Player {
                    stake: grown(p.stake, BONUS_GROWTH_BPS)->0,
                    last_bonus_claimed: gs.current_bonus_window,
                    total_bonus_claims: (p.total_bonus_claims + 1) as u32,
                    ..p
                },
                ..pre
            },
        )
    }
}

/// Applies the bonus growth once for the open bonus window.
pub fn handler(ctx: &mut ClaimBonus, current_time: i64) -> (r: Result<(), StreakError>)
    ensures
        settles(bonus_outcome(*old(ctx), current_time), *old(ctx), *final(ctx), r),
{
    if !ctx.player.is_active {
        return Err(StreakError::NotStaked);
    }
    if !ctx.game_state.is_bonus_window_active(current_time) {
        return Err(StreakError::NoBonusWindow);
    }
    if ctx.player.last_bonus_claimed >= ctx.game_state.current_bonus_window {
        return Err(StreakError::AlreadyClaimed);
    }
    let stake = match grow(ctx.player.stake, BONUS_GROWTH_BPS) {
        Some(v) => v,
        None => {
            return Err(StreakError::Overflow);
        },
    };
    let claims = match ctx.player.total_bonus_claims.checked_add(1) {
        Some(v) => v,
        None => {
            return Err(StreakError::Overflow);
        },
    };
    ctx.player.stake = stake;
    ctx.player.last_bonus_claimed = ctx.game_state.current_bonus_window;
    ctx.player.total_bonus_claims = claims;
    Ok(())
}

} // verus!
