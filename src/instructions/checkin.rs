use vstd::prelude::*;
use crate::constants::DAILY_GROWTH_BPS;
use crate::errors::{settles, StreakError};
use crate::rules::{grow, grown, has_lapsed, lapsed, period_index, period_of};
use crate::state::game_state::GameState;
use crate::state::player::Player;

verus! {

/// The records that a check-in reads and changes.
#[derive(Clone, Copy, Debug)]
pub struct Checkin {
    pub game_state: GameState,
    pub player: Player,
}

/// Whether the latest check-in already lies in the period of `now`.
pub open spec fn checked_in_this_period(p: Player, now: i64, interval: int) -> bool {
    period_of(p.last_checkin as int, interval) >= period_of(now as int, interval)
}

/// What a check-in at `now` does: the rejection, or the records afterwards.
pub open spec fn checkin_outcome(pre: Checkin, now: i64) -> Result<Checkin, StreakError> {
    let p = pre.player;
    let interval = pre.game_state.checkin_interval_seconds as int;
    if !p.is_active {
        Err(StreakError::NotStaked)
    } else if lapsed(p.last_checkin as int, p.start_day as int, now as int, interval) {
        Err(StreakError::PlayerDead)
    } else if checked_in_this_period(p, now, interval) {
        Err(StreakError::AlreadyCheckedIn)
    } else if grown(p.stake, DAILY_GROWTH_BPS) is None || p.streak_days == u32::MAX {
        Err(StreakError::Overflow)
    } else {
        Ok(
            Checkin {
                player: Player {
                    stake: grown(p.stake, DAILY_GROWTH_BPS)->0,
                    streak_days: (p.streak_days + 1) as u32,
                    last_checkin: now,
                    ..p
                },
                ..pre
            },
        )
    }
}

/// Records the participant's check-in for the period of `current_time` and applies one
/// period's growth to the stake. A participant whose life has lapsed is told so and must be
/// settled instead.
pub fn handler(ctx: &mut Checkin, current_time: i64) -> (r: Result<(), StreakError>)
    requires
        old(ctx).game_state.wf(),
    ensures
        settles(checkin_outcome(*old(ctx), current_time), *old(ctx), *final(ctx), r),
{
    let interval = ctx.game_state.checkin_interval_seconds;
    if !ctx.player.is_active {
        return Err(StreakError::NotStaked);
    }
    if has_lapsed(ctx.player.last_checkin, ctx.player.start_day, current_time, interval) {
        return Err(StreakError::PlayerDead);
    }
    let current_period = period_index(current_time, interval);
    let last_checkin_period = period_index(ctx.player.last_checkin, interval);
    if last_checkin_period >= current_period {
        return Err(StreakError::AlreadyCheckedIn);
    }
    let stake = match grow(ctx.player.stake, DAILY_GROWTH_BPS) {
        Some(v) => v,
        None => {
            return Err(StreakError::Overflow);
        },
    };
    let streak_days = match ctx.player.streak_days.checked_add(1) {
        Some(v) => v,
        None => {
            return Err(StreakError::Overflow);
        },
    };
    ctx.player.stake = stake;
    ctx.player.streak_days = streak_days;
    ctx.player.last_checkin = current_time;
    Ok(())
}

} // verus!
