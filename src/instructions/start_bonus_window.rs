use vstd::prelude::*;
use crate::constants::BONUS_DURATION_SECONDS;
use crate::errors::{settles, StreakError};
use crate::pubkey::Pubkey;
use crate::state::game_state::GameState;

verus! {

/// The ledger and the identity asking to open a bonus window.
#[derive(Clone, Copy, Debug)]
pub struct StartBonusWindow {
    pub game_state: GameState,
    pub authority: Pubkey,
}

/// What opening window `window_id` at `now` does: the rejection, or the records afterwards.
pub open spec fn window_outcome(pre: StartBonusWindow, window_id: u64, now: i64) -> Result<
    StartBonusWindow,
    StreakError,
> {
    if pre.game_state.authority@ != pre.authority@ {
        Err(StreakError::Unauthorized)
    } else if window_id <= pre.game_state.current_bonus_window {
        Err(StreakError::InvalidWindow)
    } else if now + BONUS_DURATION_SECONDS > i64::MAX {
        Err(StreakError::Overflow)
    } else {
        Ok(
            StartBonusWindow {
                game_state: GameState {
                    current_bonus_window: window_id,
                    bonus_window_end: (now + BONUS_DURATION_SECONDS) as i64,
                    ..pre.game_state
                },
                ..pre
            },
        )
    }
}

/// Opens bonus window `window_id`, which closes `BONUS_DURATION_SECONDS` after `current_time`.
/// Only the ledger's authority may do this, and window ids must advance.
pub fn handler(ctx: &mut StartBonusWindow, window_id: u64, current_time: i64) -> (r: Result<
    (),
    StreakError,
>)
    ensures
        settles(window_outcome(*old(ctx), window_id, current_time), *old(ctx), *final(ctx), r),
{
    if !(ctx.game_state.authority == ctx.authority) {
        return Err(StreakError::Unauthorized);
    }
    if window_id <= ctx.game_state.current_bonus_window {
        return Err(StreakError::InvalidWindow);
    }
    let end = match current_time.checked_add(BONUS_DURATION_SECONDS) {
        Some(v) => v,
        None => {
            return Err(StreakError::Overflow);
        },
    };
    ctx.game_state.current_bonus_window = window_id;
    ctx.game_state.bonus_window_end = end;
    Ok(())
}

} // verus!
