use vstd::prelude::*;
use crate::errors::{settles, StreakError};
use crate::pubkey::Pubkey;
use crate::state::game_state::GameState;

verus! {

/// The ledger and the identity asking to change the check-in interval.
#[derive(Clone, Copy, Debug)]
pub struct SetCheckinInterval {
    pub game_state: GameState,
    pub authority: Pubkey,
}

/// What setting the interval to `seconds` does: the rejection, or the records afterwards.
pub open spec fn interval_outcome(pre: SetCheckinInterval, seconds: i64) -> Result<
    SetCheckinInterval,
    StreakError,
> {
    if pre.game_state.authority@ != pre.authority@ {
        Err(StreakError::Unauthorized)
    } else if seconds <= 0 {
        Err(StreakError::InvalidInterval)
    } else {
        Ok(
            SetCheckinInterval {
                game_state: GameState { checkin_interval_seconds: seconds, ..pre.game_state },
                ..pre
            },
        )
    }
}

/// Sets the length of a check-in period. Only the ledger's authority may do this.
pub fn handler(ctx: &mut SetCheckinInterval, interval_seconds: i64) -> (r: Result<
    (),
    StreakError,
>)
    ensures
        settles(interval_outcome(*old(ctx), interval_seconds), *old(ctx), *final(ctx), r),
{
    if !(ctx.game_state.authority == ctx.authority) {
        return Err(StreakError::Unauthorized);
    }
    if interval_seconds <= 0 {
        return Err(StreakError::InvalidInterval);
    }
    ctx.game_state.checkin_interval_seconds = interval_seconds;
    Ok(())
}

} // verus!
