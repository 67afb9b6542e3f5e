use vstd::prelude::*;
use crate::constants::SECONDS_PER_DAY;
use crate::pubkey::Pubkey;
use crate::state::game_state::GameState;

verus! {

/// The ledger being set up and the identities it is given.
#[derive(Clone, Copy, Debug)]
pub struct Initialize {
    pub game_state: GameState,
    pub treasury: Pubkey,
    pub authority: Pubkey,
    pub game_state_bump: u8,
}

/// The ledger as initialization leaves it: empty, with a one-day check-in interval.
pub open spec fn initialized(pre: Initialize) -> GameState {
    GameState {
        authority: pre.authority,
        treasury: pre.treasury,
        total_players: 0,
        total_pool: 0,
        last_death_timestamp: 0,
        total_deaths: 0,
        current_bonus_window: 0,
        bonus_window_end: 0,
        checkin_interval_seconds: SECONDS_PER_DAY,
        bump: pre.game_state_bump,
    }
}

/// Sets up the ledger with its authority and treasury.
pub fn handler(ctx: &mut Initialize) -> (r: Result<(), crate::errors::StreakError>)
    ensures
        r is Ok,
        *final(ctx) == (Initialize { game_state: initialized(*old(ctx)), ..*old(ctx) }),
        final(ctx).game_state.wf(),
{
    ctx.game_state = GameState {
        authority: ctx.authority,
        treasury: ctx.treasury,
        total_players: 0,
        total_pool: 0,
        last_death_timestamp: 0,
        total_deaths: 0,
        current_bonus_window: 0,
        bonus_window_end: 0,
        checkin_interval_seconds: SECONDS_PER_DAY,
        bump: ctx.game_state_bump,
    };
    Ok(())
}

} // verus!
