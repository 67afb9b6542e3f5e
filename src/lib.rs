pub mod constants;
pub mod errors;
pub mod instructions;
pub mod pubkey;
pub mod rules;
pub mod state;
pub mod theorems;

use vstd::prelude::*;
use crate::errors::{settles, StreakError};
use crate::instructions::checkin::{checkin_outcome, Checkin};
use crate::instructions::claim_bonus::{bonus_outcome, ClaimBonus};
use crate::instructions::claim_rewards::{rewards_outcome, ClaimRewards};
use crate::instructions::initialize::{initialized, Initialize};
use crate::instructions::process_death::{death_outcome, ProcessDeath};
use crate::instructions::set_checkin_interval::{interval_outcome, SetCheckinInterval};
use crate::instructions::stake::{stake_outcome, Stake};
use crate::instructions::start_bonus_window::{window_outcome, StartBonusWindow};
use crate::instructions::withdraw::{withdraw_outcome, Withdraw};
use crate::pubkey::Pubkey;

verus! {

/// Sets up the ledger (one-time).
pub fn initialize(ctx: &mut Initialize) -> (r: Result<(), StreakError>)
    ensures
        r is Ok,
        *final(ctx) == (Initialize { game_state: initialized(*old(ctx)), ..*old(ctx) }),
        final(ctx).game_state.wf(),
{
    instructions::initialize::handler(ctx)
}

/// Stakes `amount` to enter the game, or to re-enter it after death.
pub fn stake(ctx: &mut Stake, amount: u64, referrer: Option<Pubkey>, current_time: i64) -> (r:
    Result<(), StreakError>)
    requires
        old(ctx).game_state.wf(),
    ensures
        settles(stake_outcome(*old(ctx), amount, referrer, current_time), *old(ctx), *final(ctx), r),
{
    instructions::stake::handler(ctx, amount, referrer, current_time)
}

/// Periodic check-in that keeps the streak alive.
pub fn checkin(ctx: &mut Checkin, current_time: i64) -> (r: Result<(), StreakError>)
    requires
        old(ctx).game_state.wf(),
    ensures
        settles(checkin_outcome(*old(ctx), current_time), *old(ctx), *final(ctx), r),
{
    instructions::checkin::handler(ctx, current_time)
}

/// Claims the bonus of the open bonus window.
pub fn claim_bonus(ctx: &mut ClaimBonus, current_time: i64) -> (r: Result<(), StreakError>)
    ensures
        settles(bonus_outcome(*old(ctx), current_time), *old(ctx), *final(ctx), r),
{
    instructions::claim_bonus::handler(ctx, current_time)
}

/// Settles a lapsed participant (anyone may call it).
pub fn process_death(ctx: &mut ProcessDeath, current_time: i64) -> (r: Result<(), StreakError>)
    requires
        old(ctx).game_state.wf(),
    ensures
        settles(death_outcome(*old(ctx), current_time), *old(ctx), *final(ctx), r),
{
    instructions::process_death::handler(ctx, current_time)
}

/// Withdraws stake and pending rewards, leaving the game.
pub fn withdraw(ctx: &mut Withdraw) -> (r: Result<(), StreakError>)
    ensures
        settles(withdraw_outcome(*old(ctx)), *old(ctx), *final(ctx), r),
{
    instructions::withdraw::handler(ctx)
}

/// Claims pending referral rewards.
pub fn claim_rewards(ctx: &mut ClaimRewards) -> (r: Result<(), StreakError>)
    ensures
        settles(rewards_outcome(*old(ctx)), *old(ctx), *final(ctx), r),
{
    instructions::claim_rewards::handler(ctx)
}

/// Opens a new bonus window (authority only).
pub fn start_bonus_window(ctx: &mut StartBonusWindow, window_id: u64, current_time: i64) -> (r:
    Result<(), StreakError>)
    ensures
        settles(window_outcome(*old(ctx), window_id, current_time), *old(ctx), *final(ctx), r),
{
    instructions::start_bonus_window::handler(ctx, window_id, current_time)
}

/// Sets the check-in interval (authority only).
pub fn set_checkin_interval(ctx: &mut SetCheckinInterval, interval_seconds: i64) -> (r: Result<
    (),
    StreakError,
>)
    ensures
        settles(interval_outcome(*old(ctx), interval_seconds), *old(ctx), *final(ctx), r),
{
    instructions::set_checkin_interval::handler(ctx, interval_seconds)
}

} // verus!
