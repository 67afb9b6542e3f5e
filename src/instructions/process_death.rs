use vstd::prelude::*;
use crate::constants::{BPS_DENOMINATOR, PROTOCOL_FEE_BPS, REFERRAL_CUT_BPS};
use crate::errors::{settles, StreakError};
use crate::rules::{has_lapsed, lapsed};
use crate::state::game_state::GameState;
use crate::state::player::{link_is, links_to, saturating_inc, Player};

verus! {

/// The records that settling a lapsed participant reads and changes.
#[derive(Clone, Copy, Debug)]
pub struct ProcessDeath {
    pub game_state: GameState,
    /// The participant submitted for settlement
    pub dead_player: Player,
    /// Supplied records for the first three levels of the referral chain
    pub referrer_1: Option<Player>,
    pub referrer_2: Option<Player>,
    pub referrer_3: Option<Player>,
}

/// Protocol fee taken from a liquidated stake.
pub open spec fn protocol_fee(stake: u64) -> int {
    stake * PROTOCOL_FEE_BPS / BPS_DENOMINATOR as int
}

/// What each paid referral level receives from a liquidated stake.
pub open spec fn referral_cut(stake: u64) -> int {
    stake * REFERRAL_CUT_BPS / BPS_DENOMINATOR as int
}

/// The first level is paid when its supplied record is the one the target names as referrer.
pub open spec fn level_1_paid(pre: ProcessDeath) -> bool {
    pre.referrer_1 is Some && links_to(pre.dead_player.referrer, pre.referrer_1->0.wallet)
}

/// A deeper level is paid when the level above was paid and names the supplied record.
pub open spec fn level_2_paid(pre: ProcessDeath) -> bool {
    level_1_paid(pre) && pre.referrer_2 is Some && links_to(
        pre.referrer_1->0.referrer,
        pre.referrer_2->0.wallet,
    )
}

pub open spec fn level_3_paid(pre: ProcessDeath) -> bool {
    level_2_paid(pre) && pre.referrer_3 is Some && links_to(
        pre.referrer_2->0.referrer,
        pre.referrer_3->0.wallet,
    )
}

/// Number of referral levels paid on liquidation.
pub open spec fn levels_paid(pre: ProcessDeath) -> int {
    if level_3_paid(pre) {
        3
    } else if level_2_paid(pre) {
        2
    } else if level_1_paid(pre) {
        1
    } else {
        0
    }
}

/// Sum paid to the referral chain on liquidation.
pub open spec fn referral_paid(pre: ProcessDeath) -> int {
    referral_cut(pre.dead_player.stake) * levels_paid(pre)
}

/// What of the liquidated stake stays in the pool, net of fee and referral payouts.
pub open spec fn pool_addition(pre: ProcessDeath) -> int {
    pre.dead_player.stake - protocol_fee(pre.dead_player.stake) - referral_paid(pre)
}

/// A referrer's record credited with `cut`, or `None` when a counter would overflow.
pub open spec fn rewarded(p: Player, cut: u64) -> Option<Player> {
    if p.pending_rewards + cut > u64::MAX || p.referral_earnings + cut > u64::MAX {
        None
    } else {
        Some(
            Player {
                pending_rewards: (p.pending_rewards + cut) as u64,
                referral_earnings: (p.referral_earnings + cut) as u64,
                ..p
            },
        )
    }
}

/// A supplied level record after settlement, or `None` when paying it would overflow.
pub open spec fn level_after(level: Option<Player>, paid: bool, cut: u64) -> Option<
    Option<Player>,
> {
    if paid {
        match rewarded(level->0, cut) {
            Some(p) => Some(Some(p)),
            None => None,
        }
    } else {
        Some(level)
    }
}

/// The target's record after a lifeline saves it.
pub open spec fn saved(p: Player, now: i64) -> Player {
    Player {
        lifelines: (p.lifelines - 1) as u8,
        lifelines_used: saturating_inc(p.lifelines_used),
        last_checkin: now,
        ..p
    }
}

/// The target's record after liquidation.
pub open spec fn liquidated(p: Player) -> Player {
    Player { is_active: false, stake: 0, streak_days: 0, ..p }
}

/// Whether liquidating `pre.dead_player` would take a counter or balance past its range.
pub open spec fn liquidation_overflows(pre: ProcessDeath) -> bool {
    let gs = pre.game_state;
    let s = pre.dead_player.stake;
    let cut = referral_cut(s) as u64;
    ||| s * REFERRAL_CUT_BPS > u64::MAX
    ||| level_after(pre.referrer_1, level_1_paid(pre), cut) is None
    ||| level_after(pre.referrer_2, level_2_paid(pre), cut) is None
    ||| level_after(pre.referrer_3, level_3_paid(pre), cut) is None
    ||| gs.total_deaths == u64::MAX
    ||| gs.total_players == 0
    ||| gs.total_pool < s
}

/// What settling `pre.dead_player` at `now` does: the rejection, or the records afterwards.
pub open spec fn death_outcome(pre: ProcessDeath, now: i64) -> Result<ProcessDeath, StreakError> {
    let p = pre.dead_player;
    let gs = pre.game_state;
    let s = p.stake;
    let cut = referral_cut(s) as u64;
    let l1 = level_after(pre.referrer_1, level_1_paid(pre), cut);
    let l2 = level_after(pre.referrer_2, level_2_paid(pre), cut);
    let l3 = level_after(pre.referrer_3, level_3_paid(pre), cut);
    if !p.is_active {
        Err(StreakError::NotStaked)
    } else if !lapsed(
        p.last_checkin as int,
        p.start_day as int,
        now as int,
        gs.checkin_interval_seconds as int,
    ) {
        Err(StreakError::PlayerNotDead)
    } else if p.lifelines > 0 {
        Ok(ProcessDeath { dead_player: saved(p, now), ..pre })
    } else if liquidation_overflows(pre) {
        Err(StreakError::Overflow)
    } else {
        Ok(
            ProcessDeath {
                game_state: GameState {
                    total_deaths: (gs.total_deaths + 1) as u64,
                    total_players: (gs.total_players - 1) as u64,
                    last_death_timestamp: now,
                    total_pool: (gs.total_pool - s + pool_addition(pre)) as u64,
                    ..gs
                },
                dead_player: liquidated(p),
                referrer_1: l1->0,
                referrer_2: l2->0,
                referrer_3: l3->0,
            },
        )
    }
}

/// Fee and three referral cuts never exceed the stake they are taken from.
pub proof fn lemma_split_bounds(s: u64)
    ensures
        0 <= protocol_fee(s),
        0 <= referral_cut(s),
        protocol_fee(s) + 3 * referral_cut(s) <= s,
{
    let f = s * 300 / 10000;
    let c = s * 500 / 10000;
    assert(f * 10000 <= s * 300) by (nonlinear_arith)
        requires
            f == s * 300 / 10000,
            s >= 0,
    ;
    assert(c * 10000 <= s * 500) by (nonlinear_arith)
        requires
            c == s * 500 / 10000,
            s >= 0,
    ;
    assert(f >= 0 && c >= 0) by (nonlinear_arith)
        requires
            f == s * 300 / 10000,
            c == s * 500 / 10000,
            s >= 0,
    ;
}

/// `p` credited with `cut`, or `None` on overflow.
fn pay_referrer(p: Player, cut: u64) -> (r: Option<Player>)
    ensures
        r == rewarded(p, cut),
{
    let pending = match p.pending_rewards.checked_add(cut) {
        Some(v) => v,
        None => {
            return None;
        },
    };
    let earnings = match p.referral_earnings.checked_add(cut) {
        Some(v) => v,
        None => {
            return None;
        },
    };
    Some(Player { pending_rewards: pending, referral_earnings: earnings, ..p })
}

/// Settles a participant whose life has lapsed at `current_time`; anyone may ask. A lifeline,
/// where one is left, saves the participant. Otherwise the stake is liquidated: the protocol
/// fee is set aside for the treasury (the caller moves it), each valid level of the referral
/// chain is credited its cut, and the rest stays in the pool.
pub fn handler(ctx: &mut ProcessDeath, current_time: i64) -> (r: Result<(), StreakError>)
    requires
        old(ctx).game_state.wf(),
    ensures
        settles(death_outcome(*old(ctx), current_time), *old(ctx), *final(ctx), r),
{
    let interval = ctx.game_state.checkin_interval_seconds;
    if !ctx.dead_player.is_active {
        return Err(StreakError::NotStaked);
    }
    if !has_lapsed(ctx.dead_player.last_checkin, ctx.dead_player.start_day, current_time, interval) {
        return Err(StreakError::PlayerNotDead);
    }
    if ctx.dead_player.lifelines > 0 {
        let used = ctx.dead_player.lifelines_used;
        ctx.dead_player.lifelines = ctx.dead_player.lifelines - 1;
        ctx.dead_player.lifelines_used = if used == 255 {
            255
        } else {
            used + 1
        };
        ctx.dead_player.last_checkin = current_time;
        return Ok(());
    }
    let stake = ctx.dead_player.stake;
    proof {
        lemma_split_bounds(stake);
    }
    let protocol_fee = match stake.checked_mul(PROTOCOL_FEE_BPS) {
        Some(v) => v / BPS_DENOMINATOR,
        None => {
            return Err(StreakError::Overflow);
        },
    };
    let referral_cut = match stake.checked_mul(REFERRAL_CUT_BPS) {
        Some(v) => v / BPS_DENOMINATOR,
        None => {
            return Err(StreakError::Overflow);
        },
    };
    let paid_1 = match ctx.referrer_1 {
        Some(r1) => link_is(ctx.dead_player.referrer, &r1.wallet),
        None => false,
    };
    let paid_2 = paid_1 && match (ctx.referrer_1, ctx.referrer_2) {
        (Some(r1), Some(r2)) => link_is(r1.referrer, &r2.wallet),
        _ => false,
    };
    let paid_3 = paid_2 && match (ctx.referrer_2, ctx.referrer_3) {
        (Some(r2), Some(r3)) => link_is(r2.referrer, &r3.wallet),
        _ => false,
    };
    let mut referrer_1 = ctx.referrer_1;
    let mut referrer_2 = ctx.referrer_2;
    let mut referrer_3 = ctx.referrer_3;
    let mut total_referral_paid: u64 = 0;
    if paid_1 {
        match ctx.referrer_1 {
            Some(r1) => match pay_referrer(r1, referral_cut) {
                Some(p) => {
                    referrer_1 = Some(p);
                },
                None => {
                    return Err(StreakError::Overflow);
                },
            },
            None => {},
        }
        total_referral_paid = referral_cut;
    }
    if paid_2 {
        match ctx.referrer_2 {
            Some(r2) => match pay_referrer(r2, referral_cut) {
                Some(p) => {
                    referrer_2 = Some(p);
                },
                None => {
                    return Err(StreakError::Overflow);
                },
            },
            None => {},
        }
        total_referral_paid = total_referral_paid + referral_cut;
    }
    if paid_3 {
        match ctx.referrer_3 {
            Some(r3) => match pay_referrer(r3, referral_cut) {
                Some(p) => {
                    referrer_3 = Some(p);
                },
                None => {
                    return Err(StreakError::Overflow);
                },
            },
            None => {},
        }
        total_referral_paid = total_referral_paid + referral_cut;
    }
    let pool_addition = stake - protocol_fee - total_referral_paid;
    let total_deaths = match ctx.game_state.total_deaths.checked_add(1) {
        Some(v) => v,
        None => {
            return Err(StreakError::Overflow);
        },
    };
    let total_players = match ctx.game_state.total_players.checked_sub(1) {
        Some(v) => v,
        None => {
            return Err(StreakError::Overflow);
        },
    };
    let total_pool = match ctx.game_state.total_pool.checked_sub(stake) {
        Some(v) => v + pool_addition,
        None => {
            return Err(StreakError::Overflow);
        },
    };
    ctx.game_state.total_deaths = total_deaths;
    ctx.game_state.total_players = total_players;
    ctx.game_state.last_death_timestamp = current_time;
    ctx.game_state.total_pool = total_pool;
    ctx.dead_player.is_active = false;
    ctx.dead_player.stake = 0;
    ctx.dead_player.streak_days = 0;
    ctx.referrer_1 = referrer_1;
    ctx.referrer_2 = referrer_2;
    ctx.referrer_3 = referrer_3;
    Ok(())
}

} // verus!
