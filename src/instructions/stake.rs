use vstd::prelude::*;
use crate::constants::MIN_STAKE;
use crate::errors::{settles, StreakError};
use crate::pubkey::Pubkey;
use crate::rules::{fits_i64, life_start, life_start_of};
use crate::state::game_state::GameState;
use crate::state::player::{credited, Player};

verus! {

/// The records and balances that a stake reads and changes.
#[derive(Clone, Copy, Debug)]
pub struct Stake {
    pub game_state: GameState,
    /// The staker's record; blank when the staker never played
    pub player: Player,
    /// The referrer's record, where the caller supplies it
    pub referrer_player: Option<Player>,
    /// The staker
    pub user: Pubkey,
    /// What the staker can transfer
    pub user_lamports: u64,
    pub player_bump: u8,
}

/// A record that played before and is dead or withdrawn.
pub open spec fn is_restake(p: Player) -> bool {
    p.is_claimed() && !p.is_active
}

/// Whether the stake counts a new referral on the supplied referrer record.
pub open spec fn credits_referrer(pre: Stake, referrer: Option<Pubkey>) -> bool {
    !is_restake(pre.player) && referrer is Some && pre.referrer_player is Some
}

/// The referral link given on a first entry is rejected.
pub open spec fn referral_error(pre: Stake, referrer: Option<Pubkey>) -> Option<StreakError> {
    match referrer {
        Some(k) => if is_restake(pre.player) {
            None
        } else if k@ == pre.user@ {
            Some(StreakError::SelfReferral)
        } else {
            match pre.referrer_player {
                Some(rp) => if rp.wallet@ == k@ && rp.is_active {
                    None
                } else {
                    Some(StreakError::InvalidReferrer)
                },
                None => None,
            }
        },
        None => None,
    }
}

/// The staker's record at the start of a new life. A re-entry keeps its referral link,
/// referral count, lifelines, lifeline and bonus counters and lifetime earnings; stake, streak,
/// start and pending rewards start afresh.
pub open spec fn new_life(
    prev: Player,
    user: Pubkey,
    amount: u64,
    referrer: Option<Pubkey>,
    now: i64,
    start_day: i64,
    bump: u8,
) -> Player {
    let again = is_restake(prev);
    Player {
        wallet: user,
        stake: amount,
        streak_days: 1,
        last_checkin: now,
        start_day,
        pending_rewards: 0,
        is_active: true,
        referrer: if again {
            prev.referrer
        } else {
            referrer
        },
        direct_referrals: if again {
            prev.direct_referrals
        } else {
            0
        },
        lifelines: if again {
            prev.lifelines
        } else {
            0
        },
        lifelines_used: if again {
            prev.lifelines_used
        } else {
            0
        },
        last_bonus_claimed: if again {
            prev.last_bonus_claimed
        } else {
            0
        },
        total_bonus_claims: if again {
            prev.total_bonus_claims
        } else {
            0
        },
        referral_earnings: if again {
            prev.referral_earnings
        } else {
            0
        },
        bump,
    }
}

/// What staking `amount` at `now` does: the rejection, or the records afterwards.
pub open spec fn stake_outcome(
    pre: Stake,
    amount: u64,
    referrer: Option<Pubkey>,
    now: i64,
) -> Result<Stake, StreakError> {
    let interval = pre.game_state.checkin_interval_seconds as int;
    let start = life_start_of(now as int, interval);
    let gs = pre.game_state;
    if amount < MIN_STAKE {
        Err(StreakError::BelowMinimumStake)
    } else if pre.user_lamports < amount {
        Err(StreakError::InsufficientFunds)
    } else if pre.player.is_active {
        Err(StreakError::AlreadyStaked)
    } else if referral_error(pre, referrer) is Some {
        Err(referral_error(pre, referrer)->0)
    } else if !fits_i64(start) {
        Err(StreakError::Overflow)
    } else if credits_referrer(pre, referrer) && credited(pre.referrer_player->0) is None {
        Err(StreakError::Overflow)
    } else if gs.total_players == u64::MAX || gs.total_pool + amount > u64::MAX {
        Err(StreakError::Overflow)
    } else {
        Ok(
            Stake {
                game_state: GameState {
                    total_players: (gs.total_players + 1) as u64,
                    total_pool: (gs.total_pool + amount) as u64,
                    ..gs
                },
                player: new_life(
                    pre.player,
                    pre.user,
                    amount,
                    referrer,
                    now,
                    start as i64,
                    pre.player_bump,
                ),
                referrer_player: if credits_referrer(pre, referrer) {
                    credited(pre.referrer_player->0)
                } else {
                    pre.referrer_player
                },
                ..pre
            },
        )
    }
}

/// Admits the participant `ctx.user` with `amount` at `current_time`, or re-admits a dead one.
/// On a first entry with a referrer, the referrer's record, where supplied, counts one more
/// referral. The caller moves `amount` from the participant into the pool once this succeeds.
pub fn handler(
    ctx: &mut Stake,
    amount: u64,
    referrer: Option<Pubkey>,
    current_time: i64,
) -> (r: Result<(), StreakError>)
    requires
        old(ctx).game_state.wf(),
    ensures
        settles(stake_outcome(*old(ctx), amount, referrer, current_time), *old(ctx), *final(ctx), r),
{
    if amount < MIN_STAKE {
        return Err(StreakError::BelowMinimumStake);
    }
    if ctx.user_lamports < amount {
        return Err(StreakError::InsufficientFunds);
    }
    if ctx.player.is_active {
        return Err(StreakError::AlreadyStaked);
    }
    let is_restake = !ctx.player.wallet.is_zero();
    if !is_restake {
        match referrer {
            Some(ref_key) => {
                if ref_key == ctx.user {
                    return Err(StreakError::SelfReferral);
                }
                match ctx.referrer_player {
                    Some(rp) => {
                        if !(rp.wallet == ref_key) || !rp.is_active {
                            return Err(StreakError::InvalidReferrer);
                        }
                    },
                    None => {},
                }
            },
            None => {},
        }
    }
    let start_day = match life_start(current_time, ctx.game_state.checkin_interval_seconds) {
        Some(s) => s,
        None => {
            return Err(StreakError::Overflow);
        },
    };
    let mut referrer_player = ctx.referrer_player;
    if !is_restake && referrer.is_some() {
        match ctx.referrer_player {
            Some(rp) => {
                let mut counted = rp;
                match counted.record_referral() {
                    Ok(()) => {},
                    Err(e) => {
                        return Err(e);
                    },
                }
                referrer_player = Some(counted);
            },
            None => {},
        }
    }
    let total_players = match ctx.game_state.total_players.checked_add(1) {
        Some(n) => n,
        None => {
            return Err(StreakError::Overflow);
        },
    };
    let total_pool = match ctx.game_state.total_pool.checked_add(amount) {
        Some(n) => n,
        None => {
            return Err(StreakError::Overflow);
        },
    };
    let prev = ctx.player;
    ctx.player = Player {
        wallet: ctx.user,
        stake: amount,
        streak_days: 1,
        last_checkin: current_time,
        start_day,
        pending_rewards: 0,
        is_active: true,
        referrer: if is_restake {
            prev.referrer
        } else {
            referrer
        },
        direct_referrals: if is_restake {
            prev.direct_referrals
        } else {
            0
        },
        lifelines: if is_restake {
            prev.lifelines
        } else {
            0
        },
        lifelines_used: if is_restake {
            prev.lifelines_used
        } else {
            0
        },
        last_bonus_claimed: if is_restake {
            prev.last_bonus_claimed
        } else {
            0
        },
        total_bonus_claims: if is_restake {
            prev.total_bonus_claims
        } else {
            0
        },
        referral_earnings: if is_restake {
            prev.referral_earnings
        } else {
            0
        },
        bump: ctx.player_bump,
    };
    ctx.referrer_player = referrer_player;
    ctx.game_state.total_players = total_players;
    ctx.game_state.total_pool = total_pool;
    Ok(())
}

} // verus!
