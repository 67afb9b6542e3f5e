use vstd::prelude::*;
use crate::constants::{REFS_PER_LIFELINE, SECONDS_PER_DAY};
use crate::errors::StreakError;
use crate::pubkey::{is_zero_key, Pubkey};
use crate::rules::trunc_div;

verus! {

/// The record of one participant, kept across lives.
#[derive(Clone, Copy, Debug)]
pub struct Player {
    /// Owner of the record
    pub wallet: Pubkey,
    /// Value locked in the current life; 0 while inactive
    pub stake: u64,
    /// Consecutive successful check-ins in the current life
    pub streak_days: u32,
    /// Time of the latest successful check-in
    pub last_checkin: i64,
    /// Period-aligned start of the current life
    pub start_day: i64,
    /// Referral earnings not yet paid out
    pub pending_rewards: u64,
    pub is_active: bool,
    /// Identity of the referring record, if any
    pub referrer: Option<Pubkey>,
    /// Number of participants who named this record as referrer
    pub direct_referrals: u32,
    /// Lifelines available
    pub lifelines: u8,
    /// Lifelines consumed in the current life
    pub lifelines_used: u8,
    /// Id of the latest bonus window claimed; 0 when none
    pub last_bonus_claimed: u64,
    pub total_bonus_claims: u32,
    /// Lifetime referral earnings
    pub referral_earnings: u64,
    pub bump: u8,
}

/// `x + 1`, held at 255.
pub open spec fn saturating_inc(x: u8) -> u8 {
    if x == 255 {
        255
    } else {
        (x + 1) as u8
    }
}

/// Whether one more referral brings the count to a multiple of `REFS_PER_LIFELINE`.
pub open spec fn lifeline_due(p: Player) -> bool {
    let k = REFS_PER_LIFELINE as int;
    (p.direct_referrals as int + 1) / k > (p.direct_referrals as int) / k
}

/// The record after one more participant named it as referrer, or `None` when the referral
/// counter, or the lifeline balance where a lifeline is due, is full. A lifeline is awarded
/// each time the count reaches a multiple of `REFS_PER_LIFELINE`.
pub open spec fn credited(p: Player) -> Option<Player> {
    if p.direct_referrals == u32::MAX || (lifeline_due(p) && p.lifelines == 255) {
        None
    } else {
        Some(
            Player {
                direct_referrals: (p.direct_referrals + 1) as u32,
                lifelines: if lifeline_due(p) {
                    (p.lifelines + 1) as u8
                } else {
                    p.lifelines
                },
                ..p
            },
        )
    }
}

/// The value a record contributes to the active stakes.
pub open spec fn active_stake(p: Player) -> int {
    if p.is_active {
        p.stake as int
    } else {
        0
    }
}

/// Whether a referrer link names `k`.
pub open spec fn links_to(link: Option<Pubkey>, k: Pubkey) -> bool {
    link matches Some(l) && l@ == k@
}

/// Whether `link` names `k`.
pub fn link_is(link: Option<Pubkey>, k: &Pubkey) -> (r: bool)
    ensures
        r == links_to(link, *k),
{
    match link {
        Some(l) => l == *k,
        None => false,
    }
}

impl Player {
    /// Persisted size in bytes, reserved padding included.
    pub const SIZE: usize = 8 + 32 + 8 + 4 + 8 + 8 + 8 + 1 + 33 + 4 + 1 + 1 + 8 + 4 + 8 + 1 + 64;

    /// An inactive record holds no stake and no streak.
    pub open spec fn wf(&self) -> bool {
        !self.is_active ==> self.stake == 0 && self.streak_days == 0
    }

    /// Whether the record was ever claimed by a participant.
    pub open spec fn is_claimed(&self) -> bool {
        !is_zero_key(self.wallet@)
    }

    /// Day number of a timestamp, counting whole days from the epoch toward zero.
    pub fn get_utc_day(timestamp: i64) -> (r: i64)
        ensures
            r == trunc_div(timestamp as int, SECONDS_PER_DAY as int),
    {
        timestamp / SECONDS_PER_DAY
    }

    /// Whether the latest check-in fell on `day` or later.
    pub fn has_checked_in_on_day(&self, day: i64) -> (r: bool)
        ensures
            r == (trunc_div(self.last_checkin as int, SECONDS_PER_DAY as int) >= day),
    {
        Self::get_utc_day(self.last_checkin) >= day
    }

    /// Whether the latest check-in fell on the day of `current_time` or later.
    pub fn has_checked_in_today(&self, current_time: i64) -> (r: bool)
        ensures
            r == (trunc_div(self.last_checkin as int, SECONDS_PER_DAY as int) >= trunc_div(
                current_time as int,
                SECONDS_PER_DAY as int,
            )),
    {
        let today = Self::get_utc_day(current_time);
        self.has_checked_in_on_day(today)
    }

    /// Day-based death test: an active record whose latest check-in is more than a day back,
    /// or a day back while `start_day` lies before today. The operations use the period-based
    /// rule of `crate::rules::lapsed` instead.
    pub fn should_die(&self, current_time: i64) -> (r: bool)
        ensures
            r == ({
                let today = trunc_div(current_time as int, SECONDS_PER_DAY as int);
                let last = trunc_div(self.last_checkin as int, SECONDS_PER_DAY as int);
                self.is_active && (last < today - 1 || (last < today && self.start_day < today))
            }),
    {
        if !self.is_active {
            return false;
        }
        let today = Self::get_utc_day(current_time);
        let last_checkin_day = Self::get_utc_day(self.last_checkin);
        last_checkin_day < today - 1 || (last_checkin_day < today && self.start_day < today)
    }

    /// Lifelines earned by the direct referrals, one per `REFS_PER_LIFELINE`, as a `u8` that
    /// wraps past 255.
    pub fn calculate_lifelines(&self) -> (r: u8)
        ensures
            r == (self.direct_referrals / REFS_PER_LIFELINE) % 256,
    {
        let earned: u32 = self.direct_referrals / REFS_PER_LIFELINE;
        let r = (earned % 256) as u8;
        r
    }

    /// Counts one more participant who named this record as referrer, awarding a lifeline
    /// when the count reaches a multiple of `REFS_PER_LIFELINE`. A full counter is an overflow
    /// and changes nothing.
    pub fn record_referral(&mut self) -> (r: Result<(), StreakError>)
        ensures
            match credited(*old(self)) {
                Some(p) => r is Ok && *final(self) == p,
                None => r == Err::<(), StreakError>(StreakError::Overflow) && *final(self) == *old(self),
            },
    {
        let current = self.direct_referrals;
        if current == u32::MAX {
            return Err(StreakError::Overflow);
        }
        let updated = current + 1;
        let due = updated / REFS_PER_LIFELINE > current / REFS_PER_LIFELINE;
        if due {
            if self.lifelines == 255 {
                return Err(StreakError::Overflow);
            }
            self.lifelines = self.lifelines + 1;
        }
        self.direct_referrals = updated;
        Ok(())
    }
}

impl Default for Player {
    fn default() -> (r: Player)
        ensures
            is_blank_record(r),
    {
        Player {
            wallet: Pubkey::default(),
            stake: 0,
            streak_days: 0,
            last_checkin: 0,
            start_day: 0,
            pending_rewards: 0,
            is_active: false,
            referrer: None,
            direct_referrals: 0,
            lifelines: 0,
            lifelines_used: 0,
            last_bonus_claimed: 0,
            total_bonus_claims: 0,
            referral_earnings: 0,
            bump: 0,
        }
    }
}

/// A record with every field zero or empty, as a fresh account holds it.
pub open spec fn is_blank_record(p: Player) -> bool {
    &&& is_zero_key(p.wallet@)
    &&& p.stake == 0
    &&& p.streak_days == 0
    &&& p.last_checkin == 0
    &&& p.start_day == 0
    &&& p.pending_rewards == 0
    &&& !p.is_active
    &&& p.referrer is None
    &&& p.direct_referrals == 0
    &&& p.lifelines == 0
    &&& p.lifelines_used == 0
    &&& p.last_bonus_claimed == 0
    &&& p.total_bonus_claims == 0
    &&& p.referral_earnings == 0
    &&& p.bump == 0
}

} // verus!
