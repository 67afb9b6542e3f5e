use vstd::prelude::*;
use crate::pubkey::Pubkey;

verus! {

/// The pool ledger: aggregate state shared by every operation.
#[derive(Clone, Copy, Debug)]
pub struct GameState {
    /// Identity allowed to open bonus windows and change the check-in interval
    pub authority: Pubkey,
    /// Identity that collects protocol fees
    pub treasury: Pubkey,
    /// Number of active players
    pub total_players: u64,
    /// Value held for stakes and growth, in minor units
    pub total_pool: u64,
    pub last_death_timestamp: i64,
    /// Number of liquidations ever
    pub total_deaths: u64,
    /// Id of the latest bonus window; 0 when none was ever opened
    pub current_bonus_window: u64,
    /// Time at which the latest bonus window closes
    pub bonus_window_end: i64,
    /// Length of a check-in period, in seconds
    pub checkin_interval_seconds: i64,
    pub bump: u8,
}

/// Whether the latest bonus window is open at `now`.
pub open spec fn bonus_open(gs: GameState, now: i64) -> bool {
    gs.current_bonus_window > 0 && now < gs.bonus_window_end
}

impl GameState {
    /// Persisted size in bytes, reserved padding included.
    pub const SIZE: usize = 8 + 32 + 32 + 8 + 8 + 8 + 8 + 8 + 8 + 8 + 1 + 56;

    /// A ledger in use has a positive check-in interval.
    pub open spec fn wf(&self) -> bool {
        self.checkin_interval_seconds > 0
    }

    pub fn is_bonus_window_active(&self, current_time: i64) -> (r: bool)
        ensures
            r == bonus_open(*self, current_time),
    {
        self.current_bonus_window > 0 && current_time < self.bonus_window_end
    }
}

impl Default for GameState {
    fn default() -> (r: GameState)
        ensures
            is_blank_ledger(r),
    {
        GameState {
            authority: Pubkey::default(),
            treasury: Pubkey::default(),
            total_players: 0,
            total_pool: 0,
            last_death_timestamp: 0,
            total_deaths: 0,
            current_bonus_window: 0,
            bonus_window_end: 0,
            checkin_interval_seconds: 0,
            bump: 0,
        }
    }
}

/// A ledger with every field zero.
pub open spec fn is_blank_ledger(gs: GameState) -> bool {
    &&& crate::pubkey::is_zero_key(gs.authority@)
    &&& crate::pubkey::is_zero_key(gs.treasury@)
    &&& gs.total_players == 0
    &&& gs.total_pool == 0
    &&& gs.last_death_timestamp == 0
    &&& gs.total_deaths == 0
    &&& gs.current_bonus_window == 0
    &&& gs.bonus_window_end == 0
    &&& gs.checkin_interval_seconds == 0
    &&& gs.bump == 0
}

} // verus!
