use vstd::prelude::*;

verus! {

// Staking
pub const MIN_STAKE: u64 = 50_000_000;
pub const LAMPORTS_PER_SOL: u64 = 1_000_000_000;

// Growth rates, in basis points (1 bp = 0.01%)
pub const DAILY_GROWTH_BPS: u64 = 10;
pub const BONUS_GROWTH_BPS: u64 = 5;
pub const BPS_DENOMINATOR: u64 = 10_000;

// Fees, in basis points
pub const PROTOCOL_FEE_BPS: u64 = 300;
pub const REFERRAL_CUT_BPS: u64 = 500;

// Referral
pub const MAX_REFERRAL_DEPTH: u8 = 3;
pub const REFS_PER_LIFELINE: u32 = 3;

// Time
pub const SECONDS_PER_DAY: i64 = 86_400;
pub const GRACE_PERIOD_SECONDS: i64 = 300;
pub const BONUS_DURATION_SECONDS: i64 = 900;

// Persisted record sizes, in bytes, each with trailing reserved padding
pub const GAME_STATE_SIZE: usize = 8 + 32 + 32 + 8 + 8 + 8 + 8 + 8 + 8 + 1 + 64;
pub const PLAYER_SIZE: usize = 8 + 32 + 8 + 4 + 8 + 8 + 8 + 1 + 33 + 4 + 1 + 1 + 8 + 4 + 8 + 1 + 64;

} // verus!
