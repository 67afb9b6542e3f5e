use vstd::prelude::*;

verus! {

/// Every way an operation can be rejected. A rejected operation changes nothing.
#[derive(Debug, Clone, Copy, PartialEq, Eq, Structural)]
pub enum StreakError {
    AlreadyStaked,
    BelowMinimumStake,
    InsufficientFunds,
    NotStaked,
    AlreadyCheckedIn,
    PlayerDead,
    PlayerNotDead,
    AlreadyProcessed,
    NoBonusWindow,
    BonusWindowExpired,
    AlreadyClaimed,
    NoRewards,
    Unauthorized,
    InvalidReferrer,
    SelfReferral,
    Overflow,
    InvalidTimestamp,
    InvalidInterval,
    InvalidWindow,
}

impl StreakError {
    /// A human-readable description of the rejection.
    pub fn message(&self) -> &'static str {
        match self {
            StreakError::AlreadyStaked => "Player already has an active stake",
            StreakError::BelowMinimumStake => "Stake amount is below minimum (0.05 SOL)",
            StreakError::InsufficientFunds => "Insufficient funds in wallet",
            StreakError::NotStaked => "Player does not have an active stake",
            StreakError::AlreadyCheckedIn => "Player has already checked in today",
            StreakError::PlayerDead => "Player is dead (missed check-in)",
            StreakError::PlayerNotDead => "Player is not dead",
            StreakError::AlreadyProcessed => "Player already processed",
            StreakError::NoBonusWindow => "No bonus window is currently active",
            StreakError::BonusWindowExpired => "Bonus window has expired",
            StreakError::AlreadyClaimed => "Already claimed this bonus window",
            StreakError::NoRewards => "No rewards to claim",
            StreakError::Unauthorized => "Unauthorized - not the authority",
            StreakError::InvalidReferrer => "Invalid referrer",
            StreakError::SelfReferral => "Cannot refer yourself",
            StreakError::Overflow => "Arithmetic overflow",
            StreakError::InvalidTimestamp => "Invalid timestamp",
            StreakError::InvalidInterval => "Invalid check-in interval (must be > 0)",
            StreakError::InvalidWindow => "Bonus window id must exceed the current one",
        }
    }
}

} // verus!

verus! {

/// An operation that reports `r` and leaves `post` behind did what `outcome` prescribes from
/// `pre`: on success the prescribed state, on rejection the prescribed error and no change.
pub open spec fn settles<T>(
    outcome: Result<T, StreakError>,
    pre: T,
    post: T,
    r: Result<(), StreakError>,
) -> bool {
    match outcome {
        Ok(next) => r is Ok && post == next,
        Err(e) => r == Err::<(), StreakError>(e) && post == pre,
    }
}

} // verus!
