use streak::constants::{MIN_STAKE, SECONDS_PER_DAY};
use streak::errors::StreakError;
use streak::instructions::checkin::Checkin;
use streak::instructions::claim_bonus::ClaimBonus;
use streak::instructions::claim_rewards::ClaimRewards;
use streak::instructions::initialize::Initialize;
use streak::instructions::process_death::ProcessDeath;
use streak::instructions::set_checkin_interval::SetCheckinInterval;
use streak::instructions::stake::Stake;
use streak::instructions::start_bonus_window::StartBonusWindow;
use streak::instructions::withdraw::Withdraw;
use streak::pubkey::Pubkey;
use streak::state::game_state::GameState;
use streak::state::player::Player;
use streak::{
    checkin, claim_bonus, claim_rewards, initialize, process_death, set_checkin_interval, stake,
    start_bonus_window, withdraw,
};

const T0: i64 = 1_700_006_400; // a day boundary, 19676 * 86400
const AUTH: u8 = 9;

fn key(b: u8) -> Pubkey {
    Pubkey::new_from_array([b; 32])
}

fn ledger() -> GameState {
    let mut ctx = Initialize {
        game_state: GameState::default(),
        treasury: key(8),
        authority: key(AUTH),
        game_state_bump: 254,
    };
    assert!(initialize(&mut ctx).is_ok());
    ctx.game_state
}

fn ledger_with_interval(seconds: i64) -> GameState {
    let mut ctx = SetCheckinInterval { game_state: ledger(), authority: key(AUTH) };
    assert!(set_checkin_interval(&mut ctx, seconds).is_ok());
    ctx.game_state
}

fn stake_ctx(gs: GameState, player: Player, user: u8) -> Stake {
    Stake {
        game_state: gs,
        player,
        referrer_player: None,
        user: key(user),
        user_lamports: 10_000_000_000,
        player_bump: 1,
    }
}

/// Stakes `amount` for a fresh participant `user` at `now`.
fn staked(gs: GameState, user: u8, amount: u64, now: i64) -> (GameState, Player) {
    let mut ctx = stake_ctx(gs, Player::default(), user);
    assert_eq!(stake(&mut ctx, amount, None, now), Ok(()));
    (ctx.game_state, ctx.player)
}

#[test]
fn initialize_sets_defaults() {
    let gs = ledger();
    assert!(gs.authority == key(AUTH));
    assert!(gs.treasury == key(8));
    assert_eq!(gs.checkin_interval_seconds, SECONDS_PER_DAY);
    assert_eq!(gs.total_pool, 0);
    assert_eq!(gs.total_players, 0);
    assert_eq!(gs.current_bonus_window, 0);
    assert_eq!(gs.bump, 254);
}

#[test]
fn death_after_two_missed_periods_pays_referrer() {
    let gs = ledger();
    let (gs, referrer) = staked(gs, 2, 1_000_000_000, T0);
    let mut ctx = stake_ctx(gs, Player::default(), 1);
    ctx.referrer_player = Some(referrer);
    assert_eq!(stake(&mut ctx, 1_000_000_000, Some(key(2)), T0 + 10), Ok(()));
    let referrer = ctx.referrer_player.unwrap();
    assert_eq!(referrer.direct_referrals, 1);
    let (gs, victim) = (ctx.game_state, ctx.player);
    assert_eq!(gs.total_pool, 2_000_000_000);

    let mut death = ProcessDeath {
        game_state: gs,
        dead_player: victim,
        referrer_1: Some(referrer),
        referrer_2: None,
        referrer_3: None,
    };
    assert_eq!(process_death(&mut death, T0 + 2 * SECONDS_PER_DAY + 5), Ok(()));
    assert!(!death.dead_player.is_active);
    assert_eq!(death.dead_player.stake, 0);
    assert_eq!(death.dead_player.streak_days, 0);
    let paid = death.referrer_1.unwrap();
    assert_eq!(paid.pending_rewards, 50_000_000);
    assert_eq!(paid.referral_earnings, 50_000_000);
    // fee 30_000_000 and payout 50_000_000 leave; 920_000_000 stays as residue
    let fee = 30_000_000u64;
    assert_eq!(death.game_state.total_pool, 2_000_000_000 - fee - 50_000_000);
    assert_eq!(death.game_state.total_pool, referrer.stake + 920_000_000);
    assert_eq!(death.game_state.total_deaths, 1);
    assert_eq!(death.game_state.total_players, 1);
    assert_eq!(death.game_state.last_death_timestamp, T0 + 2 * SECONDS_PER_DAY + 5);
}

#[test]
fn short_interval_duplicate_then_growth() {
    let gs = ledger_with_interval(300);
    let now = 1_000_000_200; // a multiple of 300
    let (gs, player) = staked(gs, 1, 1_000_000_000, now);
    let mut ctx = Checkin { game_state: gs, player };
    assert_eq!(checkin(&mut ctx, now), Err(StreakError::AlreadyCheckedIn));
    assert_eq!(ctx.player.stake, 1_000_000_000);
    assert_eq!(checkin(&mut ctx, now + 301), Ok(()));
    assert_eq!(ctx.player.stake, 1_001_000_000);
    assert_eq!(ctx.player.streak_days, 2);
    assert_eq!(ctx.player.last_checkin, now + 301);
}

#[test]
fn second_checkin_in_period_changes_nothing() {
    let gs = ledger();
    let (gs, player) = staked(gs, 1, MIN_STAKE, T0);
    let mut ctx = Checkin { game_state: gs, player };
    assert_eq!(checkin(&mut ctx, T0 + SECONDS_PER_DAY + 1), Ok(()));
    let after_first = ctx.player;
    assert_eq!(checkin(&mut ctx, T0 + SECONDS_PER_DAY + 500), Err(StreakError::AlreadyCheckedIn));
    assert_eq!(ctx.player.stake, after_first.stake);
    assert_eq!(ctx.player.streak_days, after_first.streak_days);
    assert_eq!(ctx.player.last_checkin, after_first.last_checkin);
}

#[test]
fn checkin_after_missed_period_reports_dead() {
    let gs = ledger();
    let (gs, player) = staked(gs, 1, MIN_STAKE, T0);
    let mut ctx = Checkin { game_state: gs, player };
    assert_eq!(checkin(&mut ctx, T0 + 2 * SECONDS_PER_DAY), Err(StreakError::PlayerDead));
}

#[test]
fn checkin_requires_active_record() {
    let mut ctx = Checkin { game_state: ledger(), player: Player::default() };
    assert_eq!(checkin(&mut ctx, T0), Err(StreakError::NotStaked));
}

#[test]
fn stake_in_grace_margin_starts_next_period() {
    let gs = ledger();
    let (_, early) = staked(gs, 1, MIN_STAKE, T0 + 1000);
    assert_eq!(early.start_day, T0);
    let (_, late) = staked(gs, 1, MIN_STAKE, T0 + SECONDS_PER_DAY - 300);
    assert_eq!(late.start_day, T0 + SECONDS_PER_DAY);
    let (_, just_before) = staked(gs, 1, MIN_STAKE, T0 + SECONDS_PER_DAY - 301);
    assert_eq!(just_before.start_day, T0);
    assert_eq!(late.streak_days, 1);
    assert!(late.is_active);
    assert!(late.wallet == key(1));
}

#[test]
fn grace_start_protects_from_early_death() {
    let gs = ledger();
    let (gs, player) = staked(gs, 1, MIN_STAKE, T0 + SECONDS_PER_DAY - 10);
    let mut death = ProcessDeath {
        game_state: gs,
        dead_player: player,
        referrer_1: None,
        referrer_2: None,
        referrer_3: None,
    };
    // last check-in two periods back would qualify, but the life starts in the current period
    assert_eq!(process_death(&mut death, T0 + SECONDS_PER_DAY + 100), Err(StreakError::PlayerNotDead));
}

#[test]
fn stake_rejections() {
    let gs = ledger();
    let mut ctx = stake_ctx(gs, Player::default(), 1);
    assert_eq!(stake(&mut ctx, MIN_STAKE - 1, None, T0), Err(StreakError::BelowMinimumStake));
    ctx.user_lamports = MIN_STAKE - 1;
    assert_eq!(stake(&mut ctx, MIN_STAKE, None, T0), Err(StreakError::InsufficientFunds));
    ctx.user_lamports = MIN_STAKE;
    assert_eq!(stake(&mut ctx, MIN_STAKE, Some(key(1)), T0), Err(StreakError::SelfReferral));
    assert_eq!(stake(&mut ctx, MIN_STAKE, None, T0), Ok(()));
    assert_eq!(stake(&mut ctx, MIN_STAKE, None, T0), Err(StreakError::AlreadyStaked));
    assert_eq!(ctx.game_state.total_players, 1);
    assert_eq!(ctx.game_state.total_pool, MIN_STAKE);
}

#[test]
fn stake_rejects_mismatched_or_dead_referrer() {
    let gs = ledger();
    let (gs, referrer) = staked(gs, 2, MIN_STAKE, T0);
    let mut ctx = stake_ctx(gs, Player::default(), 1);
    ctx.referrer_player = Some(referrer);
    assert_eq!(stake(&mut ctx, MIN_STAKE, Some(key(3)), T0), Err(StreakError::InvalidReferrer));
    let mut inactive = referrer;
    inactive.is_active = false;
    ctx.referrer_player = Some(inactive);
    assert_eq!(stake(&mut ctx, MIN_STAKE, Some(key(2)), T0), Err(StreakError::InvalidReferrer));
    assert_eq!(ctx.game_state.total_players, 1);
}

#[test]
fn stake_overflow_of_pool() {
    let mut gs = ledger();
    gs.total_pool = u64::MAX - 10;
    let mut ctx = stake_ctx(gs, Player::default(), 1);
    assert_eq!(stake(&mut ctx, MIN_STAKE, None, T0), Err(StreakError::Overflow));
    assert!(!ctx.player.is_active);
}

#[test]
fn three_referrals_award_one_lifeline() {
    let gs = ledger();
    let (mut gs, mut referrer) = staked(gs, 2, MIN_STAKE, T0);
    for (i, user) in [10u8, 11, 12].iter().enumerate() {
        let mut ctx = stake_ctx(gs, Player::default(), *user);
        ctx.referrer_player = Some(referrer);
        assert_eq!(stake(&mut ctx, MIN_STAKE, Some(key(2)), T0 + 60), Ok(()));
        referrer = ctx.referrer_player.unwrap();
        gs = ctx.game_state;
        assert!(ctx.player.referrer.unwrap() == key(2));
        if i < 2 {
            assert_eq!(referrer.lifelines, 0);
        }
    }
    assert_eq!(referrer.direct_referrals, 3);
    assert_eq!(referrer.lifelines, 1);
    assert_eq!(referrer.calculate_lifelines(), 1);
    assert_eq!(gs.total_players, 4);
}

#[test]
fn lifeline_saves_from_death() {
    let gs = ledger();
    let (gs, mut player) = staked(gs, 1, 1_000_000_000, T0);
    player.lifelines = 2;
    let mut death = ProcessDeath {
        game_state: gs,
        dead_player: player,
        referrer_1: None,
        referrer_2: None,
        referrer_3: None,
    };
    let now = T0 + 3 * SECONDS_PER_DAY;
    assert_eq!(process_death(&mut death, now), Ok(()));
    assert!(death.dead_player.is_active);
    assert_eq!(death.dead_player.stake, 1_000_000_000);
    assert_eq!(death.dead_player.lifelines, 1);
    assert_eq!(death.dead_player.lifelines_used, 1);
    assert_eq!(death.dead_player.last_checkin, now);
    assert_eq!(death.game_state.total_pool, 1_000_000_000);
    assert_eq!(death.game_state.total_deaths, 0);
}

#[test]
fn lifelines_used_saturates() {
    let gs = ledger();
    let (gs, mut player) = staked(gs, 1, MIN_STAKE, T0);
    player.lifelines = 1;
    player.lifelines_used = 255;
    let mut death = ProcessDeath {
        game_state: gs,
        dead_player: player,
        referrer_1: None,
        referrer_2: None,
        referrer_3: None,
    };
    assert_eq!(process_death(&mut death, T0 + 3 * SECONDS_PER_DAY), Ok(()));
    assert_eq!(death.dead_player.lifelines_used, 255);
    assert_eq!(death.dead_player.lifelines, 0);
}

#[test]
fn death_requires_lapse_and_activity() {
    let gs = ledger();
    let (gs, player) = staked(gs, 1, MIN_STAKE, T0);
    let mut death = ProcessDeath {
        game_state: gs,
        dead_player: player,
        referrer_1: None,
        referrer_2: None,
        referrer_3: None,
    };
    assert_eq!(process_death(&mut death, T0 + SECONDS_PER_DAY + 100), Err(StreakError::PlayerNotDead));
    death.dead_player = Player::default();
    assert_eq!(process_death(&mut death, T0 + 5 * SECONDS_PER_DAY), Err(StreakError::NotStaked));
}

#[test]
fn three_level_cascade_and_broken_link() {
    let gs = ledger();
    let (gs, top) = staked(gs, 4, MIN_STAKE, T0);
    let mut c = stake_ctx(gs, Player::default(), 3);
    c.referrer_player = Some(top);
    assert_eq!(stake(&mut c, MIN_STAKE, Some(key(4)), T0), Ok(()));
    let (gs, top, mid) = (c.game_state, c.referrer_player.unwrap(), c.player);
    let mut c = stake_ctx(gs, Player::default(), 2);
    c.referrer_player = Some(mid);
    assert_eq!(stake(&mut c, MIN_STAKE, Some(key(3)), T0), Ok(()));
    let (gs, mid, low) = (c.game_state, c.referrer_player.unwrap(), c.player);
    let mut c = stake_ctx(gs, Player::default(), 1);
    c.referrer_player = Some(low);
    assert_eq!(stake(&mut c, 1_000_000_000, Some(key(2)), T0), Ok(()));
    let (gs, low, victim) = (c.game_state, c.referrer_player.unwrap(), c.player);
    let pool_before = gs.total_pool;

    let mut full = ProcessDeath {
        game_state: gs,
        dead_player: victim,
        referrer_1: Some(low),
        referrer_2: Some(mid),
        referrer_3: Some(top),
    };
    assert_eq!(process_death(&mut full, T0 + 2 * SECONDS_PER_DAY), Ok(()));
    assert_eq!(full.referrer_1.unwrap().pending_rewards, 50_000_000);
    assert_eq!(full.referrer_2.unwrap().pending_rewards, 50_000_000);
    assert_eq!(full.referrer_3.unwrap().pending_rewards, 50_000_000);
    assert_eq!(full.game_state.total_pool, pool_before - 30_000_000 - 150_000_000);

    // level 2 supplied out of order: the chain stops after level 1
    let mut broken = ProcessDeath {
        game_state: gs,
        dead_player: victim,
        referrer_1: Some(low),
        referrer_2: Some(top),
        referrer_3: Some(mid),
    };
    assert_eq!(process_death(&mut broken, T0 + 2 * SECONDS_PER_DAY), Ok(()));
    assert_eq!(broken.referrer_1.unwrap().pending_rewards, 50_000_000);
    assert_eq!(broken.referrer_2.unwrap().pending_rewards, 0);
    assert_eq!(broken.referrer_3.unwrap().pending_rewards, 0);
    assert_eq!(broken.game_state.total_pool, pool_before - 30_000_000 - 50_000_000);
}

#[test]
fn restake_keeps_referral_state() {
    let gs = ledger();
    let (gs, mut player) = staked(gs, 1, MIN_STAKE, T0);
    player.direct_referrals = 4;
    player.lifelines = 1;
    player.referral_earnings = 77;
    player.pending_rewards = 5;
    player.referrer = Some(key(7));
    player.lifelines_used = 2;
    player.last_bonus_claimed = 6;
    player.total_bonus_claims = 3;
    let mut w = Withdraw { game_state: gs, player, vault_lamports: MIN_STAKE + 5, user_lamports: 0 };
    assert_eq!(withdraw(&mut w), Ok(()));
    let mut ctx = stake_ctx(w.game_state, w.player, 1);
    assert_eq!(stake(&mut ctx, 2 * MIN_STAKE, Some(key(6)), T0 + 100), Ok(()));
    let p = ctx.player;
    assert!(p.is_active);
    assert_eq!(p.stake, 2 * MIN_STAKE);
    assert_eq!(p.direct_referrals, 4);
    assert_eq!(p.lifelines, 1);
    assert_eq!(p.referral_earnings, 77);
    assert_eq!(p.pending_rewards, 0);
    assert_eq!(p.lifelines_used, 2);
    assert_eq!(p.last_bonus_claimed, 6);
    assert_eq!(p.total_bonus_claims, 3);
    assert_eq!(p.streak_days, 1);
    assert!(p.referrer.unwrap() == key(7));
    assert_eq!(ctx.game_state.total_players, 1);
}

#[test]
fn withdraw_pays_stake_and_rewards() {
    let gs = ledger();
    let (gs, mut player) = staked(gs, 1, MIN_STAKE, T0);
    player.pending_rewards = 1_000;
    let mut w = Withdraw { game_state: gs, player, vault_lamports: MIN_STAKE + 5_000, user_lamports: 10 };
    assert_eq!(withdraw(&mut w), Ok(()));
    assert_eq!(w.user_lamports, 10 + MIN_STAKE + 1_000);
    assert_eq!(w.vault_lamports, 4_000);
    assert_eq!(w.game_state.total_pool, 0);
    assert_eq!(w.game_state.total_players, 0);
    assert!(!w.player.is_active);
    assert_eq!(w.player.stake, 0);
    assert_eq!(w.player.pending_rewards, 0);
    assert_eq!(withdraw(&mut w), Err(StreakError::NotStaked));
}

#[test]
fn withdraw_needs_vault_funds() {
    let gs = ledger();
    let (gs, player) = staked(gs, 1, MIN_STAKE, T0);
    let mut w = Withdraw { game_state: gs, player, vault_lamports: MIN_STAKE - 1, user_lamports: 0 };
    assert_eq!(withdraw(&mut w), Err(StreakError::InsufficientFunds));
    assert!(w.player.is_active);
}

#[test]
fn claim_rewards_pays_and_clears() {
    let mut player = Player::default();
    player.pending_rewards = 50_000_000;
    let mut ctx = ClaimRewards { player, vault_lamports: 60_000_000, user_lamports: 1 };
    assert_eq!(claim_rewards(&mut ctx), Ok(()));
    assert_eq!(ctx.player.pending_rewards, 0);
    assert_eq!(ctx.vault_lamports, 10_000_000);
    assert_eq!(ctx.user_lamports, 50_000_001);
    assert_eq!(claim_rewards(&mut ctx), Err(StreakError::NoRewards));
}

#[test]
fn claim_rewards_errors() {
    let mut player = Player::default();
    player.pending_rewards = 100;
    let mut ctx = ClaimRewards { player, vault_lamports: 99, user_lamports: 0 };
    assert_eq!(claim_rewards(&mut ctx), Err(StreakError::InsufficientFunds));
    ctx.vault_lamports = 100;
    ctx.user_lamports = u64::MAX;
    assert_eq!(claim_rewards(&mut ctx), Err(StreakError::Overflow));
    assert_eq!(ctx.player.pending_rewards, 100);
}

#[test]
fn bonus_claimed_once_then_new_window() {
    let gs = ledger();
    let (gs, player) = staked(gs, 1, 1_000_000_000, T0);
    let mut w = StartBonusWindow { game_state: gs, authority: key(AUTH) };
    assert_eq!(start_bonus_window(&mut w, 1, T0 + 100), Ok(()));
    assert_eq!(w.game_state.bonus_window_end, T0 + 1000);
    let mut c = ClaimBonus { game_state: w.game_state, player };
    assert_eq!(claim_bonus(&mut c, T0 + 200), Ok(()));
    assert_eq!(c.player.stake, 1_000_500_000);
    assert_eq!(c.player.last_bonus_claimed, 1);
    assert_eq!(c.player.total_bonus_claims, 1);
    assert_eq!(claim_bonus(&mut c, T0 + 300), Err(StreakError::AlreadyClaimed));
    assert_eq!(c.player.stake, 1_000_500_000);
    assert_eq!(claim_bonus(&mut c, T0 + 1000), Err(StreakError::NoBonusWindow));

    let mut w2 = StartBonusWindow { game_state: c.game_state, authority: key(AUTH) };
    assert_eq!(start_bonus_window(&mut w2, 2, T0 + 2000), Ok(()));
    let mut c2 = ClaimBonus { game_state: w2.game_state, player: c.player };
    assert_eq!(claim_bonus(&mut c2, T0 + 2001), Ok(()));
    assert_eq!(c2.player.total_bonus_claims, 2);
    assert_eq!(c2.player.last_bonus_claimed, 2);
}

#[test]
fn bonus_needs_window_and_stake() {
    let gs = ledger();
    let (gs, player) = staked(gs, 1, MIN_STAKE, T0);
    let mut c = ClaimBonus { game_state: gs, player };
    assert_eq!(claim_bonus(&mut c, T0), Err(StreakError::NoBonusWindow));
    c.player = Player::default();
    assert_eq!(claim_bonus(&mut c, T0), Err(StreakError::NotStaked));
    assert!(!gs.is_bonus_window_active(T0));
}

#[test]
fn authority_only_operations() {
    let gs = ledger();
    let mut w = StartBonusWindow { game_state: gs, authority: key(1) };
    assert_eq!(start_bonus_window(&mut w, 1, T0), Err(StreakError::Unauthorized));
    assert_eq!(w.game_state.current_bonus_window, 0);
    let mut s = SetCheckinInterval { game_state: gs, authority: key(1) };
    assert_eq!(set_checkin_interval(&mut s, 300), Err(StreakError::Unauthorized));
    s.authority = key(AUTH);
    assert_eq!(set_checkin_interval(&mut s, 0), Err(StreakError::InvalidInterval));
    assert_eq!(set_checkin_interval(&mut s, -5), Err(StreakError::InvalidInterval));
    assert_eq!(s.game_state.checkin_interval_seconds, SECONDS_PER_DAY);
    assert_eq!(set_checkin_interval(&mut s, 300), Ok(()));
    assert_eq!(s.game_state.checkin_interval_seconds, 300);
}

#[test]
fn bonus_window_end_overflow() {
    let mut w = StartBonusWindow { game_state: ledger(), authority: key(AUTH) };
    assert_eq!(start_bonus_window(&mut w, 1, i64::MAX - 10), Err(StreakError::Overflow));
}

#[test]
fn checkin_growth_overflow() {
    let gs = ledger();
    let (gs, mut player) = staked(gs, 1, MIN_STAKE, T0);
    player.stake = u64::MAX / 5;
    let mut ctx = Checkin { game_state: gs, player };
    assert_eq!(checkin(&mut ctx, T0 + SECONDS_PER_DAY), Err(StreakError::Overflow));
    assert_eq!(ctx.player.stake, u64::MAX / 5);
}

#[test]
fn day_helpers() {
    assert_eq!(Player::get_utc_day(T0), 19676);
    assert_eq!(Player::get_utc_day(T0 - 1), 19675);
    assert_eq!(Player::get_utc_day(-1), 0);
    let mut p = Player::default();
    p.is_active = true;
    p.last_checkin = T0 + 5;
    p.start_day = T0;
    assert!(p.has_checked_in_on_day(19676));
    assert!(!p.has_checked_in_on_day(19677));
    assert!(p.has_checked_in_today(T0 + 100));
    assert!(!p.has_checked_in_today(T0 + SECONDS_PER_DAY));
    assert!(!p.should_die(T0 + SECONDS_PER_DAY));
    assert!(p.should_die(T0 + 2 * SECONDS_PER_DAY));
    p.is_active = false;
    assert!(!p.should_die(T0 + 2 * SECONDS_PER_DAY));
}

#[test]
fn lifeline_count_from_referrals() {
    let mut p = Player::default();
    p.direct_referrals = 8;
    assert_eq!(p.calculate_lifelines(), 2);
    p.direct_referrals = 3 * 256 + 3;
    assert_eq!(p.calculate_lifelines(), 1);
}

#[test]
fn record_referral_counts_and_awards() {
    let mut p = Player::default();
    assert_eq!(p.record_referral(), Ok(()));
    assert_eq!(p.record_referral(), Ok(()));
    assert_eq!(p.lifelines, 0);
    assert_eq!(p.record_referral(), Ok(()));
    assert_eq!(p.lifelines, 1);
    assert_eq!(p.direct_referrals, 3);
    p.direct_referrals = u32::MAX;
    assert_eq!(p.record_referral(), Err(StreakError::Overflow));
    assert_eq!(p.direct_referrals, u32::MAX);
}

#[test]
fn pubkey_basics() {
    assert!(Pubkey::default().is_zero());
    assert!(!key(1).is_zero());
    assert!(key(1) == key(1));
    assert!(key(1) != key(2));
    assert_eq!(key(3).to_bytes(), [3u8; 32]);
    assert_eq!(StreakError::NoRewards.message(), "No rewards to claim");
}

#[test]
fn active_record_without_owner_is_already_staked() {
    let gs = ledger();
    let mut record = Player::default();
    record.is_active = true;
    record.stake = MIN_STAKE;
    let mut ctx = stake_ctx(gs, record, 1);
    assert_eq!(stake(&mut ctx, MIN_STAKE, None, T0), Err(StreakError::AlreadyStaked));
    assert_eq!(ctx.game_state.total_players, 0);
    assert_eq!(ctx.game_state.total_pool, 0);
    assert_eq!(ctx.player.stake, MIN_STAKE);
}

#[test]
fn lifeline_award_past_255_is_overflow() {
    let gs = ledger();
    let (gs, mut referrer) = staked(gs, 2, MIN_STAKE, T0);
    referrer.direct_referrals = 2;
    referrer.lifelines = 255;
    let mut ctx = stake_ctx(gs, Player::default(), 1);
    ctx.referrer_player = Some(referrer);
    assert_eq!(stake(&mut ctx, MIN_STAKE, Some(key(2)), T0), Err(StreakError::Overflow));
    assert_eq!(ctx.referrer_player.unwrap().direct_referrals, 2);
    assert_eq!(ctx.referrer_player.unwrap().lifelines, 255);
    assert!(!ctx.player.is_active);
    assert_eq!(ctx.game_state.total_players, 1);

    // no lifeline due: a full balance does not matter
    referrer.direct_referrals = 3;
    ctx.referrer_player = Some(referrer);
    assert_eq!(stake(&mut ctx, MIN_STAKE, Some(key(2)), T0), Ok(()));
    assert_eq!(ctx.referrer_player.unwrap().direct_referrals, 4);
    assert_eq!(ctx.referrer_player.unwrap().lifelines, 255);
}

#[test]
fn record_referral_full_lifelines() {
    let mut p = Player::default();
    p.direct_referrals = 5;
    p.lifelines = 255;
    assert_eq!(p.record_referral(), Err(StreakError::Overflow));
    assert_eq!(p.direct_referrals, 5);
    assert_eq!(p.lifelines, 255);
}

#[test]
fn window_ids_must_advance() {
    let mut w = StartBonusWindow { game_state: ledger(), authority: key(AUTH) };
    assert_eq!(start_bonus_window(&mut w, 0, T0), Err(StreakError::InvalidWindow));
    assert_eq!(start_bonus_window(&mut w, 5, T0), Ok(()));
    assert_eq!(start_bonus_window(&mut w, 5, T0 + 2000), Err(StreakError::InvalidWindow));
    assert_eq!(start_bonus_window(&mut w, 4, T0 + 2000), Err(StreakError::InvalidWindow));
    assert_eq!(w.game_state.current_bonus_window, 5);
    assert_eq!(w.game_state.bonus_window_end, T0 + 900);
    assert_eq!(start_bonus_window(&mut w, 6, T0 + 2000), Ok(()));
    assert_eq!(w.game_state.bonus_window_end, T0 + 2900);
}

#[test]
fn restake_cannot_claim_same_window_twice() {
    let gs = ledger();
    let (gs, player) = staked(gs, 1, MIN_STAKE, T0);
    let mut w = StartBonusWindow { game_state: gs, authority: key(AUTH) };
    assert_eq!(start_bonus_window(&mut w, 1, T0 + 10), Ok(()));
    let mut c = ClaimBonus { game_state: w.game_state, player };
    assert_eq!(claim_bonus(&mut c, T0 + 20), Ok(()));
    // residue left by earlier liquidations backs the bonus growth
    let mut backed = c.game_state;
    backed.total_pool += 1_000_000;
    let mut wd = Withdraw { game_state: backed, player: c.player, vault_lamports: u64::MAX / 2, user_lamports: 0 };
    assert_eq!(withdraw(&mut wd), Ok(()));
    let mut s = stake_ctx(wd.game_state, wd.player, 1);
    assert_eq!(stake(&mut s, MIN_STAKE, None, T0 + 30), Ok(()));
    let mut again = ClaimBonus { game_state: s.game_state, player: s.player };
    assert_eq!(claim_bonus(&mut again, T0 + 40), Err(StreakError::AlreadyClaimed));
}
