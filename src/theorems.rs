use vstd::prelude::*;
use crate::errors::StreakError;
use crate::instructions::checkin::{checkin_outcome, Checkin};
use crate::instructions::claim_bonus::{bonus_outcome, ClaimBonus};
use crate::instructions::process_death::{
    death_outcome,
    lemma_split_bounds,
    liquidation_overflows,
    level_1_paid,
    level_2_paid,
    level_3_paid,
    pool_addition,
    protocol_fee,
    referral_cut,
    referral_paid,
    ProcessDeath,
};
use crate::instructions::stake::{credits_referrer, stake_outcome, Stake};
use crate::instructions::start_bonus_window::{window_outcome, StartBonusWindow};
use crate::instructions::withdraw::{withdraw_outcome, Withdraw};
use crate::constants::{BONUS_DURATION_SECONDS, BONUS_GROWTH_BPS, MIN_STAKE};
use crate::pubkey::{is_zero_key, Pubkey};
use crate::rules::{fits_i64, grown, lapsed, life_start_of, period_of};
use crate::state::game_state::{bonus_open, GameState};
use crate::state::player::{active_stake, lifeline_due, saturating_inc, Player};

verus! {

/// Sum of the stakes of the active records among `players`.
pub open spec fn active_total(players: Seq<Player>) -> int
    decreases players.len(),
{
    if players.len() == 0 {
        0
    } else {
        active_total(players.drop_last()) + active_stake(players.last())
    }
}

/// The ledger's pool is the active stakes plus `residue`, the value that liquidations left
/// behind, which is never negative.
pub open spec fn conserved(gs: GameState, players: Seq<Player>, residue: int) -> bool {
    residue >= 0 && gs.total_pool == active_total(players) + residue
}

/// `after` is `players` with record `i` replaced by `q` and every other record holding the
/// same active stake.
pub open spec fn only_record_changed(
    players: Seq<Player>,
    after: Seq<Player>,
    i: int,
    q: Player,
) -> bool {
    &&& 0 <= i < players.len()
    &&& after.len() == players.len()
    &&& after[i] == q
    &&& forall|j: int|
        0 <= j < players.len() && j != i ==> #[trigger] active_stake(after[j]) == active_stake(
            players[j],
        )
}

/// Replacing one record changes the active total by the change of that record's active stake.
pub proof fn lemma_active_total_replace(players: Seq<Player>, after: Seq<Player>, i: int, q: Player)
    requires
        only_record_changed(players, after, i, q),
    ensures
        active_total(after) == active_total(players) - active_stake(players[i]) + active_stake(q),
    decreases players.len(),
{
    let n = players.len();
    if i == n - 1 {
        lemma_active_total_same(players.drop_last(), after.drop_last());
    } else {
        lemma_active_total_replace(players.drop_last(), after.drop_last(), i, q);
        assert(active_stake(after[n - 1]) == active_stake(players[n - 1]));
    }
}

proof fn lemma_active_total_same(players: Seq<Player>, after: Seq<Player>)
    requires
        after.len() == players.len(),
        forall|j: int|
            0 <= j < players.len() ==> #[trigger] active_stake(after[j]) == active_stake(
                players[j],
            ),
    ensures
        active_total(after) == active_total(players),
    decreases players.len(),
{
    if players.len() > 0 {
        let n = players.len();
        assert(active_stake(after[n - 1]) == active_stake(players[n - 1]));
        lemma_active_total_same(players.drop_last(), after.drop_last());
    }
}

/// A successful stake adds to the pool exactly what it adds to the active stakes, so the
/// pool keeps equal to the active stakes plus the liquidation residue. The new life is a
/// well-formed record.
pub proof fn stake_keeps_pool_balanced(
    pre: Stake,
    amount: u64,
    referrer: Option<Pubkey>,
    now: i64,
    players: Seq<Player>,
    after: Seq<Player>,
    i: int,
    residue: int,
)
    requires
        pre.game_state.wf(),
        pre.player.wf(),
        stake_outcome(pre, amount, referrer, now) is Ok,
        conserved(pre.game_state, players, residue),
        0 <= i < players.len(),
        players[i] == pre.player,
        only_record_changed(players, after, i, stake_outcome(pre, amount, referrer, now)->Ok_0.player),
    ensures
        conserved(stake_outcome(pre, amount, referrer, now)->Ok_0.game_state, after, residue),
        stake_outcome(pre, amount, referrer, now)->Ok_0.player.wf(),
{
    lemma_active_total_replace(players, after, i, stake_outcome(pre, amount, referrer, now)->Ok_0.player);
}

/// A settlement keeps the pool equal to the active stakes plus the residue: a lifeline moves
/// nothing, and a liquidation adds its pool share to the residue. The record stays
/// well-formed.
pub proof fn death_keeps_pool_balanced(
    pre: ProcessDeath,
    now: i64,
    players: Seq<Player>,
    after: Seq<Player>,
    i: int,
    residue: int,
)
    requires
        pre.game_state.wf(),
        pre.dead_player.wf(),
        death_outcome(pre, now) is Ok,
        conserved(pre.game_state, players, residue),
        0 <= i < players.len(),
        players[i] == pre.dead_player,
        only_record_changed(players, after, i, death_outcome(pre, now)->Ok_0.dead_player),
    ensures
        pre.dead_player.lifelines > 0 ==> conserved(
            death_outcome(pre, now)->Ok_0.game_state,
            after,
            residue,
        ),
        pre.dead_player.lifelines == 0 ==> conserved(
            death_outcome(pre, now)->Ok_0.game_state,
            after,
            residue + pool_addition(pre),
        ),
        death_outcome(pre, now)->Ok_0.dead_player.wf(),
{
    lemma_active_total_replace(players, after, i, death_outcome(pre, now)->Ok_0.dead_player);
    lemma_split_bounds(pre.dead_player.stake);
}

/// A successful withdrawal takes from the pool exactly the stake it removes from the active
/// stakes, and leaves a well-formed record.
pub proof fn withdraw_keeps_pool_balanced(
    pre: Withdraw,
    players: Seq<Player>,
    after: Seq<Player>,
    i: int,
    residue: int,
)
    requires
        pre.player.wf(),
        withdraw_outcome(pre) is Ok,
        conserved(pre.game_state, players, residue),
        0 <= i < players.len(),
        players[i] == pre.player,
        only_record_changed(players, after, i, withdraw_outcome(pre)->Ok_0.player),
    ensures
        conserved(withdraw_outcome(pre)->Ok_0.game_state, after, residue),
        withdraw_outcome(pre)->Ok_0.player.wf(),
{
    lemma_active_total_replace(players, after, i, withdraw_outcome(pre)->Ok_0.player);
}

/// Checking in a second time within the same period is rejected as a duplicate (and, being
/// rejected, changes nothing).
pub proof fn checkin_twice_in_a_period_is_rejected(pre: Checkin, first: i64, second: i64)
    requires
        pre.game_state.wf(),
        checkin_outcome(pre, first) is Ok,
        period_of(second as int, pre.game_state.checkin_interval_seconds as int) == period_of(
            first as int,
            pre.game_state.checkin_interval_seconds as int,
        ),
    ensures
        checkin_outcome(checkin_outcome(pre, first)->Ok_0, second) == Err::<Checkin, StreakError>(
            StreakError::AlreadyCheckedIn,
        ),
{
}

/// An active participant without lifelines whose life has lapsed is liquidated, unless a
/// counter or balance would leave its range: no stake, not active, and the stake splits exactly
/// into protocol fee, referral payouts and pool share, each part non-negative. The pool gives
/// up the fee and the payouts, and each paid level is credited the referral cut.
pub proof fn liquidation_splits_the_stake(pre: ProcessDeath, now: i64)
    requires
        pre.game_state.wf(),
        pre.dead_player.is_active,
        pre.dead_player.lifelines == 0,
        lapsed(
            pre.dead_player.last_checkin as int,
            pre.dead_player.start_day as int,
            now as int,
            pre.game_state.checkin_interval_seconds as int,
        ),
        !liquidation_overflows(pre),
    ensures
        death_outcome(pre, now) is Ok,
        ({
            let post = death_outcome(pre, now)->Ok_0;
            let s = pre.dead_player.stake as int;
            &&& post.dead_player.stake == 0
            &&& !post.dead_player.is_active
            &&& protocol_fee(pre.dead_player.stake) + referral_paid(pre) + pool_addition(pre) == s
            &&& protocol_fee(pre.dead_player.stake) >= 0
            &&& referral_paid(pre) >= 0
            &&& pool_addition(pre) >= 0
            &&& post.game_state.total_pool == pre.game_state.total_pool - protocol_fee(
                pre.dead_player.stake,
            ) - referral_paid(pre)
            &&& level_1_paid(pre) ==> post.referrer_1->0.pending_rewards
                == pre.referrer_1->0.pending_rewards + referral_cut(pre.dead_player.stake)
            &&& level_2_paid(pre) ==> post.referrer_2->0.pending_rewards
                == pre.referrer_2->0.pending_rewards + referral_cut(pre.dead_player.stake)
            &&& level_3_paid(pre) ==> post.referrer_3->0.pending_rewards
                == pre.referrer_3->0.pending_rewards + referral_cut(pre.dead_player.stake)
        }),
{
    lemma_split_bounds(pre.dead_player.stake);
}

/// A participant with a lifeline whose settlement succeeds survives: stake and streak kept,
/// one lifeline fewer, one more recorded as used (held at 255), the ledger untouched.
pub proof fn lifeline_saves_the_stake(pre: ProcessDeath, now: i64)
    requires
        pre.game_state.wf(),
        pre.dead_player.lifelines > 0,
        death_outcome(pre, now) is Ok,
    ensures
        ({
            let post = death_outcome(pre, now)->Ok_0;
            &&& post.dead_player.is_active
            &&& post.dead_player.stake == pre.dead_player.stake
            &&& post.dead_player.streak_days == pre.dead_player.streak_days
            &&& post.dead_player.lifelines == pre.dead_player.lifelines - 1
            &&& post.dead_player.lifelines_used == saturating_inc(pre.dead_player.lifelines_used)
            &&& post.game_state == pre.game_state
        }),
{
}

/// Three successive first entries naming the same referrer, starting from a referral count
/// that is a multiple of three, award it exactly one lifeline, on the third entry; after two
/// its lifelines are unchanged.
pub proof fn third_referral_awards_a_lifeline(
    s1: Stake,
    s2: Stake,
    s3: Stake,
    a1: u64,
    a2: u64,
    a3: u64,
    k1: Option<Pubkey>,
    k2: Option<Pubkey>,
    k3: Option<Pubkey>,
    t1: i64,
    t2: i64,
    t3: i64,
)
    requires
        stake_outcome(s1, a1, k1, t1) is Ok,
        stake_outcome(s2, a2, k2, t2) is Ok,
        stake_outcome(s3, a3, k3, t3) is Ok,
        credits_referrer(s1, k1),
        credits_referrer(s2, k2),
        credits_referrer(s3, k3),
        s2.referrer_player == stake_outcome(s1, a1, k1, t1)->Ok_0.referrer_player,
        s3.referrer_player == stake_outcome(s2, a2, k2, t2)->Ok_0.referrer_player,
        s1.referrer_player->0.direct_referrals % 3 == 0,
        s1.referrer_player->0.lifelines < 255,
    ensures
        stake_outcome(s2, a2, k2, t2)->Ok_0.referrer_player->0.lifelines
            == s1.referrer_player->0.lifelines,
        stake_outcome(s3, a3, k3, t3)->Ok_0.referrer_player->0.lifelines
            == s1.referrer_player->0.lifelines + 1,
{
}

/// Claiming the bonus again in the window just claimed is rejected, so a window grows a stake
/// at most once.
pub proof fn bonus_claimed_once_per_window(pre: ClaimBonus, first: i64, second: i64)
    requires
        bonus_outcome(pre, first) is Ok,
    ensures
        bonus_outcome(bonus_outcome(pre, first)->Ok_0, second) is Err,
        crate::state::game_state::bonus_open(pre.game_state, second) ==> bonus_outcome(
            bonus_outcome(pre, first)->Ok_0,
            second,
        ) == Err::<ClaimBonus, StreakError>(StreakError::AlreadyClaimed),
{
}

/// Opening a window with a higher id makes every active participant who claimed no later
/// window eligible again while it is open: the claim is neither refused as already claimed
/// nor for want of a window, and where the growth and the claim counter fit it succeeds,
/// growing the stake once and recording the new window.
pub proof fn new_window_restores_eligibility(
    pre: StartBonusWindow,
    window_id: u64,
    opened_at: i64,
    player: Player,
    now: i64,
)
    requires
        window_outcome(pre, window_id, opened_at) is Ok,
        window_id > pre.game_state.current_bonus_window,
        player.last_bonus_claimed <= pre.game_state.current_bonus_window,
        player.is_active,
        opened_at <= now,
        now < window_outcome(pre, window_id, opened_at)->Ok_0.game_state.bonus_window_end,
    ensures
        ({
            let r = bonus_outcome(
                ClaimBonus {
                    game_state: window_outcome(pre, window_id, opened_at)->Ok_0.game_state,
                    player,
                },
                now,
            );
            &&& r != Err::<ClaimBonus, StreakError>(StreakError::AlreadyClaimed)
            &&& r != Err::<ClaimBonus, StreakError>(StreakError::NoBonusWindow)
            &&& (grown(player.stake, BONUS_GROWTH_BPS) is Some && player.total_bonus_claims
                < u32::MAX) ==> r is Ok && r->Ok_0.player.stake == grown(
                player.stake,
                BONUS_GROWTH_BPS,
            )->0 && r->Ok_0.player.last_bonus_claimed == window_id
        }),
{
}

/// A first entry that names an active referrer and supplies its record counts one referral on
/// that record, unless a counter or balance would leave its range: the referral count grows by
/// one, a lifeline is added exactly when the new count is a multiple of three, and nothing else
/// of the record changes.
pub proof fn first_entry_counts_one_referral(
    pre: Stake,
    amount: u64,
    k: Pubkey,
    r: Player,
    now: i64,
)
    requires
        pre.game_state.wf(),
        amount >= MIN_STAKE,
        pre.user_lamports >= amount,
        !pre.player.is_active,
        is_zero_key(pre.player.wallet@),
        k@ != pre.user@,
        pre.referrer_player == Some(r),
        r.wallet@ == k@,
        r.is_active,
        fits_i64(
            life_start_of(now as int, pre.game_state.checkin_interval_seconds as int),
        ),
        r.direct_referrals < u32::MAX,
        !(lifeline_due(r) && r.lifelines == 255),
        pre.game_state.total_players < u64::MAX,
        pre.game_state.total_pool + amount <= u64::MAX,
    ensures
        stake_outcome(pre, amount, Some(k), now) is Ok,
        stake_outcome(pre, amount, Some(k), now)->Ok_0.referrer_player == Some(
            Player {
                direct_referrals: (r.direct_referrals + 1) as u32,
                lifelines: (r.lifelines + if (r.direct_referrals + 1) % 3 == 0 {
                    1int
                } else {
                    0int
                }) as u8,
                ..r
            },
        ),
{
}

/// The authority opening a window with a higher id, early enough that its end is a valid
/// time, succeeds; the window is open from then for `BONUS_DURATION_SECONDS` and closed after,
/// and every participant who claimed no later window than the previous one may claim again.
pub proof fn window_opens_for_its_duration(pre: StartBonusWindow, window_id: u64, opened_at: i64)
    requires
        pre.authority@ == pre.game_state.authority@,
        window_id > pre.game_state.current_bonus_window,
        opened_at + BONUS_DURATION_SECONDS <= i64::MAX,
    ensures
        window_outcome(pre, window_id, opened_at) is Ok,
        ({
            let gs = window_outcome(pre, window_id, opened_at)->Ok_0.game_state;
            &&& gs.current_bonus_window == window_id
            &&& forall|t: i64|
                opened_at <= t < opened_at + BONUS_DURATION_SECONDS ==> #[trigger] bonus_open(
                    gs,
                    t,
                )
            &&& !bonus_open(gs, (opened_at + BONUS_DURATION_SECONDS) as i64)
            &&& forall|q: Player|
                #![trigger q.last_bonus_claimed]
                q.last_bonus_claimed <= pre.game_state.current_bonus_window
                    ==> q.last_bonus_claimed < gs.current_bonus_window
        }),
{
}

} // verus!
