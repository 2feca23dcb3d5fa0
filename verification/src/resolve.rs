//! The resolution component: applies the scoring engine's verdict on one
//! pick to the owning player's record and the league's aggregate, and marks
//! the pick immutably resolved.

use vstd::prelude::*;

use crate::errors::FflError;
use crate::scoring::{
    bonus_points, calculate_bonuses, calculate_loss_points, calculate_win_points,
    correct_prediction, loss_points, predicted_odds_bps, win_points,
};
use crate::state::{DraftPick, League, PlayerState, Prediction, SessionStat, MAX_SESSIONS};

verus! {

/// The records handed to a resolution belong together: the pick and the
/// player record belong to the given league, and the player record belongs
/// to the pick's current owner.
pub open spec fn resolution_ids_match(league: League, pick: DraftPick, ps: PlayerState) -> bool {
    &&& pick.league_id == league.league_id
    &&& ps.league_id == league.league_id
    &&& ps.player == pick.player
}

/// The player's win count in the pick's session before this resolution; a
/// session index outside the fixed tally capacity counts as 0 wins.
pub open spec fn session_wins_before(ps: PlayerState, session_index: int) -> int {
    if session_index < MAX_SESSIONS {
        ps.session_stats@[session_index].wins as int
    } else {
        0
    }
}

/// The exact point delta of resolving `pick` against `outcome`: win points
/// plus bonuses for a correct prediction, loss points otherwise.
pub open spec fn resolution_delta(
    league: League,
    pick: DraftPick,
    ps: PlayerState,
    outcome: bool,
) -> int {
    let p = predicted_odds_bps(pick.prediction, pick.snapshot_odds as int);
    if correct_prediction(pick.prediction, outcome) {
        win_points(p) + bonus_points(
            p,
            true,
            ps.streak as int,
            session_wins_before(ps, pick.session_index as int),
            league.rounds_per_session as int,
        )
    } else {
        loss_points(p)
    }
}

/// Whether every counter touched by this resolution stays within its integer
/// type. A violation aborts the operation with `MathOverflow` and no effect.
pub open spec fn resolution_fits(
    league: League,
    pick: DraftPick,
    ps: PlayerState,
    outcome: bool,
) -> bool {
    let delta = resolution_delta(league, pick, ps, outcome);
    let idx = pick.session_index as int;
    let is_correct = correct_prediction(pick.prediction, outcome);
    &&& i64::MIN <= ps.points + delta <= i64::MAX
    &&& i64::MIN <= league.total_points + delta <= i64::MAX
    &&& is_correct ==> {
        &&& ps.streak + 1 <= u16::MAX
        &&& (idx < MAX_SESSIONS ==> ps.session_stats@[idx].wins + 1 <= u8::MAX)
        &&& ps.bonuses + bonus_points(
            predicted_odds_bps(pick.prediction, pick.snapshot_odds as int),
            true,
            ps.streak as int,
            session_wins_before(ps, idx),
            league.rounds_per_session as int,
        ) <= u32::MAX
    }
    &&& !is_correct ==> (idx < MAX_SESSIONS ==> ps.session_stats@[idx].losses + 1 <= u8::MAX)
}

/// The player's session tally after this resolution: one more win or loss in
/// the pick's session, or unchanged when the session index falls outside the
/// tally's fixed capacity (the documented degraded case: the point delta is
/// still applied, only the tally is skipped).
pub open spec fn updated_session_stats(
    ps: PlayerState,
    session_index: int,
    is_correct: bool,
) -> Seq<SessionStat> {
    if 0 <= session_index < MAX_SESSIONS {
        let stat = ps.session_stats@[session_index];
        let new_stat = if is_correct {
            SessionStat { wins: (stat.wins + 1) as u8, losses: stat.losses }
        } else {
            SessionStat { wins: stat.wins, losses: (stat.losses + 1) as u8 }
        };
        ps.session_stats@.update(session_index, new_stat)
    } else {
        ps.session_stats@
    }
}

/// Resolves one pick against the market oracle's verdict.
///
/// On success the pick is marked resolved with its realized delta recorded
/// immutably, the owner's points, streak, bonus tally and session tally are
/// updated, and the same delta is added to the league's running total (the
/// conservation invariant, see [`lemma_resolution_conserves_total`]). Every
/// rejection leaves all three records exactly as they were; in particular a
/// second resolution of the same pick fails without any effect.
///
/// `_final_prob` is the oracle's closing probability; it is trusted verbatim
/// and recorded nowhere — the formula uses the snapshot odds fixed at draft
/// time.
pub fn resolve_market(
    league: &mut League,
    draft_pick: &mut DraftPick,
    player_state: &mut PlayerState,
    outcome: bool,
    _final_prob: u32,
) -> (r: Result<(), FflError>)
    requires
        old(league).wf(),
        old(player_state).wf(),
        old(draft_pick).wf(),
    ensures
        final(league).wf(),
        final(player_state).wf(),
        final(draft_pick).wf(),
        r is Err ==> {
            &&& *final(league) == *old(league)
            &&& *final(draft_pick) == *old(draft_pick)
            &&& *final(player_state) == *old(player_state)
        },
        old(draft_pick).resolved ==> r == Err::<(), FflError>(FflError::PickResolved),
        !old(draft_pick).resolved && !resolution_ids_match(
            *old(league),
            *old(draft_pick),
            *old(player_state),
        ) ==> r == Err::<(), FflError>(FflError::Unauthorized),
        !old(draft_pick).resolved && resolution_ids_match(
            *old(league),
            *old(draft_pick),
            *old(player_state),
        ) && !resolution_fits(*old(league), *old(draft_pick), *old(player_state), outcome)
            ==> r == Err::<(), FflError>(FflError::MathOverflow),
        r is Ok <==> {
            &&& !old(draft_pick).resolved
            &&& resolution_ids_match(*old(league), *old(draft_pick), *old(player_state))
            &&& resolution_fits(*old(league), *old(draft_pick), *old(player_state), outcome)
        },
        r is Ok ==> {
            let delta = resolution_delta(*old(league), *old(draft_pick), *old(player_state), outcome);
            let is_correct = correct_prediction(old(draft_pick).prediction, outcome);
            let p = predicted_odds_bps(old(draft_pick).prediction, old(draft_pick).snapshot_odds as int);
            &&& *final(draft_pick) == (DraftPick {
                resolved: true,
                final_points: final(draft_pick).final_points,
                ..*old(draft_pick)
            })
            &&& final(draft_pick).final_points == delta
            &&& *final(player_state) == (PlayerState {
                points: final(player_state).points,
                streak: final(player_state).streak,
                bonuses: final(player_state).bonuses,
                session_stats: final(player_state).session_stats,
                ..*old(player_state)
            })
            &&& final(player_state).points == old(player_state).points + delta
            &&& final(player_state).streak == (if is_correct {
                old(player_state).streak + 1
            } else {
                0int
            })
            &&& final(player_state).bonuses == old(player_state).bonuses + bonus_points(
                p,
                is_correct,
                old(player_state).streak as int,
                session_wins_before(*old(player_state), old(draft_pick).session_index as int),
                old(league).rounds_per_session as int,
            )
            &&& final(player_state).session_stats@ == updated_session_stats(
                *old(player_state),
                old(draft_pick).session_index as int,
                is_correct,
            )
            &&& *final(league) == (League {
                total_points: final(league).total_points,
                ..*old(league)
            })
            &&& final(league).total_points == old(league).total_points + delta
        },
{
    if draft_pick.resolved {
        return Err(FflError::PickResolved);
    }
    if !(draft_pick.league_id == league.league_id && player_state.league_id == league.league_id
        && player_state.player == draft_pick.player) {
        return Err(FflError::Unauthorized);
    }

    let is_correct = (draft_pick.prediction == Prediction::Yes && outcome)
        || (draft_pick.prediction == Prediction::No && !outcome);

    let p_pred_bps: u32 = if draft_pick.prediction == Prediction::Yes {
        draft_pick.snapshot_odds
    } else {
        10000 - draft_pick.snapshot_odds
    };

    let session_idx: usize = draft_pick.session_index as usize;

    let points_change: i64;
    if is_correct {
        let base = calculate_win_points(p_pred_bps);
        let current_wins: u8 = if session_idx < MAX_SESSIONS {
            player_state.session_stats[session_idx].wins
        } else {
            0
        };
        let bonus = calculate_bonuses(
            p_pred_bps,
            true,
            player_state.streak,
            current_wins,
            league.rounds_per_session,
        );
        points_change = base + bonus.0;

        // Check every counter before touching any record: a rejected
        // resolution must leave no partial mutation behind.
        let new_streak = match player_state.streak.checked_add(1) {
            Some(v) => v,
            None => {
                return Err(FflError::MathOverflow);
            },
        };
        let new_bonuses = match player_state.bonuses.checked_add(bonus.1) {
            Some(v) => v,
            None => {
                return Err(FflError::MathOverflow);
            },
        };
        let new_points = match player_state.points.checked_add(points_change) {
            Some(v) => v,
            None => {
                return Err(FflError::MathOverflow);
            },
        };
        let new_total = match league.total_points.checked_add(points_change) {
            Some(v) => v,
            None => {
                return Err(FflError::MathOverflow);
            },
        };
        if session_idx < MAX_SESSIONS {
            let stat = player_state.session_stats[session_idx];
            let new_wins = match stat.wins.checked_add(1) {
                Some(v) => v,
                None => {
                    return Err(FflError::MathOverflow);
                },
            };
            player_state.session_stats[session_idx] = SessionStat {
                wins: new_wins,
                losses: stat.losses,
            };
        }
        player_state.streak = new_streak;
        player_state.bonuses = new_bonuses;
        player_state.points = new_points;
        league.total_points = new_total;
    } else {
        points_change = calculate_loss_points(p_pred_bps);
        let new_points = match player_state.points.checked_add(points_change) {
            Some(v) => v,
            None => {
                return Err(FflError::MathOverflow);
            },
        };
        let new_total = match league.total_points.checked_add(points_change) {
            Some(v) => v,
            None => {
                return Err(FflError::MathOverflow);
            },
        };
        if session_idx < MAX_SESSIONS {
            let stat = player_state.session_stats[session_idx];
            let new_losses = match stat.losses.checked_add(1) {
                Some(v) => v,
                None => {
                    return Err(FflError::MathOverflow);
                },
            };
            player_state.session_stats[session_idx] = SessionStat {
                wins: stat.wins,
                losses: new_losses,
            };
        }
        player_state.streak = 0;
        player_state.points = new_points;
        league.total_points = new_total;
    }

    draft_pick.resolved = true;
    draft_pick.final_points = points_change as i32;

    Ok(())
}

/// The signed sum of a sequence of per-player point totals.
pub open spec fn sum_points(s: Seq<i64>) -> int
    decreases s.len(),
{
    if s.len() == 0 {
        0
    } else {
        sum_points(s.drop_last()) + s.last()
    }
}

/// Replacing one entry of a sum changes the sum by the difference.
pub proof fn lemma_sum_points_update(s: Seq<i64>, i: int, v: i64)
    requires
        0 <= i < s.len(),
    ensures
        sum_points(s.update(i, v)) == sum_points(s) - s[i] + v,
    decreases s.len(),
{
    if i == s.len() - 1 {
        assert(s.update(i, v).drop_last() =~= s.drop_last());
    } else {
        assert(s.update(i, v).drop_last() =~= s.drop_last().update(i, v));
        lemma_sum_points_update(s.drop_last(), i, v);
    }
}

/// Conservation of points: whenever the per-player point totals of a league
/// sum to the league's running total, they still do after any successful
/// resolution — the league aggregate moves by exactly the delta applied to
/// the one resolved player.
///
/// The premise relating the two deltas is exactly what
/// [`resolve_market`] ensures on success, with `points_before[i]` the
/// resolved player's entry in the league-wide tally.
pub proof fn lemma_resolution_conserves_total(
    points_before: Seq<i64>,
    i: int,
    old_league: League,
    new_league: League,
    old_ps: PlayerState,
    new_ps: PlayerState,
)
    requires
        0 <= i < points_before.len(),
        points_before[i] == old_ps.points,
        sum_points(points_before) == old_league.total_points,
        new_league.total_points - old_league.total_points == new_ps.points - old_ps.points,
    ensures
        sum_points(points_before.update(i, new_ps.points)) == new_league.total_points,
{
    lemma_sum_points_update(points_before, i, new_ps.points);
}

} // verus!
