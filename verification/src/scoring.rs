//! The pure scoring engine.
//!
//! All probabilities are basis points (0..=10000 for 0%..=100%), and all
//! point formulas are evaluated in exact integer arithmetic with a single
//! truncation toward zero at the end:
//!
//! - win:  `floor(100 * (1 - p_pred) * multiplier)`, where the multiplier is
//!   1.0 for `p_pred >= 0.70`, 1.2 for `0.40 <= p_pred < 0.70`, 1.5 below —
//!   correctly predicting unlikely events pays more;
//! - loss: `-floor(30 * p_pred)` — a confident wrong pick costs more than a
//!   timid one;
//! - win-only bonuses, each independently triggerable: +10 for a long shot
//!   (`p_pred < 0.20`), +25 when the post-win streak is a multiple of 5, +50
//!   when the post-win session win count equals the configured rounds per
//!   session.

use vstd::prelude::*;

use crate::state::Prediction;

verus! {

/// Whether a prediction matched the realized outcome: `Yes` is correct
/// exactly when the outcome is true, `No` exactly when it is false.
pub open spec fn correct_prediction(prediction: Prediction, outcome: bool) -> bool {
    (prediction is Yes) == outcome
}

/// The probability, in basis points, that was assigned to the *predicted*
/// side at draft time: the snapshot odds themselves for a `Yes` pick, their
/// complement for a `No` pick.
pub open spec fn predicted_odds_bps(prediction: Prediction, snapshot_odds: int) -> int {
    if prediction is Yes {
        snapshot_odds
    } else {
        10000 - snapshot_odds
    }
}

/// The win multiplier, in tenths: 10 (x1.0) for safe picks, 12 (x1.2) for
/// middling ones, 15 (x1.5) for long shots.
pub open spec fn multiplier_tenths(p_pred_bps: int) -> int {
    if p_pred_bps >= 7000 {
        10
    } else if p_pred_bps >= 4000 {
        12
    } else {
        15
    }
}

/// Points for a correct pick, before bonuses:
/// `floor(100 * (1 - p_pred) * multiplier)`, evaluated exactly over basis
/// points as `floor((10000 - p) * multiplier_tenths / 1000)`.
pub open spec fn win_points(p_pred_bps: int) -> int {
    ((10000 - p_pred_bps) * multiplier_tenths(p_pred_bps)) / 1000
}

/// Points for a wrong pick: `-floor(30 * p_pred)`, evaluated exactly over
/// basis points. Truncation is toward zero, so the loss is never deepened by
/// the flooring.
pub open spec fn loss_points(p_pred_bps: int) -> int {
    -((30 * p_pred_bps) / 10000)
}

/// Total bonus points for a resolution: 0 for a loss; for a win, the sum of
/// the long-shot, streak and clean-sweep bonuses that apply. `streak_before`
/// and `session_wins_before` are the tallies *before* this win is counted.
pub open spec fn bonus_points(
    p_pred_bps: int,
    is_correct: bool,
    streak_before: int,
    session_wins_before: int,
    rounds_per_session: int,
) -> int {
    if is_correct {
        (if p_pred_bps < 2000 { 10int } else { 0int })
            + (if (streak_before + 1) % 5 == 0 { 25int } else { 0int })
            + (if session_wins_before + 1 == rounds_per_session { 50int } else { 0int })
    } else {
        0
    }
}

/// Win multiplier for the given predicted-side probability, in tenths.
pub fn calculate_multiplier(p_pred_bps: u32) -> (m: u32)
    requires
        p_pred_bps <= 10000,
    ensures
        m == multiplier_tenths(p_pred_bps as int),
{
    if p_pred_bps >= 7000 {
        10
    } else if p_pred_bps >= 4000 {
        12
    } else {
        15
    }
}

/// Base points for a correct pick at the given predicted-side probability.
pub fn calculate_win_points(p_pred_bps: u32) -> (pts: i64)
    requires
        p_pred_bps <= 10000,
    ensures
        pts == win_points(p_pred_bps as int),
        0 <= pts <= 150,
{
    let multiplier = calculate_multiplier(p_pred_bps);
    let scaled: u32 = (10000 - p_pred_bps) * multiplier;
    (scaled / 1000) as i64
}

/// Points for a wrong pick at the given predicted-side probability.
pub fn calculate_loss_points(p_pred_bps: u32) -> (pts: i64)
    requires
        p_pred_bps <= 10000,
    ensures
        pts == loss_points(p_pred_bps as int),
        -30 <= pts <= 0,
{
    let scaled: u32 = (30 * p_pred_bps) / 10000;
    -(scaled as i64)
}

/// Bonus points for a resolution, as the pair of the point delta and the
/// amount recorded in the player's bonus tally (always equal).
///
/// The streak and session counters are widened before the `+ 1`, so every
/// input is acceptable.
pub fn calculate_bonuses(
    p_pred_bps: u32,
    is_correct: bool,
    current_streak: u16,
    session_wins: u8,
    rounds_per_session: u8,
) -> (r: (i64, u32))
    ensures
        r.0 == bonus_points(
            p_pred_bps as int,
            is_correct,
            current_streak as int,
            session_wins as int,
            rounds_per_session as int,
        ),
        r.1 == r.0,
        0 <= r.0 <= 85,
{
    let mut bonus_points: i64 = 0;
    let mut bonus_tracker: u32 = 0;

    if is_correct {
        if p_pred_bps < 2000 {
            bonus_points += 10;
            bonus_tracker += 10;
        }

        let new_streak: u32 = current_streak as u32 + 1;
        if new_streak % 5 == 0 {
            bonus_points += 25;
            bonus_tracker += 25;
        }

        let new_wins: u32 = session_wins as u32 + 1;
        if new_wins == rounds_per_session as u32 {
            bonus_points += 50;
            bonus_tracker += 50;
        }
    }

    (bonus_points, bonus_tracker)
}

} // verus!
