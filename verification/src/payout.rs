//! The settlement engine: ends the season and computes each player's
//! one-time, pro-rata share of the prize pool.
//!
//! The prize pool is sized deterministically as `buy_in_amount` times the
//! roster size — exactly what joining collected into the vault — rather than
//! from the vault's live balance, which is an external account; this keeps
//! settlement a pure function of the league record, so every replaying party
//! computes the same payouts. The caller performs the actual fund transfer
//! of the returned amount from the vault to the player.

use vstd::prelude::*;

use crate::errors::FflError;
use crate::state::{League, LeagueState, PlayerState};

verus! {

/// Negative point totals are clamped to zero for settlement: a losing record
/// never yields a negative share.
pub open spec fn clamped_points(points: int) -> int {
    if points < 0 {
        0
    } else {
        points
    }
}

/// The prize pool backing a league's settlement: every collected buy-in.
pub open spec fn prize_pool(league: League) -> int {
    league.buy_in_amount * league.players@.len()
}

/// The pro-rata payout: `floor(player_points * pool / league_points)` over
/// the clamped totals, or an equal split of the pool when the league-wide
/// clamped total is zero (nobody earned a positive score).
pub open spec fn payout_amount(
    player_points: int,
    league_total: int,
    pool: int,
    n_players: int,
) -> int {
    let pp = clamped_points(player_points);
    let tlp = clamped_points(league_total);
    if tlp > 0 {
        (pp * pool) / tlp
    } else {
        pool / n_players
    }
}

/// Whether the settlement arithmetic for this player stays within `u64`: the
/// pool itself must fit, and so must the player's share. (A share can exceed
/// the pool — and conceivably `u64` — when other players' negative totals
/// shrink the clamped league-wide denominator below the player's own score.)
pub open spec fn settlement_fits(league: League, ps: PlayerState) -> bool {
    &&& prize_pool(league) <= u64::MAX
    &&& payout_amount(
        ps.points as int,
        league.total_points as int,
        prize_pool(league),
        league.players@.len() as int,
    ) <= u64::MAX
}

/// Closes the season: a league that is `Active` becomes `Completed`, gating
/// resolution and trading off and settlement on.
pub fn end_season(league: &mut League) -> (r: Result<(), FflError>)
    requires
        old(league).wf(),
    ensures
        final(league).wf(),
        r is Ok <==> old(league).state is Active,
        r is Err ==> r == Err::<(), FflError>(FflError::SessionNotActive) && *final(league) == *old(
            league,
        ),
        r is Ok ==> *final(league) == (League { state: LeagueState::Completed, ..*old(league) }),
{
    if !(league.state == LeagueState::Active) {
        return Err(FflError::SessionNotActive);
    }
    league.state = LeagueState::Completed;
    Ok(())
}

/// Pays one player their pro-rata share of the prize pool, exactly once.
///
/// Requires the season `Completed` and the player's claim still open. The
/// returned amount is what the caller must transfer from the prize vault to
/// the player; the claim flag is set even when the amount is 0, so a
/// zero-value claim cannot be retried either. Every rejection leaves the
/// player record unchanged — in particular a second claim fails with
/// `Unauthorized` and no effect.
pub fn claim_payout(league: &League, player_state: &mut PlayerState) -> (r: Result<
    u64,
    FflError,
>)
    requires
        league.wf(),
        old(player_state).wf(),
    ensures
        final(player_state).wf(),
        r is Err ==> *final(player_state) == *old(player_state),
        league.state !is Completed ==> r == Err::<u64, FflError>(FflError::SessionNotActive),
        league.state is Completed && old(player_state).league_id != league.league_id ==> r
            == Err::<u64, FflError>(FflError::Unauthorized),
        league.state is Completed && old(player_state).league_id == league.league_id && old(
            player_state,
        ).has_claimed ==> r == Err::<u64, FflError>(FflError::Unauthorized),
        league.state is Completed && old(player_state).league_id == league.league_id && !old(
            player_state,
        ).has_claimed && !settlement_fits(*league, *old(player_state)) ==> r == Err::<
            u64,
            FflError,
        >(FflError::MathOverflow),
        r is Ok <==> {
            &&& league.state is Completed
            &&& old(player_state).league_id == league.league_id
            &&& !old(player_state).has_claimed
            &&& settlement_fits(*league, *old(player_state))
        },
        r is Ok ==> {
            &&& *final(player_state) == (PlayerState {
                has_claimed: true,
                ..*old(player_state)
            })
            &&& r == Ok::<u64, FflError>(
                payout_amount(
                    old(player_state).points as int,
                    league.total_points as int,
                    prize_pool(*league),
                    league.players@.len() as int,
                ) as u64,
            )
        },
{
    if !(league.state == LeagueState::Completed) {
        return Err(FflError::SessionNotActive);
    }
    if player_state.league_id != league.league_id {
        return Err(FflError::Unauthorized);
    }
    if player_state.has_claimed {
        return Err(FflError::Unauthorized);
    }

    let n_players: u64 = league.players.len() as u64;
    let total_prize_pool: u64 = match league.buy_in_amount.checked_mul(n_players) {
        Some(v) => v,
        None => {
            return Err(FflError::MathOverflow);
        },
    };

    let player_points: u64 = if player_state.points < 0 {
        0
    } else {
        player_state.points as u64
    };
    let total_league_points: u64 = if league.total_points < 0 {
        0
    } else {
        league.total_points as u64
    };

    let payout: u64;
    if total_league_points > 0 {
        proof {
            vstd::arithmetic::mul::lemma_mul_upper_bound(
                player_points as int,
                u64::MAX as int,
                total_prize_pool as int,
                u64::MAX as int,
            );
        }
        let share: u128 = (player_points as u128) * (total_prize_pool as u128)
            / (total_league_points as u128);
        if share > u64::MAX as u128 {
            return Err(FflError::MathOverflow);
        }
        payout = share as u64;
    } else {
        payout = total_prize_pool / n_players;
    }

    player_state.has_claimed = true;
    Ok(payout)
}

} // verus!
