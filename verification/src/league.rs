//! League lifecycle and draft engine: creating and joining a league,
//! shuffling the draft order, and validating snake-draft turns.

use vstd::prelude::*;

use crate::errors::FflError;
use crate::state::{
    DraftPick, League, LeagueState, PlayerState, Prediction, SessionStat, MAX_PLAYERS,
    MAX_SESSIONS, MIN_PLAYERS, ODDS_SCALE,
};

verus! {

/// One swap of two positions of a sequence.
pub open spec fn swap_seq(s: Seq<u64>, i: int, j: int) -> Seq<u64> {
    s.update(i, s[j]).update(j, s[i])
}

/// The Fisher–Yates shuffle driven by a single modulus seed: walking `i`
/// down from the last index to 1, position `i` is swapped with position
/// `seed % (i + 1)`. The seed comes from the external clock and sequence
/// counter — low-entropy by design, acceptable only for non-adversarial
/// settings — and the shuffle is a deterministic function of it, so every
/// replaying party computes the same order.
pub open spec fn fisher_yates(s: Seq<u64>, seed: u64, i: nat) -> Seq<u64>
    decreases i,
{
    if i == 0 {
        s
    } else {
        let j = (seed as int) % (i as int + 1);
        fisher_yates(swap_seq(s, i as int, j), seed, (i - 1) as nat)
    }
}

/// Swapping two positions leaves the multiset of elements unchanged.
pub proof fn lemma_swap_seq_multiset(s: Seq<u64>, i: int, j: int)
    requires
        0 <= i < s.len(),
        0 <= j < s.len(),
    ensures
        swap_seq(s, i, j).to_multiset() == s.to_multiset(),
        swap_seq(s, i, j).len() == s.len(),
{
    broadcast use vstd::seq_lib::group_to_multiset_ensures;
    broadcast use vstd::seq_lib::to_multiset_update;
    broadcast use vstd::multiset::group_multiset_axioms;

    let s1 = s.update(i, s[j]);
    assert(s.contains(s[i]));
    assert(s.contains(s[j]));
    assert(s1.to_multiset() == s.to_multiset().insert(s[j]).remove(s[i]));
    assert(s1[j] == s[j]);
    assert(swap_seq(s, i, j).to_multiset() =~= s.to_multiset());
}

/// The shuffle is a permutation: it preserves the multiset of players.
pub proof fn lemma_fisher_yates_permutes(s: Seq<u64>, seed: u64, i: nat)
    requires
        i < s.len(),
    ensures
        fisher_yates(s, seed, i).to_multiset() == s.to_multiset(),
        fisher_yates(s, seed, i).len() == s.len(),
    decreases i,
{
    if i > 0 {
        let j = (seed as int) % (i as int + 1);
        lemma_swap_seq_multiset(s, i as int, j);
        lemma_fisher_yates_permutes(swap_seq(s, i as int, j), seed, (i - 1) as nat);
    }
}

/// Which position of the draft order acts on pick number `pick_index`, for a
/// roster of `n_players`: the draft snakes, running forward on even rounds
/// and backward on odd ones, so pick positions average out across rounds.
pub open spec fn snake_position(pick_index: int, n_players: int) -> int {
    let round = pick_index / n_players;
    let position_in_round = pick_index % n_players;
    if round % 2 == 0 {
        position_in_round
    } else {
        n_players - 1 - position_in_round
    }
}

/// Creates a league in the `Setup` phase with an empty roster.
///
/// `creator` and `prize_pool_vault` are keys issued by the surrounding
/// storage and authentication layer; `now` is the external clock's current
/// time in seconds.
pub fn create_league(
    league_id: u64,
    creator: u64,
    prize_pool_vault: u64,
    buy_in_amount: u64,
    sessions_total: u8,
    rounds_per_session: u8,
    now: i64,
) -> (league: League)
    ensures
        league.wf(),
        league.league_id == league_id,
        league.creator == creator,
        league.prize_pool_vault == prize_pool_vault,
        league.buy_in_amount == buy_in_amount,
        league.sessions_total == sessions_total,
        league.rounds_per_session == rounds_per_session,
        league.current_session == 1,
        league.state is Setup,
        league.created_at == now,
        league.updated_at == now,
        league.session_picks_count == 0,
        league.total_points == 0,
        league.players@.len() == 0,
        league.draft_order@.len() == 0,
{
    League {
        league_id,
        creator,
        buy_in_amount,
        prize_pool_vault,
        players: Vec::new(),
        draft_order: Vec::new(),
        sessions_total,
        rounds_per_session,
        current_session: 1,
        state: LeagueState::Setup,
        created_at: now,
        updated_at: now,
        session_picks_count: 0,
        total_points: 0,
    }
}

/// Whether the roster already holds the given player.
fn roster_contains(players: &Vec<u64>, player: u64) -> (found: bool)
    ensures
        found == players@.contains(player),
{
    let mut k: usize = 0;
    while k < players.len()
        invariant
            k <= players@.len(),
            forall|m: int| 0 <= m < k ==> players@[m] != player,
        decreases players@.len() - k,
    {
        if players[k] == player {
            assert(players@[k as int] == player);
            return true;
        }
        k += 1;
    }
    false
}

/// Adds a player to a league still in `Setup`, returning the player's fresh
/// score record with every counter at zero.
///
/// The caller collects the buy-in: joining is only complete once
/// `league.buy_in_amount` has moved from the player to the prize vault
/// through the external fund-transfer primitive. Every rejection leaves the
/// league unchanged.
pub fn join_league(league: &mut League, player: u64) -> (r: Result<PlayerState, FflError>)
    requires
        old(league).wf(),
    ensures
        final(league).wf(),
        r is Err ==> *final(league) == *old(league),
        old(league).state !is Setup ==> r is Err && r->Err_0 == FflError::NotSetup,
        old(league).state is Setup && old(league).players@.len() >= MAX_PLAYERS ==> r is Err
            && r->Err_0 == FflError::LeagueFull,
        old(league).state is Setup && old(league).players@.len() < MAX_PLAYERS && old(
            league,
        ).players@.contains(player) ==> r is Err && r->Err_0 == FflError::AlreadyJoined,
        r is Ok <==> {
            &&& old(league).state is Setup
            &&& old(league).players@.len() < MAX_PLAYERS
            &&& !old(league).players@.contains(player)
        },
        r is Ok ==> {
            &&& *final(league) == (League { players: final(league).players, ..*old(league) })
            &&& final(league).players@ == old(league).players@.push(player)
        },
        r matches Ok(ps) ==> {
            &&& ps.wf()
            &&& ps.league_id == old(league).league_id
            &&& ps.player == player
            &&& ps.points == 0
            &&& ps.streak == 0
            &&& ps.xp == 0
            &&& ps.bonuses == 0
            &&& !ps.has_claimed
            &&& forall|m: int|
                0 <= m < MAX_SESSIONS ==> ps.session_stats@[m] == (SessionStat {
                    wins: 0,
                    losses: 0,
                })
        },
{
    if !(league.state == LeagueState::Setup) {
        return Err(FflError::NotSetup);
    }
    if league.players.len() >= MAX_PLAYERS {
        return Err(FflError::LeagueFull);
    }
    if roster_contains(&league.players, player) {
        return Err(FflError::AlreadyJoined);
    }

    let mut session_stats: Vec<SessionStat> = Vec::new();
    let mut k: usize = 0;
    while k < MAX_SESSIONS
        invariant
            session_stats@.len() == k,
            k <= MAX_SESSIONS,
            forall|m: int|
                0 <= m < k ==> session_stats@[m] == (SessionStat { wins: 0, losses: 0 }),
        decreases MAX_SESSIONS - k,
    {
        session_stats.push(SessionStat { wins: 0, losses: 0 });
        k += 1;
    }

    proof {
        vstd::arithmetic::mul::lemma_mul_nonnegative(
            league.rounds_per_session as int,
            league.players@.len() as int + 1,
        );
    }

    let player_state = PlayerState {
        league_id: league.league_id,
        player,
        points: 0,
        streak: 0,
        xp: 0,
        bonuses: 0,
        has_claimed: false,
        session_stats,
    };

    league.players.push(player);

    Ok(player_state)
}

/// Starts the draft: shuffles the roster into a turn order with the
/// externally supplied seed, moves the league to `Drafting` and resets the
/// session pick counter. Needs at least [`MIN_PLAYERS`] joined players.
pub fn start_draft(league: &mut League, seed: u64) -> (r: Result<(), FflError>)
    requires
        old(league).wf(),
    ensures
        final(league).wf(),
        r is Err ==> *final(league) == *old(league),
        old(league).state !is Setup ==> r is Err && r->Err_0 == FflError::NotSetup,
        old(league).state is Setup && old(league).players@.len() < MIN_PLAYERS ==> r is Err
            && r->Err_0 == FflError::LeagueFull,
        r is Ok <==> old(league).state is Setup && old(league).players@.len() >= MIN_PLAYERS,
        r is Ok ==> {
            &&& *final(league) == (League {
                draft_order: final(league).draft_order,
                state: LeagueState::Drafting,
                session_picks_count: 0,
                ..*old(league)
            })
            &&& final(league).draft_order@ == fisher_yates(
                old(league).players@,
                seed,
                (old(league).players@.len() - 1) as nat,
            )
            &&& final(league).draft_order@.to_multiset() == old(league).players@.to_multiset()
        },
{
    if !(league.state == LeagueState::Setup) {
        return Err(FflError::NotSetup);
    }
    if league.players.len() < MIN_PLAYERS {
        return Err(FflError::LeagueFull);
    }

    let n: usize = league.players.len();
    let mut draft_order: Vec<u64> = Vec::new();
    let mut k: usize = 0;
    while k < n
        invariant
            n == league.players@.len(),
            k <= n,
            draft_order@ == league.players@.take(k as int),
        decreases n - k,
    {
        draft_order.push(league.players[k]);
        k += 1;
    }
    assert(draft_order@ == league.players@) by {
        assert(league.players@.take(n as int) =~= league.players@);
    }

    let ghost players_before = league.players@;

    let mut i: usize = n - 1;
    while i >= 1
        invariant
            n == players_before.len(),
            MIN_PLAYERS <= n,
            i < n,
            draft_order@.len() == n,
            fisher_yates(players_before, seed, (n - 1) as nat) == fisher_yates(
                draft_order@,
                seed,
                i as nat,
            ),
        decreases i,
    {
        let j: usize = (seed % (i as u64 + 1)) as usize;
        assert(j <= i);
        let ghost before_swap = draft_order@;
        let value_i = draft_order[i];
        let value_j = draft_order[j];
        draft_order[i] = value_j;
        draft_order[j] = value_i;
        assert(draft_order@ == swap_seq(before_swap, i as int, j as int));
        i -= 1;
    }

    proof {
        lemma_fisher_yates_permutes(players_before, seed, (n - 1) as nat);
        vstd::arithmetic::mul::lemma_mul_nonnegative(
            league.rounds_per_session as int,
            league.players@.len() as int,
        );
    }

    league.draft_order = draft_order;
    league.state = LeagueState::Drafting;
    league.session_picks_count = 0;

    Ok(())
}

/// Validates whose turn it is and mints the drafted pick.
///
/// Requires `Drafting` and room left in the current session's draft; the
/// caller must be the player the snake order puts at the current pick index.
/// The pick counter advances, and when it reaches one full session of picks
/// the league becomes `Active`. Every rejection leaves the league unchanged.
///
/// The pick records an 8-bit pick index: a session configured for more than
/// 256 picks wraps it (the turn order itself uses the full counter).
pub fn make_pick(
    league: &mut League,
    player: u64,
    market_id: String,
    prediction: Prediction,
    snapshot_odds: u32,
) -> (r: Result<DraftPick, FflError>)
    requires
        old(league).wf(),
        snapshot_odds <= ODDS_SCALE,
    ensures
        final(league).wf(),
        r is Err ==> *final(league) == *old(league),
        old(league).state !is Drafting ==> r is Err && r->Err_0 == FflError::NotDrafting,
        old(league).state is Drafting && old(league).session_picks_count >= old(
            league,
        ).rounds_per_session * old(league).players@.len() ==> r is Err && r->Err_0
            == FflError::SessionNotActive,
        old(league).state is Drafting && old(league).session_picks_count < old(
            league,
        ).rounds_per_session * old(league).players@.len() && player != old(league).draft_order@[
            snake_position(
                old(league).session_picks_count as int,
                old(league).players@.len() as int,
            )
        ] ==> r is Err && r->Err_0 == FflError::NotYourTurn,
        r is Ok <==> {
            &&& old(league).state is Drafting
            &&& old(league).session_picks_count < old(league).rounds_per_session * old(
                league,
            ).players@.len()
            &&& player == old(league).draft_order@[snake_position(
                old(league).session_picks_count as int,
                old(league).players@.len() as int,
            )]
        },
        r is Ok ==> {
            &&& *final(league) == (League {
                session_picks_count: final(league).session_picks_count,
                state: final(league).state,
                ..*old(league)
            })
            &&& final(league).session_picks_count == old(league).session_picks_count + 1
            &&& final(league).state == (if old(league).session_picks_count + 1 == old(
                league,
            ).rounds_per_session * old(league).players@.len() {
                LeagueState::Active
            } else {
                LeagueState::Drafting
            })
        },
        r matches Ok(pick) ==> {
            &&& pick.wf()
            &&& pick.league_id == old(league).league_id
            &&& pick.player == player
            &&& pick.session_index == old(league).current_session
            &&& pick.pick_index == old(league).session_picks_count as u8
            &&& pick.market_id == market_id
            &&& pick.prediction == prediction
            &&& pick.snapshot_odds == snapshot_odds
            &&& !pick.resolved
            &&& pick.final_points == 0
        },
{
    if !(league.state == LeagueState::Drafting) {
        return Err(FflError::NotDrafting);
    }

    let n: usize = league.players.len();
    proof {
        vstd::arithmetic::mul::lemma_mul_upper_bound(
            league.rounds_per_session as int,
            u8::MAX as int,
            n as int,
            MAX_PLAYERS as int,
        );
    }
    let total_picks: usize = (league.rounds_per_session as usize) * n;
    if (league.session_picks_count as usize) >= total_picks {
        return Err(FflError::SessionNotActive);
    }

    let pick_index: usize = league.session_picks_count as usize;
    let round: usize = pick_index / n;
    let position_in_round: usize = pick_index % n;
    let player_index: usize = if round % 2 == 0 {
        position_in_round
    } else {
        n - 1 - position_in_round
    };

    let expected_player = league.draft_order[player_index];
    if player != expected_player {
        return Err(FflError::NotYourTurn);
    }

    let draft_pick = DraftPick {
        league_id: league.league_id,
        player,
        session_index: league.current_session,
        pick_index: #[verifier::truncate] (league.session_picks_count as u8),
        market_id,
        prediction,
        snapshot_odds,
        resolved: false,
        final_points: 0,
    };

    league.session_picks_count = league.session_picks_count + 1;
    if (league.session_picks_count as usize) == total_picks {
        league.state = LeagueState::Active;
    }

    Ok(draft_pick)
}

} // verus!
