use fantasy_league::errors::FflError;
use fantasy_league::league::{create_league, join_league, make_pick, start_draft};
use fantasy_league::state::{LeagueState, League, Prediction};

fn league_with_players(n: u64, rounds_per_session: u8) -> League {
    let mut league = create_league(7, 100, 900, 200, 3, rounds_per_session, 1_000);
    for p in 0..n {
        join_league(&mut league, 200 + p).unwrap();
    }
    league
}

#[test]
fn create_league_starts_in_setup() {
    let league = create_league(7, 100, 900, 200, 3, 5, 1_000);
    assert_eq!(league.league_id, 7);
    assert_eq!(league.creator, 100);
    assert_eq!(league.prize_pool_vault, 900);
    assert_eq!(league.buy_in_amount, 200);
    assert_eq!(league.sessions_total, 3);
    assert_eq!(league.rounds_per_session, 5);
    assert_eq!(league.current_session, 1);
    assert_eq!(league.state, LeagueState::Setup);
    assert_eq!(league.created_at, 1_000);
    assert_eq!(league.updated_at, 1_000);
    assert_eq!(league.session_picks_count, 0);
    assert_eq!(league.total_points, 0);
    assert!(league.players.is_empty());
    assert!(league.draft_order.is_empty());
}

#[test]
fn join_initializes_player_state() {
    let mut league = create_league(7, 100, 900, 200, 3, 5, 1_000);
    let ps = join_league(&mut league, 201).unwrap();
    assert_eq!(ps.league_id, 7);
    assert_eq!(ps.player, 201);
    assert_eq!(ps.points, 0);
    assert_eq!(ps.streak, 0);
    assert_eq!(ps.xp, 0);
    assert_eq!(ps.bonuses, 0);
    assert!(!ps.has_claimed);
    assert_eq!(ps.session_stats.len(), 16);
    assert!(ps.session_stats.iter().all(|s| s.wins == 0 && s.losses == 0));
    assert_eq!(league.players, vec![201]);
}

#[test]
fn join_rejects_duplicates() {
    let mut league = league_with_players(3, 5);
    assert_eq!(join_league(&mut league, 201).unwrap_err(), FflError::AlreadyJoined);
    assert_eq!(league.players.len(), 3);
}

#[test]
fn join_rejects_full_roster() {
    let mut league = league_with_players(12, 5);
    assert_eq!(join_league(&mut league, 999).unwrap_err(), FflError::LeagueFull);
    assert_eq!(league.players.len(), 12);
}

#[test]
fn join_rejects_after_setup() {
    let mut league = league_with_players(2, 5);
    start_draft(&mut league, 42).unwrap();
    assert_eq!(join_league(&mut league, 999).unwrap_err(), FflError::NotSetup);
}

#[test]
fn start_draft_needs_two_players() {
    let mut league = league_with_players(1, 5);
    assert_eq!(start_draft(&mut league, 42), Err(FflError::LeagueFull));
    assert_eq!(league.state, LeagueState::Setup);
}

#[test]
fn start_draft_rejects_outside_setup() {
    let mut league = league_with_players(2, 5);
    start_draft(&mut league, 42).unwrap();
    assert_eq!(start_draft(&mut league, 42), Err(FflError::NotSetup));
}

#[test]
fn start_draft_shuffle_is_deterministic() {
    // Seed 0 swaps every position down to the front one by one.
    let mut league = league_with_players(4, 5);
    start_draft(&mut league, 0).unwrap();
    assert_eq!(league.state, LeagueState::Drafting);
    assert_eq!(league.session_picks_count, 0);
    assert_eq!(league.draft_order, vec![201, 202, 203, 200]);

    // Seed 5 on four players: positions 3 and 1 trade, the rest stay.
    let mut league = league_with_players(4, 5);
    start_draft(&mut league, 5).unwrap();
    assert_eq!(league.draft_order, vec![200, 203, 202, 201]);
}

#[test]
fn start_draft_keeps_roster_as_permutation() {
    for seed in [0u64, 1, 17, 987_654_321, u64::MAX] {
        let mut league = league_with_players(12, 5);
        start_draft(&mut league, seed).unwrap();
        let mut ordered = league.draft_order.clone();
        ordered.sort();
        assert_eq!(ordered, league.players);
    }
}

#[test]
fn snake_draft_reverses_every_other_round() {
    // Two rounds of four picks: indices 0-3 run forward through the draft
    // order, indices 4-7 run backward.
    let mut league = league_with_players(4, 2);
    start_draft(&mut league, 7).unwrap();
    let order = league.draft_order.clone();

    let forward = [order[0], order[1], order[2], order[3]];
    let backward = [order[3], order[2], order[1], order[0]];
    for (i, player) in forward.iter().chain(backward.iter()).enumerate() {
        let pick = make_pick(
            &mut league,
            *player,
            format!("market-{}", i),
            Prediction::Yes,
            5000,
        )
        .unwrap();
        assert_eq!(pick.pick_index, i as u8);
        assert_eq!(pick.player, *player);
    }
    assert_eq!(league.session_picks_count, 8);
    assert_eq!(league.state, LeagueState::Active);
}

#[test]
fn make_pick_rejects_out_of_turn() {
    let mut league = league_with_players(4, 2);
    start_draft(&mut league, 7).unwrap();
    let wrong = league.draft_order[1];
    let err = make_pick(&mut league, wrong, "market-x".to_string(), Prediction::No, 5000);
    assert_eq!(err.unwrap_err(), FflError::NotYourTurn);
    assert_eq!(league.session_picks_count, 0);
    assert_eq!(league.state, LeagueState::Drafting);
}

#[test]
fn make_pick_rejects_outside_drafting() {
    let mut league = league_with_players(4, 2);
    let err = make_pick(&mut league, 200, "market-x".to_string(), Prediction::No, 5000);
    assert_eq!(err.unwrap_err(), FflError::NotDrafting);
}

#[test]
fn make_pick_rejects_a_finished_session() {
    // A drafting league whose session is already fully picked.
    let league_template = league_with_players(2, 1);
    let mut league = League {
        state: LeagueState::Drafting,
        draft_order: vec![201, 200],
        session_picks_count: 2,
        ..league_template
    };
    let err = make_pick(&mut league, 201, "market-x".to_string(), Prediction::Yes, 5000);
    assert_eq!(err.unwrap_err(), FflError::SessionNotActive);
    assert_eq!(league.session_picks_count, 2);
}

#[test]
fn make_pick_records_the_selection() {
    let mut league = league_with_players(2, 5);
    start_draft(&mut league, 3).unwrap();
    let first = league.draft_order[0];
    let pick = make_pick(&mut league, first, "market-abc".to_string(), Prediction::No, 2500)
        .unwrap();
    assert_eq!(pick.league_id, 7);
    assert_eq!(pick.player, first);
    assert_eq!(pick.session_index, 1);
    assert_eq!(pick.pick_index, 0);
    assert_eq!(pick.market_id, "market-abc");
    assert_eq!(pick.prediction, Prediction::No);
    assert_eq!(pick.snapshot_odds, 2500);
    assert!(!pick.resolved);
    assert_eq!(pick.final_points, 0);
    assert_eq!(league.session_picks_count, 1);
}
