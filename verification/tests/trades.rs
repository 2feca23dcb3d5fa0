use fantasy_league::errors::FflError;
use fantasy_league::state::{DraftPick, League, LeagueState, Prediction};
use fantasy_league::trades::{propose_trade, respond_to_trade, TradeStatus};

fn active_league() -> League {
    League {
        league_id: 7,
        creator: 100,
        buy_in_amount: 200,
        prize_pool_vault: 900,
        players: vec![10, 11],
        draft_order: vec![11, 10],
        sessions_total: 3,
        rounds_per_session: 2,
        current_session: 1,
        state: LeagueState::Active,
        created_at: 1_000,
        updated_at: 1_000,
        session_picks_count: 4,
        total_points: 0,
    }
}

fn unresolved_pick(player: u64, market_id: &str) -> DraftPick {
    DraftPick {
        league_id: 7,
        player,
        session_index: 1,
        pick_index: 0,
        market_id: market_id.to_string(),
        prediction: Prediction::Yes,
        snapshot_odds: 5000,
        resolved: false,
        final_points: 0,
    }
}

#[test]
fn propose_creates_pending_with_24h_expiry() {
    let league = active_league();
    let pa = unresolved_pick(10, "market-a");
    let pb = unresolved_pick(11, "market-b");
    let tp = propose_trade(&league, 1, 10, 11, &pa, &pb, 501, 502, 50_000).unwrap();
    assert_eq!(tp.trade_id, 1);
    assert_eq!(tp.league_id, 7);
    assert_eq!(tp.proposer, 10);
    assert_eq!(tp.receiver, 11);
    assert_eq!(tp.proposer_pick, 501);
    assert_eq!(tp.receiver_pick, 502);
    assert_eq!(tp.status, TradeStatus::Pending);
    assert_eq!(tp.proposed_at, 50_000);
    assert_eq!(tp.expires_at, 50_000 + 86_400);
}

#[test]
fn propose_rejects_wrong_owner() {
    let league = active_league();
    let pa = unresolved_pick(12, "market-a");
    let pb = unresolved_pick(11, "market-b");
    let r = propose_trade(&league, 1, 10, 11, &pa, &pb, 501, 502, 50_000);
    assert_eq!(r.unwrap_err(), FflError::Unauthorized);
}

#[test]
fn propose_rejects_foreign_league() {
    let league = active_league();
    let mut pa = unresolved_pick(10, "market-a");
    pa.league_id = 8;
    let pb = unresolved_pick(11, "market-b");
    let r = propose_trade(&league, 1, 10, 11, &pa, &pb, 501, 502, 50_000);
    assert_eq!(r.unwrap_err(), FflError::Unauthorized);
}

#[test]
fn propose_rejects_resolved_pick() {
    let league = active_league();
    let pa = unresolved_pick(10, "market-a");
    let mut pb = unresolved_pick(11, "market-b");
    pb.resolved = true;
    let r = propose_trade(&league, 1, 10, 11, &pa, &pb, 501, 502, 50_000);
    assert_eq!(r.unwrap_err(), FflError::PickResolved);
}

#[test]
fn accept_swaps_both_owners() {
    // Answered one second before the 24 hours are up: still acceptable.
    let league = active_league();
    let mut pa = unresolved_pick(10, "market-a");
    let mut pb = unresolved_pick(11, "market-b");
    let mut tp = propose_trade(&league, 1, 10, 11, &pa, &pb, 501, 502, 50_000).unwrap();
    let r = respond_to_trade(&mut tp, &mut pa, &mut pb, 11, 501, 502, true, 50_000 + 86_399);
    assert_eq!(r, Ok(()));
    assert_eq!(tp.status, TradeStatus::Accepted);
    assert_eq!(pa.player, 11);
    assert_eq!(pb.player, 10);
}

#[test]
fn accept_at_exact_expiry_still_succeeds() {
    let league = active_league();
    let mut pa = unresolved_pick(10, "market-a");
    let mut pb = unresolved_pick(11, "market-b");
    let mut tp = propose_trade(&league, 1, 10, 11, &pa, &pb, 501, 502, 50_000).unwrap();
    let r = respond_to_trade(&mut tp, &mut pa, &mut pb, 11, 501, 502, true, 50_000 + 86_400);
    assert_eq!(r, Ok(()));
    assert_eq!(tp.status, TradeStatus::Accepted);
}

#[test]
fn response_after_expiry_marks_expired() {
    let league = active_league();
    let mut pa = unresolved_pick(10, "market-a");
    let mut pb = unresolved_pick(11, "market-b");
    let mut tp = propose_trade(&league, 1, 10, 11, &pa, &pb, 501, 502, 50_000).unwrap();
    let r = respond_to_trade(&mut tp, &mut pa, &mut pb, 11, 501, 502, true, 50_000 + 86_401);
    assert_eq!(r, Err(FflError::TradeExpired));
    assert_eq!(tp.status, TradeStatus::Expired);
    assert_eq!(pa.player, 10);
    assert_eq!(pb.player, 11);

    // The proposal is terminal now; a further response is refused.
    let r = respond_to_trade(&mut tp, &mut pa, &mut pb, 11, 501, 502, true, 50_000);
    assert_eq!(r, Err(FflError::TradeNotPending));
    assert_eq!(tp.status, TradeStatus::Expired);
}

#[test]
fn decline_leaves_owners_alone() {
    let league = active_league();
    let mut pa = unresolved_pick(10, "market-a");
    let mut pb = unresolved_pick(11, "market-b");
    let mut tp = propose_trade(&league, 1, 10, 11, &pa, &pb, 501, 502, 50_000).unwrap();
    let r = respond_to_trade(&mut tp, &mut pa, &mut pb, 11, 501, 502, false, 50_100);
    assert_eq!(r, Ok(()));
    assert_eq!(tp.status, TradeStatus::Rejected);
    assert_eq!(pa.player, 10);
    assert_eq!(pb.player, 11);
}

#[test]
fn only_the_receiver_may_respond() {
    let league = active_league();
    let mut pa = unresolved_pick(10, "market-a");
    let mut pb = unresolved_pick(11, "market-b");
    let mut tp = propose_trade(&league, 1, 10, 11, &pa, &pb, 501, 502, 50_000).unwrap();
    let r = respond_to_trade(&mut tp, &mut pa, &mut pb, 10, 501, 502, true, 50_100);
    assert_eq!(r, Err(FflError::NotTradeParty));
    assert_eq!(tp.status, TradeStatus::Pending);
}

#[test]
fn mismatched_pick_keys_are_rejected() {
    let league = active_league();
    let mut pa = unresolved_pick(10, "market-a");
    let mut pb = unresolved_pick(11, "market-b");
    let mut tp = propose_trade(&league, 1, 10, 11, &pa, &pb, 501, 502, 50_000).unwrap();
    let r = respond_to_trade(&mut tp, &mut pa, &mut pb, 11, 777, 502, true, 50_100);
    assert_eq!(r, Err(FflError::PickNotFound));
    assert_eq!(tp.status, TradeStatus::Pending);
}

#[test]
fn resolved_pick_blocks_response() {
    let league = active_league();
    let mut pa = unresolved_pick(10, "market-a");
    let mut pb = unresolved_pick(11, "market-b");
    let mut tp = propose_trade(&league, 1, 10, 11, &pa, &pb, 501, 502, 50_000).unwrap();
    pa.resolved = true;
    let r = respond_to_trade(&mut tp, &mut pa, &mut pb, 11, 501, 502, true, 50_100);
    assert_eq!(r, Err(FflError::PickResolved));
    assert_eq!(tp.status, TradeStatus::Pending);
    assert_eq!(pb.player, 11);
}

#[test]
fn stale_ownership_blocks_accept_with_no_partial_swap() {
    // The proposer's pick changed hands between proposal and response: the
    // acceptance fails and neither owner moves.
    let league = active_league();
    let mut pa = unresolved_pick(10, "market-a");
    let mut pb = unresolved_pick(11, "market-b");
    let mut tp = propose_trade(&league, 1, 10, 11, &pa, &pb, 501, 502, 50_000).unwrap();
    pa.player = 12;
    let r = respond_to_trade(&mut tp, &mut pa, &mut pb, 11, 501, 502, true, 50_100);
    assert_eq!(r, Err(FflError::Unauthorized));
    assert_eq!(tp.status, TradeStatus::Pending);
    assert_eq!(pa.player, 12);
    assert_eq!(pb.player, 11);
}
