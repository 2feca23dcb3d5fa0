use fantasy_league::league::{create_league, join_league, make_pick, start_draft};
use fantasy_league::payout::{claim_payout, end_season};
use fantasy_league::resolve::resolve_market;
use fantasy_league::state::{LeagueState, Prediction};

#[test]
fn full_season_end_to_end() {
    // One-round season for two players with a 500 buy-in.
    let mut league = create_league(1, 100, 900, 500, 1, 1, 10_000);
    let mut ps_a = join_league(&mut league, 21).unwrap();
    let mut ps_b = join_league(&mut league, 22).unwrap();

    start_draft(&mut league, 9).unwrap();
    assert_eq!(league.state, LeagueState::Drafting);
    let order = league.draft_order.clone();

    let mut picks = Vec::new();
    for (i, player) in order.iter().enumerate() {
        let pick = make_pick(
            &mut league,
            *player,
            format!("market-{}", i),
            Prediction::Yes,
            4000,
        )
        .unwrap();
        picks.push(pick);
    }
    assert_eq!(league.state, LeagueState::Active);

    // First drafter wins, second loses. A 0.40 pick pays 60 * 1.2 = 72 and,
    // in a one-round session, sweeps for +50; the loss costs 30 * 0.40 = 12.
    for mut pick in picks {
        let outcome = pick.player == order[0];
        let ps = if pick.player == 21 { &mut ps_a } else { &mut ps_b };
        resolve_market(&mut league, &mut pick, ps, outcome, 5000).unwrap();
        assert!(pick.resolved);
    }
    assert_eq!(ps_a.points + ps_b.points, league.total_points);
    assert_eq!(league.total_points, 110);

    let (winner, loser) = if order[0] == 21 {
        (&mut ps_a, &mut ps_b)
    } else {
        (&mut ps_b, &mut ps_a)
    };
    assert_eq!(winner.points, 122);
    assert_eq!(winner.bonuses, 50);
    assert_eq!(winner.streak, 1);
    assert_eq!(loser.points, -12);
    assert_eq!(loser.streak, 0);

    end_season(&mut league).unwrap();
    assert_eq!(league.state, LeagueState::Completed);

    // Pool 1000 over a clamped league total of 110: the winner's 122 points
    // claim floor(122 * 1000 / 110); the loser's negative record earns 0 but
    // still burns its one claim.
    assert_eq!(claim_payout(&league, winner), Ok(1109));
    assert_eq!(claim_payout(&league, loser), Ok(0));
    assert!(winner.has_claimed);
    assert!(loser.has_claimed);
    assert!(claim_payout(&league, winner).is_err());
    assert!(claim_payout(&league, loser).is_err());
}
