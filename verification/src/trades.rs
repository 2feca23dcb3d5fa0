//! The trade exchange: proposing and answering ownership swaps of two
//! unresolved picks.
//!
//! A proposal is `Pending` until its one answer: acceptance swaps both
//! owners atomically (never just one), decline rejects, and a response after
//! the 24-hour expiry marks the proposal `Expired` while rejecting the call
//! — expiry is lazy, detected only when somebody responds. The `Canceled`
//! status exists in the data model but no operation produces it; proposer
//! withdrawal is not implemented.

use vstd::prelude::*;

use crate::errors::FflError;
use crate::state::{DraftPick, League};

verus! {

/// How long a proposal stays answerable: 24 hours, in seconds.
pub const TRADE_LIFETIME_SECONDS: i64 = 86400;

/// Status of a trade proposal. `Pending` is the only non-terminal status;
/// one respond call (or lazy expiry detection) moves it to exactly one of
/// the terminal ones, never to be changed again.
#[derive(Clone, Copy, Debug, PartialEq, Eq, Structural)]
pub enum TradeStatus {
    Pending,
    Accepted,
    Rejected,
    Expired,
    Canceled,
}

/// One trade attempt: who offers which pick to whom, until when.
#[derive(Clone, Copy, Debug, PartialEq, Eq, Structural)]
pub struct TradeProposal {
    /// Unique key of this proposal.
    pub trade_id: u64,
    /// Key of the league both picks belong to.
    pub league_id: u64,
    /// Identity of the proposing player.
    pub proposer: u64,
    /// Identity of the player asked to answer.
    pub receiver: u64,
    /// Record key of the pick the proposer offers.
    pub proposer_pick: u64,
    /// Record key of the pick the proposer asks for.
    pub receiver_pick: u64,
    /// Lifecycle status.
    pub status: TradeStatus,
    /// When the proposal was created (seconds).
    pub proposed_at: i64,
    /// `proposed_at + TRADE_LIFETIME_SECONDS`, fixed at creation.
    pub expires_at: i64,
}

/// Whether a proposal's picks and parties line up: each pick belongs to its
/// claimed owner and to the proposer's league.
pub open spec fn proposal_ids_match(
    league: League,
    proposer: u64,
    receiver: u64,
    proposer_pick: DraftPick,
    receiver_pick: DraftPick,
) -> bool {
    &&& proposer_pick.player == proposer
    &&& receiver_pick.player == receiver
    &&& proposer_pick.league_id == league.league_id
    &&& receiver_pick.league_id == league.league_id
}

/// Whether a response passes every check: the proposal is still `Pending`
/// and unexpired, the responder is the recorded receiver, the picks handed
/// in are the recorded ones and still unresolved, and — for an acceptance —
/// both picks still belong to the parties recorded at proposal time (they
/// may have been traded away in between).
pub open spec fn response_checks_pass(
    tp: TradeProposal,
    proposer_pick: DraftPick,
    receiver_pick: DraftPick,
    respondent: u64,
    proposer_pick_key: u64,
    receiver_pick_key: u64,
    accept: bool,
    now: int,
) -> bool {
    &&& tp.status is Pending
    &&& now <= tp.expires_at
    &&& respondent == tp.receiver
    &&& proposer_pick_key == tp.proposer_pick
    &&& receiver_pick_key == tp.receiver_pick
    &&& !proposer_pick.resolved
    &&& !receiver_pick.resolved
    &&& accept ==> proposer_pick.player == tp.proposer && receiver_pick.player == tp.receiver
}

/// The lazy-expiry window: with the expiry stamp fixed one day after
/// creation — as [`propose_trade`] fixes it — a response past the deadline
/// never passes the checks, while inside the window the passage of time
/// changes nothing: a response is acceptable at any moment up to the
/// deadline exactly when it was acceptable the moment the proposal was made.
pub proof fn lemma_trade_expiry_window(
    tp: TradeProposal,
    proposer_pick: DraftPick,
    receiver_pick: DraftPick,
    respondent: u64,
    proposer_pick_key: u64,
    receiver_pick_key: u64,
    accept: bool,
    now: int,
)
    requires
        tp.expires_at == tp.proposed_at + TRADE_LIFETIME_SECONDS,
    ensures
        now > tp.proposed_at + TRADE_LIFETIME_SECONDS ==> !response_checks_pass(
            tp,
            proposer_pick,
            receiver_pick,
            respondent,
            proposer_pick_key,
            receiver_pick_key,
            accept,
            now,
        ),
        now <= tp.proposed_at + TRADE_LIFETIME_SECONDS ==> (response_checks_pass(
            tp,
            proposer_pick,
            receiver_pick,
            respondent,
            proposer_pick_key,
            receiver_pick_key,
            accept,
            now,
        ) <==> response_checks_pass(
            tp,
            proposer_pick,
            receiver_pick,
            respondent,
            proposer_pick_key,
            receiver_pick_key,
            accept,
            tp.proposed_at as int,
        )),
{
}

/// Creates a `Pending` proposal to swap two unresolved picks, expiring
/// exactly [`TRADE_LIFETIME_SECONDS`] after `now`.
///
/// `proposer` is the verified caller identity; the pick keys are the storage
/// keys the handed-in pick records live under. Nothing is mutated: a
/// rejection simply refuses to create the proposal.
pub fn propose_trade(
    league: &League,
    trade_id: u64,
    proposer: u64,
    receiver: u64,
    proposer_pick: &DraftPick,
    receiver_pick: &DraftPick,
    proposer_pick_key: u64,
    receiver_pick_key: u64,
    now: i64,
) -> (r: Result<TradeProposal, FflError>)
    requires
        now + TRADE_LIFETIME_SECONDS <= i64::MAX,
    ensures
        !proposal_ids_match(*league, proposer, receiver, *proposer_pick, *receiver_pick) ==> r
            is Err && r->Err_0 == FflError::Unauthorized,
        proposal_ids_match(*league, proposer, receiver, *proposer_pick, *receiver_pick) && (
        proposer_pick.resolved || receiver_pick.resolved) ==> r is Err && r->Err_0
            == FflError::PickResolved,
        r is Ok <==> {
            &&& proposal_ids_match(*league, proposer, receiver, *proposer_pick, *receiver_pick)
            &&& !proposer_pick.resolved
            &&& !receiver_pick.resolved
        },
        r matches Ok(tp) ==> tp == (TradeProposal {
            trade_id,
            league_id: league.league_id,
            proposer,
            receiver,
            proposer_pick: proposer_pick_key,
            receiver_pick: receiver_pick_key,
            status: TradeStatus::Pending,
            proposed_at: now,
            expires_at: (now + TRADE_LIFETIME_SECONDS) as i64,
        }),
{
    if proposer_pick.player != proposer {
        return Err(FflError::Unauthorized);
    }
    if receiver_pick.player != receiver {
        return Err(FflError::Unauthorized);
    }
    if proposer_pick.league_id != league.league_id {
        return Err(FflError::Unauthorized);
    }
    if receiver_pick.league_id != league.league_id {
        return Err(FflError::Unauthorized);
    }
    if proposer_pick.resolved {
        return Err(FflError::PickResolved);
    }
    if receiver_pick.resolved {
        return Err(FflError::PickResolved);
    }

    Ok(
        TradeProposal {
            trade_id,
            league_id: league.league_id,
            proposer,
            receiver,
            proposer_pick: proposer_pick_key,
            receiver_pick: receiver_pick_key,
            status: TradeStatus::Pending,
            proposed_at: now,
            expires_at: now + TRADE_LIFETIME_SECONDS,
        },
    )
}

/// Answers a `Pending` proposal: acceptance swaps the two picks' owners —
/// both or neither, never one — and decline leaves both picks untouched.
///
/// A response after the expiry moves the proposal to `Expired` and rejects
/// the call; this is the one rejection that mutates a record. Every other
/// rejection leaves proposal and picks exactly as they were, and whatever
/// happens the proposal's fields other than `status` never change.
pub fn respond_to_trade(
    trade_proposal: &mut TradeProposal,
    proposer_pick: &mut DraftPick,
    receiver_pick: &mut DraftPick,
    respondent: u64,
    proposer_pick_key: u64,
    receiver_pick_key: u64,
    accept: bool,
    now: i64,
) -> (r: Result<(), FflError>)
    ensures
        *final(trade_proposal) == (TradeProposal {
            status: final(trade_proposal).status,
            ..*old(trade_proposal)
        }),
        r is Err || !accept ==> *final(proposer_pick) == *old(proposer_pick)
            && *final(receiver_pick) == *old(receiver_pick),
        old(trade_proposal).status !is Pending ==> r is Err && r->Err_0 == FflError::TradeNotPending
            && *final(trade_proposal) == *old(trade_proposal),
        old(trade_proposal).status is Pending && now > old(trade_proposal).expires_at ==> r is Err
            && r->Err_0 == FflError::TradeExpired && final(trade_proposal).status
            == TradeStatus::Expired,
        old(trade_proposal).status is Pending && now <= old(trade_proposal).expires_at && r is Err
            ==> *final(trade_proposal) == *old(trade_proposal),
        old(trade_proposal).status is Pending && now <= old(trade_proposal).expires_at
            && respondent != old(trade_proposal).receiver ==> r is Err && r->Err_0
            == FflError::NotTradeParty,
        old(trade_proposal).status is Pending && now <= old(trade_proposal).expires_at
            && respondent == old(trade_proposal).receiver && (proposer_pick_key != old(
            trade_proposal,
        ).proposer_pick || receiver_pick_key != old(trade_proposal).receiver_pick) ==> r is Err
            && r->Err_0 == FflError::PickNotFound,
        old(trade_proposal).status is Pending && now <= old(trade_proposal).expires_at
            && respondent == old(trade_proposal).receiver && proposer_pick_key == old(
            trade_proposal,
        ).proposer_pick && receiver_pick_key == old(trade_proposal).receiver_pick && (old(
            proposer_pick,
        ).resolved || old(receiver_pick).resolved) ==> r is Err && r->Err_0
            == FflError::PickResolved,
        old(trade_proposal).status is Pending && now <= old(trade_proposal).expires_at
            && respondent == old(trade_proposal).receiver && proposer_pick_key == old(
            trade_proposal,
        ).proposer_pick && receiver_pick_key == old(trade_proposal).receiver_pick && !old(
            proposer_pick,
        ).resolved && !old(receiver_pick).resolved && accept && (old(proposer_pick).player != old(
            trade_proposal,
        ).proposer || old(receiver_pick).player != old(trade_proposal).receiver) ==> r is Err
            && r->Err_0 == FflError::Unauthorized,
        r is Ok <==> response_checks_pass(
            *old(trade_proposal),
            *old(proposer_pick),
            *old(receiver_pick),
            respondent,
            proposer_pick_key,
            receiver_pick_key,
            accept,
            now as int,
        ),
        r is Ok ==> final(trade_proposal).status == (if accept {
            TradeStatus::Accepted
        } else {
            TradeStatus::Rejected
        }),
        r is Ok && accept ==> {
            &&& *final(proposer_pick) == (DraftPick {
                player: old(trade_proposal).receiver,
                ..*old(proposer_pick)
            })
            &&& *final(receiver_pick) == (DraftPick {
                player: old(trade_proposal).proposer,
                ..*old(receiver_pick)
            })
        },
{
    if !(trade_proposal.status == TradeStatus::Pending) {
        return Err(FflError::TradeNotPending);
    }

    // Lazy expiry: the stale proposal is closed as part of rejecting the
    // response — the one rejection with an observable effect.
    if now > trade_proposal.expires_at {
        trade_proposal.status = TradeStatus::Expired;
        return Err(FflError::TradeExpired);
    }

    if respondent != trade_proposal.receiver {
        return Err(FflError::NotTradeParty);
    }
    if proposer_pick_key != trade_proposal.proposer_pick {
        return Err(FflError::PickNotFound);
    }
    if receiver_pick_key != trade_proposal.receiver_pick {
        return Err(FflError::PickNotFound);
    }
    if proposer_pick.resolved {
        return Err(FflError::PickResolved);
    }
    if receiver_pick.resolved {
        return Err(FflError::PickResolved);
    }

    if accept {
        // Re-validate current ownership: either pick may have changed hands
        // since the proposal was created.
        if proposer_pick.player != trade_proposal.proposer {
            return Err(FflError::Unauthorized);
        }
        if receiver_pick.player != trade_proposal.receiver {
            return Err(FflError::Unauthorized);
        }

        proposer_pick.player = trade_proposal.receiver;
        receiver_pick.player = trade_proposal.proposer;
        trade_proposal.status = TradeStatus::Accepted;
    } else {
        trade_proposal.status = TradeStatus::Rejected;
    }

    Ok(())
}

} // verus!
