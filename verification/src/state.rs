//! The record types of the league engine and their well-formedness
//! invariants.
//!
//! Identities (players, the league creator, the prize vault, stored pick
//! references) are opaque keys issued by the surrounding storage and
//! authentication layer; the engine only ever compares them for equality, so
//! they are carried as plain `u64` values.

use vstd::prelude::*;

verus! {

/// Maximum number of players a league roster can hold.
pub const MAX_PLAYERS: usize = 12;

/// Minimum number of players needed to start a draft.
pub const MIN_PLAYERS: usize = 2;

/// Fixed capacity of the per-session win/loss statistics of a player.
pub const MAX_SESSIONS: usize = 16;

/// Snapshot odds are basis points: an integer 0..=10000 standing for the
/// probability 0%..=100% of the market's `Yes` side.
pub const ODDS_SCALE: u32 = 10000;

/// Lifecycle phase of a league. Each operation is gated on a phase:
/// joining happens in `Setup`, picking in `Drafting`, resolution and trades
/// while `Active`, settlement once `Completed`.
#[derive(Clone, Copy, Debug, PartialEq, Eq, Structural)]
pub enum LeagueState {
    Setup,
    Drafting,
    Active,
    Completed,
}

/// The side of a binary prediction market a pick backs.
#[derive(Clone, Copy, Debug, PartialEq, Eq, Structural)]
pub enum Prediction {
    Yes,
    No,
}

/// Win/loss tally of one player for one session.
#[derive(Clone, Copy, Debug, PartialEq, Eq, Structural, Default)]
pub struct SessionStat {
    pub wins: u8,
    pub losses: u8,
}

/// One competition: roster, schedule, lifecycle phase and aggregate score.
#[derive(Clone, Debug)]
pub struct League {
    /// Unique key of this league.
    pub league_id: u64,
    /// Identity of the creator.
    pub creator: u64,
    /// Buy-in each player pays on joining, in native currency units.
    pub buy_in_amount: u64,
    /// Key of the vault holding the pooled buy-ins.
    pub prize_pool_vault: u64,
    /// Identities of the joined players, in join order, without duplicates.
    pub players: Vec<u64>,
    /// Shuffled turn order; empty until the draft starts, afterwards a
    /// permutation of `players`.
    pub draft_order: Vec<u64>,
    /// Number of sessions the season is configured for.
    pub sessions_total: u8,
    /// Number of picks each player makes per session.
    pub rounds_per_session: u8,
    /// Index of the session currently being played.
    pub current_session: u8,
    /// Lifecycle phase.
    pub state: LeagueState,
    /// Creation timestamp (seconds).
    pub created_at: i64,
    /// Timestamp of the last update (seconds).
    pub updated_at: i64,
    /// Number of picks made in the current session's draft.
    pub session_picks_count: u16,
    /// Running sum of all point deltas applied to this league's players.
    pub total_points: i64,
}

impl League {
    /// Well-formedness: the roster is duplicate-free and capacity-bounded,
    /// the draft order is empty (before the draft) or a permutation of the
    /// roster, the pick counter never exceeds one session's worth of picks,
    /// and any league past `Setup` has a full draft order over at least the
    /// minimum roster.
    pub open spec fn wf(self) -> bool {
        &&& self.players@.no_duplicates()
        &&& self.players@.len() <= MAX_PLAYERS
        &&& self.session_picks_count <= self.rounds_per_session * self.players@.len()
        &&& self.state is Setup ==> self.draft_order@.len() == 0 && self.session_picks_count == 0
        &&& self.state !is Setup ==> {
            &&& self.players@.len() >= MIN_PLAYERS
            &&& self.draft_order@.len() == self.players@.len()
            &&& self.draft_order@.to_multiset() == self.players@.to_multiset()
        }
    }
}

/// Per-(league, player) score record.
#[derive(Clone, Debug)]
pub struct PlayerState {
    /// Key of the league this record belongs to.
    pub league_id: u64,
    /// Identity of the player.
    pub player: u64,
    /// Signed running point total.
    pub points: i64,
    /// Current run of consecutive wins; resets to 0 on any loss.
    pub streak: u16,
    /// Experience counter (reserved; never changed by the engine).
    pub xp: u32,
    /// Sum of all bonus points ever awarded to this player.
    pub bonuses: u32,
    /// Whether the player has claimed their settlement payout. Monotonic:
    /// once true it never goes back.
    pub has_claimed: bool,
    /// Win/loss tallies indexed by session; fixed capacity `MAX_SESSIONS`.
    /// Resolutions whose session index falls outside this capacity apply
    /// their point delta but skip the tally (degraded, documented case).
    pub session_stats: Vec<SessionStat>,
}

impl PlayerState {
    /// Well-formedness: the session tally always holds exactly
    /// `MAX_SESSIONS` entries.
    pub open spec fn wf(self) -> bool {
        self.session_stats@.len() == MAX_SESSIONS
    }
}

/// One drafted market selection.
#[derive(Clone, Debug)]
pub struct DraftPick {
    /// Key of the league this pick was drafted in.
    pub league_id: u64,
    /// Identity of the current owner; changes only through an accepted trade.
    pub player: u64,
    /// Session the pick was drafted in.
    pub session_index: u8,
    /// Position of this pick within the session's draft.
    pub pick_index: u8,
    /// Identifier of the prediction market, as issued by the market oracle.
    pub market_id: String,
    /// The side the owner predicted.
    pub prediction: Prediction,
    /// Market probability of the `Yes` side at draft time, in basis points
    /// (0..=10000); fixed thereafter.
    pub snapshot_odds: u32,
    /// Whether the pick has been resolved. Once true, no field changes again.
    pub resolved: bool,
    /// The point delta applied when the pick resolved; 0 until then.
    pub final_points: i32,
}

impl DraftPick {
    /// Well-formedness: the snapshot odds are a probability in basis points.
    pub open spec fn wf(self) -> bool {
        self.snapshot_odds <= ODDS_SCALE
    }
}

} // verus!
