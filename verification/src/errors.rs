//! Error kinds returned by the league operations.
//!
//! Every operation is all-or-nothing: a returned error means the operation had
//! no effect on any record (lazy trade expiry excepted, see
//! [`crate::trades::respond_to_trade`]).

use vstd::prelude::*;

verus! {

/// The rejection kinds of the league engine.
///
/// Each operation's contract states exactly which inputs produce which kind.
#[derive(Clone, Copy, Debug, PartialEq, Eq, Structural)]
pub enum FflError {
    /// The league roster already holds the maximum number of players, or an
    /// operation that needs a minimum roster found too few players.
    LeagueFull,
    /// The league is not in the `Setup` phase.
    NotSetup,
    /// The league is not in the `Drafting` phase.
    NotDrafting,
    /// The caller is not the player whose turn it is in the snake draft.
    NotYourTurn,
    /// The market was already drafted in this league.
    MarketTaken,
    /// The league is not in the phase this operation requires.
    SessionNotActive,
    /// The player already joined this league.
    AlreadyJoined,
    /// The prediction is not a valid side of the market.
    InvalidPrediction,
    /// The caller is not the party this operation expects, or the records
    /// handed in do not belong together (mismatched league or owner), or a
    /// one-time action was attempted a second time.
    Unauthorized,
    /// A point or payout computation would overflow its integer type.
    MathOverflow,
    /// The trade proposal is no longer `Pending`.
    TradeNotPending,
    /// The trade proposal's expiry time has passed.
    TradeExpired,
    /// The responder is not the receiver recorded on the trade proposal.
    NotTradeParty,
    /// The referenced pick is already resolved.
    PickResolved,
    /// A pick handed to the operation does not match the one recorded on the
    /// trade proposal.
    PickNotFound,
}

} // verus!
