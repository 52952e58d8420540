//! Why a transition was refused.
use vstd::prelude::*;

verus! {

/// Every refusal is final for the attempted transition: the records are left
/// exactly as they were.
#[derive(Clone, Copy, Debug, PartialEq, Eq, Structural)]
pub enum GameError {
    /// The match is not in the phase the operation needs.
    InvalidGameState,
    /// The creator tried to join their own match.
    CannotJoinOwnGame,
    /// A second player has already joined.
    GameAlreadyFull,
    /// The caller is neither of the two players.
    NotPlayerInGame,
    /// The caller has already committed in this round.
    AlreadyCommitted,
    /// The caller has already revealed in this round.
    AlreadyRevealed,
    /// The revealed move and salt do not hash to the committed digest.
    InvalidReveal,
    /// The registry has not been initialized.
    GlobalStateNotInitialized,
    /// The caller is not the administrator.
    Unauthorized,
    /// The match has no deadline to claim against.
    NoDeadlineSet,
    /// The deadline has not passed yet.
    DeadlineNotReached,
    /// The claimer has not committed in this round.
    ClaimerDidNotCommit,
    /// The opponent has committed in this round.
    OpponentAlreadyCommitted,
    /// The claimer has not revealed in this round.
    ClaimerDidNotReveal,
    /// The opponent has revealed in this round.
    OpponentAlreadyRevealed,
    /// The stake or the held balance does not cover what is owed.
    InsufficientFunds,
}

} // verus!
