//! Why a rules operation was refused.
use vstd::prelude::*;

verus! {

/// The reasons for which the rules engine refuses an operation.
#[derive(PartialEq, Eq, Structural, Hash, Debug, Copy, Clone)]
pub enum RulesError {
    /// The player cannot pay the mana that the operation costs.
    InsufficientMana,
    /// The player has fewer action points than the operation costs.
    InsufficientActions,
    /// The action is not legal in the current state of the game.
    IllegalAction,
    /// The operation needs a raid and none is in progress.
    NoActiveRaid,
    /// The operation names a card that does not exist.
    CardNotFound,
    /// The operation needs a defender at a position where the room has none.
    DefenderNotFound,
}

} // verus!
