//! Questions about the current state of a game.
use vstd::prelude::*;

use crate::game::{GameState, GameStateView};
use crate::primitives::Side;

verus! {

/// It is `side`'s turn, that player has an action point left and no raid is in progress.
pub open spec fn spec_in_main_phase(game: GameStateView, side: Side) -> bool {
    &&& game.player(side).actions > 0
    &&& game.data.turn == side
    &&& game.data.raid is None
}

/// Whether `side` may take a main-phase action now.
pub fn in_main_phase(game: &GameState, side: Side) -> (result: bool)
    ensures
        result == spec_in_main_phase(game@, side),
{
    game.player(side).actions > 0 && game.data().turn == side && game.data().raid.is_none()
}

} // verus!
