//! Game events and the context in which their handlers run.
use vstd::prelude::*;

use crate::primitives::{CardId, EventId, Side};

verus! {

#[derive(PartialEq, Eq, Structural, Hash, Debug, Copy, Clone)]
pub struct EventContext {
    pub event_id: EventId,
    pub side: Side,
    pub this: CardId,
}

#[derive(PartialEq, Eq, Structural, Hash, Debug, Copy, Clone)]
pub enum GameEvent {
    OverlordTurnBegins,
    OnPlay,
    PlayCard(CardId),
    DrawCard(CardId),
}

/// Positions in which an event handler may be active.
#[derive(PartialEq, Eq, Structural, Hash, Debug, Copy, Clone)]
pub enum CardPositionType {
    Arena,
    Hand,
    Scored,
    Discard,
    Deck,
}

} // verus!
