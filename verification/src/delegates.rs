//! The scope in which an ability's rules run, and the data that events carry.
use vstd::prelude::*;

use crate::card_state::CardPosition;
use crate::primitives::{AbilityId, CardId, Side};

verus! {

/// Identifies the ability which owns a rule being evaluated.
#[derive(PartialEq, Eq, Structural, Hash, Debug, Copy, Clone)]
pub struct Scope {
    /// Ability which owns this delegate.
    ability_id: AbilityId,
}

impl Scope {
    pub closed spec fn spec_ability_id(self) -> AbilityId {
        self.ability_id
    }

    pub fn new(ability_id: AbilityId) -> (result: Scope)
        ensures
            result.spec_ability_id() == ability_id,
    {
        Scope { ability_id }
    }

    /// The player who owns the card of this ability.
    pub fn side(&self) -> (result: Side)
        ensures
            result == self.spec_ability_id().card_id.side,
    {
        self.card_id().side
    }

    pub fn ability_id(&self) -> (result: AbilityId)
        ensures
            result == self.spec_ability_id(),
    {
        self.ability_id
    }

    pub fn card_id(&self) -> (result: CardId)
        ensures
            result == self.spec_ability_id().card_id,
    {
        self.ability_id.card_id
    }
}

/// A card moved from one position to another.
#[derive(PartialEq, Eq, Structural, Hash, Debug, Copy, Clone)]
pub struct CardMoved {
    pub old_position: CardPosition,
    pub new_position: CardPosition,
}

} // verus!
