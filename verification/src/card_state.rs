//! Where a card is and what it carries.
use vstd::prelude::*;

use crate::primitives::{
    AbilityIndex, BoostCount, CardId, CardName, ItemLocation, LevelValue, ManaValue, RoomId, RoomLocation,
    Side,
};
use std::collections::BTreeMap;

use crate::laws::{card_call_effect, CardCall};

verus! {

/// The position of a card within the game.
#[derive(PartialEq, Eq, Structural, Hash, Debug, Copy, Clone)]
pub enum CardPosition {
    Room(RoomId, RoomLocation),
    ArenaItem(ItemLocation),
    Hand(Side),
    Deck(Side),
    DiscardPile(Side),
    Scored(Side),
}

/// The kind of a [CardPosition], without its payload.
#[derive(PartialEq, Eq, Structural, Hash, Debug, Copy, Clone)]
pub enum CardPositionTypes {
    Room,
    ArenaItem,
    Hand,
    Deck,
    DiscardPile,
    Scored,
}

impl CardPosition {
    pub open spec fn spec_kind(&self) -> CardPositionTypes {
        match self {
            CardPosition::Room(..) => CardPositionTypes::Room,
            CardPosition::ArenaItem(..) => CardPositionTypes::ArenaItem,
            CardPosition::Hand(..) => CardPositionTypes::Hand,
            CardPosition::Deck(..) => CardPositionTypes::Deck,
            CardPosition::DiscardPile(..) => CardPositionTypes::DiscardPile,
            CardPosition::Scored(..) => CardPositionTypes::Scored,
        }
    }

    /// The kind of this position.
    #[verifier::when_used_as_spec(spec_kind)]
    pub fn kind(&self) -> (result: CardPositionTypes)
        ensures
            result == self.spec_kind(),
    {
        match self {
            CardPosition::Room(..) => CardPositionTypes::Room,
            CardPosition::ArenaItem(..) => CardPositionTypes::ArenaItem,
            CardPosition::Hand(..) => CardPositionTypes::Hand,
            CardPosition::Deck(..) => CardPositionTypes::Deck,
            CardPosition::DiscardPile(..) => CardPositionTypes::DiscardPile,
            CardPosition::Scored(..) => CardPositionTypes::Scored,
        }
    }

    pub open spec fn spec_in_play(&self) -> bool {
        self is Room || self is ArenaItem
    }

    /// Returns true if this card is in a room or has been played as an item
    #[verifier::when_used_as_spec(spec_in_play)]
    pub fn in_play(&self) -> (result: bool)
        ensures
            result == self.spec_in_play(),
    {
        let kind = self.kind();
        kind == CardPositionTypes::Room || kind == CardPositionTypes::ArenaItem
    }

    pub open spec fn spec_in_hand(&self) -> bool {
        self is Hand
    }

    #[verifier::when_used_as_spec(spec_in_hand)]
    pub fn in_hand(&self) -> (result: bool)
        ensures
            result == self.spec_in_hand(),
    {
        CardPositionTypes::Hand == self.kind()
    }

    pub open spec fn spec_in_deck(&self) -> bool {
        self is Deck
    }

    #[verifier::when_used_as_spec(spec_in_deck)]
    pub fn in_deck(&self) -> (result: bool)
        ensures
            result == self.spec_in_deck(),
    {
        CardPositionTypes::Deck == self.kind()
    }

    pub open spec fn spec_in_discard_pile(&self) -> bool {
        self is DiscardPile
    }

    #[verifier::when_used_as_spec(spec_in_discard_pile)]
    pub fn in_discard_pile(&self) -> (result: bool)
        ensures
            result == self.spec_in_discard_pile(),
    {
        CardPositionTypes::DiscardPile == self.kind()
    }

    pub open spec fn spec_in_score_pile(&self) -> bool {
        self is Scored
    }

    #[verifier::when_used_as_spec(spec_in_score_pile)]
    pub fn in_score_pile(&self) -> (result: bool)
        ensures
            result == self.spec_in_score_pile(),
    {
        CardPositionTypes::Scored == self.kind()
    }
}

#[derive(PartialEq, Eq, Structural, Hash, Debug, Clone, Copy)]
pub struct AbilityState {}

/// Optional state for a card.
#[derive(Debug, Clone)]
pub struct CardData {
    /// How many times the boost ability of this card has been activated -- typically used to
    /// increase weapon attack power during a raid.
    pub boost_count: BoostCount,
    /// How much mana is stored in this card?
    pub stored_mana: ManaValue,
    /// How many times has this card been leveled up?
    pub card_level: LevelValue,
    /// State for this card's abilities
    pub ability_state: BTreeMap<AbilityIndex, AbilityState>,
}

impl CardData {
    /// Card data with every counter at zero and no ability state.
    pub open spec fn spec_empty(&self) -> bool {
        &&& self.boost_count == 0
        &&& self.stored_mana == 0
        &&& self.card_level == 0
        &&& self.ability_state@ == Map::<AbilityIndex, AbilityState>::empty()
    }
}

impl Default for CardData {
    fn default() -> (result: CardData)
        ensures
            result.spec_empty(),
    {
        CardData { boost_count: 0, stored_mana: 0, card_level: 0, ability_state: BTreeMap::new() }
    }
}

/// What can be known of a [CardState].
pub ghost struct CardStateView {
    pub id: CardId,
    pub name: CardName,
    pub position: CardPosition,
    pub position_modified: bool,
    pub data: CardData,
    pub data_modified: bool,
    pub face_up: bool,
    pub revealed_to_overlord: bool,
    pub revealed_to_champion: bool,
}

impl CardStateView {
    pub open spec fn revealed_to(self, side: Side) -> bool {
        match side {
            Side::Overlord => self.revealed_to_overlord,
            Side::Champion => self.revealed_to_champion,
        }
    }
}

/// The state of one card in a game.
#[derive(Debug, Clone)]
pub struct CardState {
    id: CardId,
    name: CardName,
    position: CardPosition,
    position_modified: bool,
    data: CardData,
    data_modified: bool,
    face_up: bool,
    revealed_to_overlord: bool,
    revealed_to_champion: bool,
}

impl View for CardState {
    type V = CardStateView;

    closed spec fn view(&self) -> CardStateView {
        CardStateView {
            id: self.id,
            name: self.name,
            position: self.position,
            position_modified: self.position_modified,
            data: self.data,
            data_modified: self.data_modified,
            face_up: self.face_up,
            revealed_to_overlord: self.revealed_to_overlord,
            revealed_to_champion: self.revealed_to_champion,
        }
    }
}

impl CardState {
    /// A face-down card, revealed to nobody, with empty data and no pending modifications.
    pub fn new(id: CardId, name: CardName, position: CardPosition) -> (result: CardState)
        ensures
            result@.id == id,
            result@.name == name,
            result@.position == position,
            !result@.position_modified,
            result@.data.spec_empty(),
            !result@.data_modified,
            !result@.face_up,
            !result@.revealed_to_overlord,
            !result@.revealed_to_champion,
    {
        CardState {
            id,
            name,
            position,
            position_modified: false,
            data: CardData::default(),
            data_modified: false,
            face_up: false,
            revealed_to_overlord: false,
            revealed_to_champion: false,
        }
    }

    /// Reset the value of 'modified' flags to false
    pub fn clear_modified_flags(&mut self)
        ensures
            card_call_effect(old(self)@, final(self)@, CardCall::ClearModifiedFlags),
            final(self)@ == (CardStateView {
                position_modified: false,
                data_modified: false,
                ..old(self)@
            }),
    {
        self.position_modified = false;
        self.data_modified = false;
    }

    /// ID for this card.
    pub fn id(&self) -> (result: CardId)
        ensures
            result == self@.id,
    {
        self.id
    }

    /// Card name, can be used to look up this card's definition
    pub fn name(&self) -> (result: CardName)
        ensures
            result == self@.name,
    {
        self.name
    }

    /// Where this card is located in the game
    pub fn position(&self) -> (result: CardPosition)
        ensures
            result == self@.position,
    {
        self.position
    }

    /// Move this card to a new position
    pub fn move_to(&mut self, new_position: CardPosition)
        ensures
            card_call_effect(old(self)@, final(self)@, CardCall::MoveTo(new_position)),
            final(self)@ == (CardStateView {
                position: new_position,
                position_modified: true,
                ..old(self)@
            }),
    {
        self.position_modified = true;
        self.position = new_position;
    }

    /// Whether the position has been modified since the last call to
    /// [CardState::clear_modified_flags]
    pub fn position_modified(&self) -> (result: bool)
        ensures
            result == self@.position_modified,
    {
        self.position_modified
    }

    /// Optional state for this card
    pub fn data(&self) -> (result: &CardData)
        ensures
            *result == self@.data,
    {
        &self.data
    }

    /// Mutable version of [Self::data]; marks the data as modified.
    pub fn data_mut(&mut self) -> (result: &mut CardData)
        ensures
            card_call_effect(old(self)@, final(self)@, CardCall::DataMut(*final(result))),
            *result == old(self)@.data,
            final(self)@ == (CardStateView {
                data: *final(result),
                data_modified: true,
                ..old(self)@
            }),
    {
        self.data_modified = true;
        &mut self.data
    }

    /// Whether the data has been modified since the last call to
    /// [CardState::clear_modified_flags]
    pub fn data_modified(&self) -> (result: bool)
        ensures
            result == self@.data_modified,
    {
        self.data_modified
    }

    pub fn is_face_up(&self) -> (result: bool)
        ensures
            result == self@.face_up,
    {
        self.face_up
    }

    pub fn is_face_down(&self) -> (result: bool)
        ensures
            result == !self@.face_up,
    {
        !self.face_up
    }

    /// Turns this card face up, which reveals it to both players.
    pub fn turn_face_up(&mut self)
        ensures
            card_call_effect(old(self)@, final(self)@, CardCall::TurnFaceUp),
            final(self)@ == (CardStateView {
                face_up: true,
                revealed_to_overlord: true,
                revealed_to_champion: true,
                ..old(self)@
            }),
    {
        self.face_up = true;
        self.revealed_to_overlord = true;
        self.revealed_to_champion = true;
    }

    /// Turns this card face down. Who it is revealed to does not change.
    pub fn turn_face_down(&mut self)
        ensures
            card_call_effect(old(self)@, final(self)@, CardCall::TurnFaceDown),
            final(self)@ == (CardStateView { face_up: false, ..old(self)@ }),
    {
        self.face_up = false;
    }

    /// Whether the player `side` can see this card.
    pub fn is_revealed_to(&self, side: Side) -> (result: bool)
        ensures
            result == self@.revealed_to(side),
    {
        match side {
            Side::Overlord => self.revealed_to_overlord,
            Side::Champion => self.revealed_to_champion,
        }
    }

    /// Reveals this card to `side`, or hides it from that player.
    pub fn set_revealed_to(&mut self, side: Side, revealed: bool)
        ensures
            card_call_effect(old(self)@, final(self)@, CardCall::SetRevealedTo(side, revealed)),
            side == Side::Overlord ==> final(self)@ == (CardStateView {
                revealed_to_overlord: revealed,
                ..old(self)@
            }),
            side == Side::Champion ==> final(self)@ == (CardStateView {
                revealed_to_champion: revealed,
                ..old(self)@
            }),
    {
        match side {
            Side::Overlord => self.revealed_to_overlord = revealed,
            Side::Champion => self.revealed_to_champion = revealed,
        }
    }
}

} // verus!
