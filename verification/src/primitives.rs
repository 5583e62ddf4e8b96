//! Identifiers and small value types shared by the whole game model.
use vstd::prelude::*;

verus! {

pub type TurnNumber = u32;

pub type ManaValue = u32;

pub type ActionCount = u32;

pub type Score = u32;

pub type PointsValue = u32;

pub type LevelValue = u32;

pub type HealthValue = u32;

pub type AttackValue = u32;

pub type ShieldValue = u32;

pub type BoostCount = u32;

pub type DefenderIndex = u32;

/// The two players of a game.
#[derive(PartialEq, Eq, Structural, Hash, Debug, Copy, Clone)]
pub enum Side {
    Champion,
    Overlord,
}

impl Side {
    pub open spec fn spec_opponent(self) -> Side {
        match self {
            Side::Champion => Side::Overlord,
            Side::Overlord => Side::Champion,
        }
    }

    /// The other player.
    #[verifier::when_used_as_spec(spec_opponent)]
    pub fn opponent(self) -> (result: Side)
        ensures
            result == self.spec_opponent(),
            result != self,
    {
        match self {
            Side::Champion => Side::Overlord,
            Side::Overlord => Side::Champion,
        }
    }
}

/// Identifies a card: the player who owns it and its position in that player's card list.
#[derive(PartialEq, Eq, Structural, Hash, Debug, Copy, Clone)]
pub struct CardId {
    pub side: Side,
    pub index: usize,
}

impl CardId {
    pub fn new(side: Side, index: usize) -> (result: CardId)
        ensures
            result == (CardId { side, index }),
    {
        CardId { side, index }
    }
}

/// Names a card definition; every card in a game is an instance of one definition.
#[derive(PartialEq, Eq, Structural, Hash, Debug, Copy, Clone)]
pub struct CardName(pub u32);

#[derive(PartialEq, Eq, Structural, Hash, Debug, Copy, Clone)]
pub struct EventId(pub u32);

/// Identifies an ability within a card. Abilities are the only game entity which may contain
/// delegates. Abilities are identified by their position within the card's ability list.
#[derive(PartialEq, Eq, Structural, Hash, Debug, Copy, Clone, Ord, PartialOrd)]
pub struct AbilityIndex(pub usize);

impl AbilityIndex {
    pub fn value(self) -> (result: usize)
        ensures
            result == self.0,
    {
        self.0
    }
}

#[derive(PartialEq, Eq, Structural, Hash, Debug, Copy, Clone)]
pub struct AbilityId {
    pub card_id: CardId,
    pub index: AbilityIndex,
}

impl AbilityId {
    pub fn new(card_id: CardId, index: usize) -> (result: AbilityId)
        ensures
            result.card_id == card_id,
            result.index == AbilityIndex(index),
    {
        AbilityId { card_id, index: AbilityIndex(index) }
    }
}

/// Uniquely identifies a raid within a given game
#[derive(PartialEq, Eq, Structural, Hash, Debug, Copy, Clone)]
pub struct RaidId(pub u32);

/// Identifies an encounter within a given raid
#[derive(PartialEq, Eq, Structural, Hash, Debug, Copy, Clone)]
pub struct EncounterId {
    pub raid_id: RaidId,
    pub step_id: u32,
}

#[derive(PartialEq, Eq, Hash, Debug, Clone)]
pub struct SpriteAddress(pub String);

#[derive(PartialEq, Eq, Structural, Hash, Debug, Copy, Clone)]
pub enum School {
    Shadow,
    Nature,
    Time,
}

#[derive(PartialEq, Eq, Structural, Hash, Debug, Copy, Clone)]
pub enum RoomId {
    Treasury,
    Sanctum,
    Crypts,
    RoomA,
    RoomB,
    RoomC,
    RoomD,
    RoomE,
}

impl RoomId {
    pub open spec fn spec_is_inner_room(self) -> bool {
        self == RoomId::Treasury || self == RoomId::Sanctum || self == RoomId::Crypts
    }

    /// The treasury, sanctum and crypts are the inner rooms; the others are outer rooms.
    #[verifier::when_used_as_spec(spec_is_inner_room)]
    pub fn is_inner_room(self) -> (result: bool)
        ensures
            result == self.spec_is_inner_room(),
    {
        match self {
            RoomId::Treasury | RoomId::Sanctum | RoomId::Crypts => true,
            _ => false,
        }
    }
}

#[derive(PartialEq, Eq, Structural, Hash, Debug, Copy, Clone)]
pub enum RoomLocation {
    Defender(DefenderIndex),
    InRoom,
}

#[derive(PartialEq, Eq, Structural, Hash, Debug, Copy, Clone)]
pub enum ItemLocation {
    Weapons,
    Artifacts,
}

#[derive(PartialEq, Eq, Structural, Hash, Debug, Copy, Clone)]
pub enum Faction {
    Mortal,
    Abyssal,
    Infernal,
}

#[derive(PartialEq, Eq, Structural, Hash, Debug, Copy, Clone)]
pub enum Rarity {
    Common,
    Uncommon,
    Rare,
    Epic,
}

#[derive(PartialEq, Eq, Structural, Hash, Debug, Copy, Clone)]
pub enum CardType {
    Spell,
    Weapon,
    Minion,
    Project,
    Scheme,
    Identity,
    Token,
}

#[derive(PartialEq, Eq, Structural, Hash, Debug, Copy, Clone)]
pub enum CardSubtype {
    Silvered,
}

/// Records that the boost ability of a card has been activated `count` times.
#[derive(PartialEq, Eq, Structural, Hash, Debug, Copy, Clone)]
pub struct BoostData {
    pub card_id: CardId,
    pub count: BoostCount,
}

} // verus!
