//! The identifiers that the client protocol uses for players, rooms and cards.
use vstd::prelude::*;

verus! {

/// A player's side, as the protocol names it.
#[derive(PartialEq, Eq, Structural, Hash, Debug, Copy, Clone)]
pub enum PlayerSide {
    Unspecified,
    Overlord,
    Champion,
}

impl PlayerSide {
    pub open spec fn spec_code(self) -> i32 {
        match self {
            PlayerSide::Unspecified => 0,
            PlayerSide::Overlord => 1,
            PlayerSide::Champion => 2,
        }
    }

    /// The number that encodes this value on the wire.
    pub fn code(self) -> (result: i32)
        ensures
            result == self.spec_code(),
    {
        match self {
            PlayerSide::Unspecified => 0,
            PlayerSide::Overlord => 1,
            PlayerSide::Champion => 2,
        }
    }

    pub open spec fn spec_from_code(code: i32) -> PlayerSide {
        if code == 1 {
            PlayerSide::Overlord
        } else if code == 2 {
            PlayerSide::Champion
        } else {
            PlayerSide::Unspecified
        }
    }

    /// The value that `code` encodes; an unknown code reads as [PlayerSide::Unspecified].
    pub fn from_code(code: i32) -> (result: PlayerSide)
        ensures
            result == PlayerSide::spec_from_code(code),
    {
        if code == 1 {
            PlayerSide::Overlord
        } else if code == 2 {
            PlayerSide::Champion
        } else {
            PlayerSide::Unspecified
        }
    }
}

/// A player as seen by one client: that client's user, or the opponent.
#[derive(PartialEq, Eq, Structural, Hash, Debug, Copy, Clone)]
pub enum PlayerName {
    Unspecified,
    User,
    Opponent,
}

impl PlayerName {
    pub open spec fn spec_code(self) -> i32 {
        match self {
            PlayerName::Unspecified => 0,
            PlayerName::User => 1,
            PlayerName::Opponent => 2,
        }
    }

    /// The number that encodes this value on the wire.
    pub fn code(self) -> (result: i32)
        ensures
            result == self.spec_code(),
    {
        match self {
            PlayerName::Unspecified => 0,
            PlayerName::User => 1,
            PlayerName::Opponent => 2,
        }
    }
}

/// A room, as the protocol names it.
#[derive(PartialEq, Eq, Structural, Hash, Debug, Copy, Clone)]
pub enum RoomIdentifier {
    Unspecified,
    Vault,
    Sanctum,
    Crypts,
    RoomA,
    RoomB,
    RoomC,
    RoomD,
    RoomE,
}

/// Where in a room a card is shown.
#[derive(PartialEq, Eq, Structural, Hash, Debug, Copy, Clone)]
pub enum ClientRoomLocation {
    Unspecified,
    Back,
    Front,
}

/// Where an item is shown.
#[derive(PartialEq, Eq, Structural, Hash, Debug, Copy, Clone)]
pub enum ClientItemLocation {
    Unspecified,
    Left,
    Right,
}

/// A card, as the protocol names it: the code of its owner's [PlayerSide] and its index.
#[derive(PartialEq, Eq, Structural, Hash, Debug, Copy, Clone)]
pub struct CardIdentifier {
    pub side: i32,
    pub index: u32,
    /// Optionally, identifies a specific ability within a logical card which is represented by
    /// this displayed card.
    pub ability_id: Option<u32>,
}

impl CardIdentifier {
    /// The side that [CardIdentifier::side] encodes.
    pub fn side(&self) -> (result: PlayerSide)
        ensures
            result == PlayerSide::spec_from_code(self.side),
    {
        PlayerSide::from_code(self.side)
    }
}

} // verus!
