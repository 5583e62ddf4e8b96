//! Conversions between the game's identifiers and the protocol's.
use vstd::prelude::*;

use crate::errors::RulesError;
use crate::primitives::{CardId, RoomId, Side};
use crate::protos::{CardIdentifier, PlayerName, PlayerSide, RoomIdentifier};

verus! {

/// How the client of `user_side` names the player `side`.
pub fn to_player_name(side: Side, user_side: Side) -> (result: PlayerName)
    ensures
        result == if side == user_side {
            PlayerName::User
        } else {
            PlayerName::Opponent
        },
{
    if side == user_side {
        PlayerName::User
    } else {
        PlayerName::Opponent
    }
}

pub open spec fn spec_adapt_side(side: Side) -> PlayerSide {
    match side {
        Side::Overlord => PlayerSide::Overlord,
        Side::Champion => PlayerSide::Champion,
    }
}

pub fn adapt_side(side: Side) -> (result: PlayerSide)
    ensures
        result == spec_adapt_side(side),
{
    match side {
        Side::Overlord => PlayerSide::Overlord,
        Side::Champion => PlayerSide::Champion,
    }
}

/// The side that the protocol names; an absent or unspecified side is refused.
pub fn to_server_side(side: Option<PlayerSide>) -> (result: Result<Side, RulesError>)
    ensures
        side == Some(PlayerSide::Overlord) ==> result == Ok::<Side, RulesError>(Side::Overlord),
        side == Some(PlayerSide::Champion) ==> result == Ok::<Side, RulesError>(Side::Champion),
        side != Some(PlayerSide::Overlord) && side != Some(PlayerSide::Champion) ==> result == Err::<
            Side,
            RulesError,
        >(RulesError::IllegalAction),
{
    match side {
        Some(PlayerSide::Overlord) => Ok(Side::Overlord),
        Some(PlayerSide::Champion) => Ok(Side::Champion),
        _ => Err(RulesError::IllegalAction),
    }
}

pub open spec fn spec_adapt_card_id(card_id: CardId) -> CardIdentifier {
    CardIdentifier {
        side: spec_adapt_side(card_id.side).spec_code(),
        index: card_id.index as u32,
        ability_id: None,
    }
}

/// How the protocol names a card.
pub fn adapt_card_id(card_id: CardId) -> (result: CardIdentifier)
    ensures
        result == spec_adapt_card_id(card_id),
{
    CardIdentifier {
        side: adapt_side(card_id.side).code(),
        index: card_id.index as u32,
        ability_id: None,
    }
}

pub open spec fn spec_adapt_room_id(room_id: RoomId) -> RoomIdentifier {
    match room_id {
        RoomId::Treasury => RoomIdentifier::Vault,
        RoomId::Sanctum => RoomIdentifier::Sanctum,
        RoomId::Crypts => RoomIdentifier::Crypts,
        RoomId::RoomA => RoomIdentifier::RoomA,
        RoomId::RoomB => RoomIdentifier::RoomB,
        RoomId::RoomC => RoomIdentifier::RoomC,
        RoomId::RoomD => RoomIdentifier::RoomD,
        RoomId::RoomE => RoomIdentifier::RoomE,
    }
}

/// How the protocol names a room.
pub fn adapt_room_id(room_id: RoomId) -> (result: RoomIdentifier)
    ensures
        result == spec_adapt_room_id(room_id),
{
    match room_id {
        RoomId::Treasury => RoomIdentifier::Vault,
        RoomId::Sanctum => RoomIdentifier::Sanctum,
        RoomId::Crypts => RoomIdentifier::Crypts,
        RoomId::RoomA => RoomIdentifier::RoomA,
        RoomId::RoomB => RoomIdentifier::RoomB,
        RoomId::RoomC => RoomIdentifier::RoomC,
        RoomId::RoomD => RoomIdentifier::RoomD,
        RoomId::RoomE => RoomIdentifier::RoomE,
    }
}

/// The card that the protocol names: refused when the identifier is absent or its side is not a
/// player's side.
pub open spec fn spec_to_server_card_id(card_id: Option<CardIdentifier>) -> Result<CardId, RulesError> {
    match card_id {
        Some(id) => match PlayerSide::spec_from_code(id.side) {
            PlayerSide::Overlord => Ok(CardId { side: Side::Overlord, index: id.index as usize }),
            PlayerSide::Champion => Ok(CardId { side: Side::Champion, index: id.index as usize }),
            PlayerSide::Unspecified => Err(RulesError::CardNotFound),
        },
        None => Err(RulesError::CardNotFound),
    }
}

pub fn to_server_card_id(card_id: &Option<CardIdentifier>) -> (result: Result<CardId, RulesError>)
    ensures
        result == spec_to_server_card_id(*card_id),
{
    match card_id {
        Some(id) => {
            let side = match id.side() {
                PlayerSide::Overlord => Side::Overlord,
                PlayerSide::Champion => Side::Champion,
                PlayerSide::Unspecified => return Err(RulesError::CardNotFound),
            };
            Ok(CardId { side, index: id.index as usize })
        },
        None => Err(RulesError::CardNotFound),
    }
}

} // verus!
