//! Whether a player may take an action now.
use vstd::prelude::*;

use crate::card_state::CardPositionTypes;
use crate::card_definition::CardStats;
use crate::game::{defender_ids, ids_in_kind, occupant_ids, GamePhase, GameState, GameStateView, RaidPhase};
use crate::queries::{in_main_phase, spec_in_main_phase};
use crate::primitives::{CardId, CardType, RoomId, Side};

verus! {

/// `side` is still to decide whether to keep their opening hand.
pub open spec fn spec_can_make_mulligan_decision(game: GameStateView, side: Side) -> bool {
    game.data.phase matches GamePhase::ResolveMulligans(mulligan) && mulligan.spec_decision(side) is None
}

pub fn can_make_mulligan_decision(game: &GameState, side: Side) -> (result: bool)
    ensures
        result == spec_can_make_mulligan_decision(game@, side),
{
    match game.data().phase {
        GamePhase::ResolveMulligans(mulligan) => mulligan.decision(side).is_none(),
        _ => false,
    }
}

/// Whether a card of this type is turned face up when it is played.
pub open spec fn spec_enters_play_face_up(card_type: CardType) -> bool {
    card_type == CardType::Spell || card_type == CardType::Weapon || card_type == CardType::Identity
}

/// Whether a card of type `card_type` (the type that its definition gives) enters play face up.
pub fn enters_play_face_up(card_type: CardType) -> (result: bool)
    ensures
        result == spec_enters_play_face_up(card_type),
{
    match card_type {
        CardType::Spell | CardType::Weapon | CardType::Identity => true,
        _ => false,
    }
}

/// Some defender of the raided room is face down.
pub open spec fn has_face_down_defender(game: GameStateView) -> bool {
    let defenders = defender_ids(game.overlord_cards, game.data.raid->0.target);
    exists|i: int| 0 <= i < defenders.len() && !game.card(#[trigger] defenders[i]).face_up
}

/// The Overlord may decide whether to activate the raided room.
pub open spec fn spec_can_take_room_activation_action(game: GameStateView, side: Side) -> bool {
    &&& side == Side::Overlord
    &&& game.data.raid is Some
    &&& game.data.raid->0.phase == RaidPhase::Activation
    &&& has_face_down_defender(game)
}

/// Whether `side` may now decide whether to activate the raided room.
pub fn can_take_room_activation_action(game: &GameState, side: Side) -> (result: bool)
    requires
        game@.ids_consistent(),
    ensures
        result == spec_can_take_room_activation_action(game@, side),
{
    if side != Side::Overlord {
        return false;
    }
    let target = match game.data().raid {
        Some(raid) => {
            if raid.phase != RaidPhase::Activation {
                return false;
            }
            raid.target
        },
        None => return false,
    };
    let defenders = game.defender_list(target);
    proof {
        crate::game::lemma_defender_ids_valid(game@, target);
    }
    let mut index: usize = 0;
    while index < defenders.len()
        invariant
            index <= defenders.len(),
            defenders@ == defender_ids(game@.overlord_cards, target),
            game@.data.raid is Some && game@.data.raid->0.target == target,
            game@.data.raid->0.phase == RaidPhase::Activation,
            side == Side::Overlord,
            forall|i: int| 0 <= i < defenders.len() ==> game@.has_card(#[trigger] defenders@[i]),
            forall|i: int| 0 <= i < index ==> game@.card(#[trigger] defenders@[i]).face_up,
        decreases defenders.len() - index,
    {
        if game.card(defenders[index]).is_face_down() {
            assert(!game@.card(defenders@[index as int]).face_up);
            return true;
        }
        index += 1;
    }
    false
}

/// The Champion may decide whether to go on with the raid.
pub open spec fn spec_can_take_continue_action(game: GameStateView, side: Side) -> bool {
    &&& side == Side::Champion
    &&& game.data.raid is Some
    &&& game.data.raid->0.phase is Continue
}

pub fn can_take_continue_action(game: &GameState, side: Side) -> (result: bool)
    ensures
        result == spec_can_take_continue_action(game@, side),
{
    side == Side::Champion && match game.data().raid {
        Some(raid) => match raid.phase {
            RaidPhase::Continue(_) => true,
            _ => false,
        },
        None => false,
    }
}

/// Accessed cards cannot be destroyed.
pub fn can_destroy_accessed_card(game: &GameState, card_id: CardId) -> (result: bool)
    ensures
        !result,
{
    false
}

pub fn can_take_raid_destroy_card_action(game: &GameState, side: Side, card_id: CardId) -> (result: bool)
    ensures
        result,
{
    true
}

/// The Champion may end a raid once its cards are being accessed.
pub open spec fn spec_can_take_raid_end_action(game: GameStateView, side: Side) -> bool {
    &&& side == Side::Champion
    &&& game.data.raid is Some
    &&& game.data.raid->0.phase == RaidPhase::Access
}

pub fn can_take_raid_end_action(game: &GameState, side: Side) -> (result: bool)
    ensures
        result == spec_can_take_raid_end_action(game@, side),
{
    let raid = match game.data().raid {
        Some(r) => r,
        None => return false,
    };
    side == Side::Champion && raid.phase == RaidPhase::Access
}

/// The rules' own answer to whether `side` may gain a mana by spending an action point: it is a
/// main phase of that player.
pub fn can_take_gain_mana_action(game: &GameState, side: Side) -> (result: bool)
    ensures
        result == spec_in_main_phase(game@, side),
{
    in_main_phase(game, side)
}

/// `side` may draw a card by spending an action point: it is a main phase of that player, whose
/// deck is not empty.
pub open spec fn spec_can_take_draw_card_action(game: GameStateView, side: Side) -> bool {
    spec_in_main_phase(game, side) && ids_in_kind(game.cards(side), CardPositionTypes::Deck).len() > 0
}

/// The rules' own answer to whether `side` may draw a card by spending an action point.
pub fn can_take_draw_card_action(game: &GameState, side: Side) -> (result: bool)
    ensures
        result == spec_can_take_draw_card_action(game@, side),
{
    in_main_phase(game, side) && game.deck(side).len() > 0
}

/// The rules' own answer to whether the weapon `source` can defeat the minion it is matched
/// against: it can encounter it (`can_encounter`, the result of the can-encounter-target rule)
/// and its owner has the mana it costs to defeat it (`cost_to_defeat`, `None` when it cannot).
pub open spec fn spec_can_defeat_target(
    game: GameStateView,
    source: CardId,
    can_encounter: bool,
    cost_to_defeat: Option<u32>,
) -> bool {
    can_encounter && (cost_to_defeat matches Some(cost) && cost <= game.player(source.side).mana)
}

pub fn can_defeat_target(game: &GameState, source: CardId, can_encounter: bool, cost_to_defeat: Option<u32>) -> (result: bool)
    ensures
        result == spec_can_defeat_target(game@, source, can_encounter, cost_to_defeat),
{
    can_encounter && match cost_to_defeat {
        Some(cost) => cost <= game.player(source.side).mana,
        None => false,
    }
}

/// Whether one of `stats` lets its card level up.
pub open spec fn any_levels_up(stats: Seq<CardStats>) -> bool {
    exists|k: int| 0 <= k < stats.len() && (#[trigger] stats[k]).can_level_up
}

/// `side` may level up a room, `room_stats` giving the stats of each card in it: `side` is the
/// Overlord, in its main phase, with mana to spend, and one of those cards can level up.
pub open spec fn spec_can_take_level_up_room_action(game: GameStateView, side: Side, room_stats: Seq<CardStats>) -> bool {
    &&& any_levels_up(room_stats)
    &&& side == Side::Overlord
    &&& game.player(side).mana > 0
    &&& spec_in_main_phase(game, side)
}

/// The rules' own answer to whether `side` may level up the room `room_id`, `room_stats` giving
/// the stats of each card in it, its occupants first, then its defenders.
pub fn can_take_level_up_room_action(game: &GameState, side: Side, room_id: RoomId, room_stats: &Vec<CardStats>) -> (result:
    bool)
    requires
        room_stats.len() == occupant_ids(game@.overlord_cards, room_id).len() + defender_ids(
            game@.overlord_cards,
            room_id,
        ).len(),
    ensures
        result == spec_can_take_level_up_room_action(game@, side, room_stats@),
{
    let mut has_level_card = false;
    let mut i: usize = 0;
    while i < room_stats.len()
        invariant
            i <= room_stats.len(),
            has_level_card == any_levels_up(room_stats@.subrange(0, i as int)),
        decreases room_stats.len() - i,
    {
        proof {
            let now = room_stats@.subrange(0, i + 1);
            let done = room_stats@.subrange(0, i as int);
            if any_levels_up(done) {
                let k = choose|k: int| 0 <= k < done.len() && (#[trigger] done[k]).can_level_up;
                assert(now[k] == done[k]);
            }
            if any_levels_up(now) {
                let k = choose|k: int| 0 <= k < now.len() && (#[trigger] now[k]).can_level_up;
                if k < i {
                    assert(done[k] == now[k]);
                }
            }
            if room_stats@[i as int].can_level_up {
                assert(now[i as int] == room_stats@[i as int]);
            }
        }
        has_level_card = has_level_card || room_stats[i].can_level_up;
        i += 1;
    }
    assert(room_stats@.subrange(0, i as int) =~= room_stats@);
    has_level_card && side == Side::Overlord && game.player(side).mana > 0 && in_main_phase(game, side)
}

} // verus!
