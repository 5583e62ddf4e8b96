//! Building blocks for card definitions and abilities.
use vstd::prelude::*;

use crate::card_definition::{AttackBoost, CardStats, Cost, NumericOperator, TextToken};
use crate::card_state::{CardData, CardPosition, CardStateView};
use crate::delegates::Scope;
use crate::game::{ids_in_kind, GameState};
use crate::card_state::CardPositionTypes;
use crate::game_actions::CardPromptAction;
use crate::mana::{self, mana_fits, spec_get, ManaPurpose};
use crate::primitives::{
    AbilityId, ActionCount, AttackValue, CardId, HealthValue, ManaValue, RoomId, Side,
};

verus! {

/// A number shown with a plus sign.
pub fn add_number(number: u32) -> (result: TextToken)
    ensures
        result == TextToken::Number(NumericOperator::Add, number),
{
    TextToken::Number(NumericOperator::Add, number)
}

/// An amount of mana in rules text.
pub fn mana_text(value: ManaValue) -> (result: TextToken)
    ensures
        result == TextToken::Mana(value),
{
    TextToken::Mana(value)
}

/// A cost of `mana` mana and one action point.
pub fn cost(mana: ManaValue) -> (result: Cost)
    ensures
        result == (Cost { mana, actions: 1 }),
{
    Cost { mana, actions: 1 }
}

/// Stats of a card with only a base attack.
pub fn base_attack(attack_value: AttackValue) -> (result: CardStats)
    ensures
        result == (CardStats {
            health: None,
            shield: None,
            base_attack: Some(attack_value),
            attack_boost: None,
            store_mana: None,
            can_level_up: false,
            scheme_points: None,
        }),
{
    CardStats { base_attack: Some(attack_value), ..CardStats::default() }
}

/// Stats of a card with a base attack and an attack boost.
pub fn attack(base_attack: AttackValue, boost: AttackBoost) -> (result: CardStats)
    ensures
        result == (CardStats {
            health: None,
            shield: None,
            base_attack: Some(base_attack),
            attack_boost: Some(boost),
            store_mana: None,
            can_level_up: false,
            scheme_points: None,
        }),
{
    CardStats { base_attack: Some(base_attack), attack_boost: Some(boost), ..CardStats::default() }
}

/// Stats of a card with only a health value.
pub fn health(health_value: HealthValue) -> (result: CardStats)
    ensures
        result == (CardStats {
            health: Some(health_value),
            shield: None,
            base_attack: None,
            attack_boost: None,
            store_mana: None,
            can_level_up: false,
            scheme_points: None,
        }),
{
    CardStats { health: Some(health_value), ..CardStats::default() }
}

/// A requirement that always holds.
pub fn always(game: &GameState, scope: Scope) -> (result: bool)
    ensures
        result,
{
    true
}

/// The card that owns `scope` is face up and in play.
pub fn face_up_in_play(game: &GameState, scope: Scope) -> (result: bool)
    requires
        game@.has_card(scope.spec_ability_id().card_id),
    ensures
        result == (game@.card(scope.spec_ability_id().card_id).face_up
            && game@.card(scope.spec_ability_id().card_id).position.spec_in_play()),
{
    let card = game.card(scope.card_id());
    card.is_face_up() && card.position().in_play()
}

/// The card that owns `scope` is face down and in play.
pub fn face_down_in_play(game: &GameState, scope: Scope) -> (result: bool)
    requires
        game@.has_card(scope.spec_ability_id().card_id),
    ensures
        result == (!game@.card(scope.spec_ability_id().card_id).face_up
            && game@.card(scope.spec_ability_id().card_id).position.spec_in_play()),
{
    let card = game.card(scope.card_id());
    card.is_face_down() && card.position().in_play()
}

/// The card that owns `scope` is in its owner's score pile.
pub fn scored_by_owner(game: &GameState, scope: Scope) -> (result: bool)
    requires
        game@.has_card(scope.spec_ability_id().card_id),
    ensures
        result == (game@.card(scope.spec_ability_id().card_id).position == CardPosition::Scored(
            scope.spec_ability_id().card_id.side,
        )),
{
    game.card(scope.card_id()).position() == CardPosition::Scored(scope.side())
}

/// The event concerns the card that owns `scope`.
pub fn this_card(game: &GameState, scope: Scope, card_id: CardId) -> (result: bool)
    ensures
        result == (scope.spec_ability_id().card_id == card_id),
{
    scope.card_id() == card_id
}

/// The event concerns the ability that `scope` names.
pub fn this_ability(game: &GameState, scope: Scope, ability_id: AbilityId) -> (result: bool)
    ensures
        result == (scope.spec_ability_id() == ability_id),
{
    scope.ability_id() == ability_id
}

/// The treasury, sanctum and crypts are inner rooms.
pub fn is_inner_room(room_id: RoomId) -> (result: bool)
    ensures
        result == room_id.spec_is_inner_room(),
{
    room_id == RoomId::Treasury || room_id == RoomId::Sanctum || room_id == RoomId::Crypts
}

/// Adds `amount` to the mana stored on a card and returns the new amount stored.
pub fn add_stored_mana(game: &mut GameState, card_id: CardId, amount: ManaValue) -> (result: ManaValue)
    requires
        old(game)@.has_card(card_id),
        old(game)@.card(card_id).data.stored_mana + amount <= u32::MAX,
    ensures
        result == old(game)@.card(card_id).data.stored_mana + amount,
        final(game)@.has_card(card_id),
        final(game)@.card(card_id) == (CardStateView {
            data: CardData { stored_mana: result, ..old(game)@.card(card_id).data },
            data_modified: true,
            ..old(game)@.card(card_id)
        }),
        final(game)@ == old(game)@.with_card(card_id, final(game)@.cards(card_id.side)[card_id.index as int]),
{
    let data = game.card_mut(card_id).data_mut();
    data.stored_mana = data.stored_mana + amount;
    game.card(card_id).data().stored_mana
}

/// Offers `side` to lose `amount` mana, if that player has that much to pay with.
pub fn lose_mana_prompt(game: &GameState, side: Side, amount: ManaValue) -> (result: Option<CardPromptAction>)
    requires
        mana_fits(game@, side),
    ensures
        result == if spec_get(game@, side, ManaPurpose::PayForTriggeredAbility) >= amount {
            Some(CardPromptAction::LoseMana(side, amount))
        } else {
            None
        },
{
    if mana::get(game, side, ManaPurpose::PayForTriggeredAbility) >= amount {
        Some(CardPromptAction::LoseMana(side, amount))
    } else {
        None
    }
}

/// Offers `side` to lose `amount` action points, if that player has that many.
pub fn lose_actions_prompt(game: &GameState, side: Side, amount: ActionCount) -> (result: Option<
    CardPromptAction,
>)
    ensures
        result == if game@.player(side).actions >= amount {
            Some(CardPromptAction::LoseActions(side, amount))
        } else {
            None
        },
{
    if game.player(side).actions >= amount {
        Some(CardPromptAction::LoseActions(side, amount))
    } else {
        None
    }
}

/// Offers the Champion to take `amount` damage from an ability, if the Champion holds at least
/// that many cards in hand.
pub fn take_damage_prompt(game: &GameState, ability_id: AbilityId, amount: u32) -> (result: Option<
    CardPromptAction,
>)
    ensures
        result == if ids_in_kind(game@.cards(Side::Champion), CardPositionTypes::Hand).len() >= amount {
            Some(CardPromptAction::TakeDamage(ability_id, amount))
        } else {
            None
        },
{
    if game.hand(Side::Champion).len() >= amount as usize {
        Some(CardPromptAction::TakeDamage(ability_id, amount))
    } else {
        None
    }
}

} // verus!
