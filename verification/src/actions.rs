//! The actions that players take, checked against the rules and carried out.
use vstd::prelude::*;

use crate::errors::RulesError;
use crate::card_definition::CardStats;
use crate::flags::{
    can_take_level_up_room_action, spec_can_take_level_up_room_action,
    can_make_mulligan_decision, can_take_draw_card_action, can_take_gain_mana_action,
    spec_can_make_mulligan_decision, spec_can_take_draw_card_action,
};
use crate::mana;
use crate::card_state::CardPositionTypes;
use crate::game::{
    defender_ids, occupant_ids, ids_in_kind, GameData, GamePhase, GameState, GameStateView, MulliganData, MulliganDecision,
    PlayerState,
};
use crate::mutations::{
    check_end_turn, check_start_game, clear_prompt, level_up_room, points_of, room_leveled, room_schemes, draw_cards, drew, end_turn_checked, next_turn_number,
    shuffle_into_deck, shuffles_applied, spend_action_points, spent_actions, start_checked,
    start_events, start_updates,
    turn_ends, OPENING_HAND_SIZE,
};
use crate::queries::{in_main_phase, spec_in_main_phase};
use crate::mana::ManaPurpose;
use crate::primitives::{ActionCount, CardId, RoomId, Side};
use crate::game_actions::PromptAction;

verus! {

/// `game` with the mulligan decision of `side` recorded.
pub open spec fn decision_recorded(game: GameStateView, side: Side, decision: MulliganDecision) -> GameStateView {
    let mulligans = game.data.phase->ResolveMulligans_0;
    let recorded = match side {
        Side::Overlord => MulliganData { overlord: Some(decision), ..mulligans },
        Side::Champion => MulliganData { champion: Some(decision), ..mulligans },
    };
    GameStateView {
        modified: true,
        data: GameData { phase: GamePhase::ResolveMulligans(recorded), ..game.data },
        ..game
    }
}

/// `side` keeps its opening hand, or shuffles it back and draws a new one; the game starts once
/// both players have decided, the Overlord then having `overlord_actions` action points for its
/// first turn. Returns the card that the Overlord drew to start its turn, when the game started.
pub fn handle_mulligan_decision(
    game: &mut GameState,
    user_side: Side,
    decision: MulliganDecision,
    overlord_actions: ActionCount,
) -> (result: Result<Option<Vec<CardId>>, RulesError>)
    requires
        old(game)@.ids_consistent(),
    ensures
        !spec_can_make_mulligan_decision(old(game)@, user_side) ==> result == Err::<Option<Vec<CardId>>, RulesError>(
            RulesError::IllegalAction,
        ) && final(game)@ == old(game)@,
        spec_can_make_mulligan_decision(old(game)@, user_side) ==> result is Ok && exists|
            decided: GameStateView,
        |
            #![trigger start_checked(decided, final(game)@, overlord_actions, result->Ok_0)]
            {
                let recorded = decision_recorded(old(game)@, user_side, decision);
                let hand = ids_in_kind(old(game)@.cards(user_side), CardPositionTypes::Hand);
                &&& decision == MulliganDecision::Keep ==> decided == recorded
                &&& decision == MulliganDecision::Mulligan ==> exists|shuffled: GameStateView, new_hand: Seq<CardId>|
                    #![trigger drew(shuffled, decided, user_side, OPENING_HAND_SIZE, new_hand)]
                    shuffles_applied(recorded, shuffled, user_side, hand) && drew(
                        shuffled,
                        decided,
                        user_side,
                        OPENING_HAND_SIZE,
                        new_hand,
                    )
                &&& start_checked(decided, final(game)@, overlord_actions, result->Ok_0)
            },
        final(game)@.ids_consistent(),
{
    if !can_make_mulligan_decision(game, user_side) {
        return Err(RulesError::IllegalAction);
    }
    let mulligans = match game.data().phase {
        GamePhase::ResolveMulligans(mulligans) => mulligans,
        _ => return Err(RulesError::IllegalAction),
    };
    let recorded = match user_side {
        Side::Overlord => MulliganData { overlord: Some(decision), ..mulligans },
        Side::Champion => MulliganData { champion: Some(decision), ..mulligans },
    };
    game.data_mut().phase = GamePhase::ResolveMulligans(recorded);
    assert(game@ == decision_recorded(old(game)@, user_side, decision));
    assert(game@.cards(Side::Overlord) == old(game)@.cards(Side::Overlord));
    assert(game@.cards(Side::Champion) == old(game)@.cards(Side::Champion));
    let ghost recorded_view = game@;

    let hand = game.hand(user_side);
    proof {
        game.lemma_card_lists_fit();
        let cards = game@.cards(user_side);
        assert forall|i: int| 0 <= i < cards.len() implies (#[trigger] cards[i])@.id == (CardId {
            side: user_side,
            index: i as usize,
        }) by {}
        crate::game::lemma_ids_in_kind(cards, user_side, CardPositionTypes::Hand);
        assert forall|k: int| 0 <= k < hand@.len() implies game@.has_card(#[trigger] hand@[k]) by {
            assert(hand@[k] == ids_in_kind(cards, CardPositionTypes::Hand)[k]);
        }
    }
    match decision {
        MulliganDecision::Keep => {},
        MulliganDecision::Mulligan => {
            shuffle_into_deck(game, user_side, &hand);
            let ghost shuffled = game@;
            let new_hand = draw_cards(game, user_side, OPENING_HAND_SIZE);
            assert(shuffles_applied(recorded_view, shuffled, user_side, hand@));
            assert(drew(shuffled, game@, user_side, OPENING_HAND_SIZE, new_hand@));
            assert(exists|sh: GameStateView, nh: Seq<CardId>|
                #![trigger drew(sh, game@, user_side, OPENING_HAND_SIZE, nh)]
                shuffles_applied(recorded_view, sh, user_side, hand@) && drew(sh, game@, user_side, OPENING_HAND_SIZE, nh));
        },
    }
    let ghost decided = game@;
    assert(hand@ == ids_in_kind(old(game)@.cards(user_side), CardPositionTypes::Hand));
    assert(decision == MulliganDecision::Keep ==> decided == recorded_view);
    let started = check_start_game(game, overlord_actions);
    assert(start_checked(decided, game@, overlord_actions, started));
    let result: Result<Option<Vec<CardId>>, RulesError> = Ok(started);
    assert({
        let recorded = decision_recorded(old(game)@, user_side, decision);
        let hand = ids_in_kind(old(game)@.cards(user_side), CardPositionTypes::Hand);
        &&& decision == MulliganDecision::Keep ==> decided == recorded
        &&& decision == MulliganDecision::Mulligan ==> exists|shuffled: GameStateView, new_hand: Seq<CardId>|
            #![trigger drew(shuffled, decided, user_side, OPENING_HAND_SIZE, new_hand)]
            shuffles_applied(recorded, shuffled, user_side, hand) && drew(
                shuffled,
                decided,
                user_side,
                OPENING_HAND_SIZE,
                new_hand,
            )
        &&& start_checked(decided, game@, overlord_actions, result->Ok_0)
    });
    result
}

/// `side` spends an action point for nothing, which may end its turn; the opponent then starts
/// its turn with `next_actions` action points. Returns the card that the opponent drew, when its
/// turn started.
pub fn spend_action_point_action(game: &mut GameState, user_side: Side, next_actions: ActionCount) -> (result:
    Result<Option<Vec<CardId>>, RulesError>)
    requires
        old(game)@.ids_consistent(),
        turn_ends(spent_actions(old(game)@, user_side, 1), user_side) ==> next_turn_number(
            spent_actions(old(game)@, user_side, 1),
            user_side,
        ) <= u32::MAX,
    ensures
        !spec_in_main_phase(old(game)@, user_side) ==> result == Err::<Option<Vec<CardId>>, RulesError>(
            RulesError::IllegalAction,
        ) && final(game)@ == old(game)@,
        spec_in_main_phase(old(game)@, user_side) ==> result is Ok && end_turn_checked(
            spent_actions(old(game)@, user_side, 1),
            final(game)@,
            user_side,
            next_actions,
            result->Ok_0,
        ),
        spec_in_main_phase(old(game)@, user_side) && !turn_ends(spent_actions(old(game)@, user_side, 1), user_side)
            ==> final(game).update_log() == old(game).update_log() && final(game).event_log() == old(
            game,
        ).event_log(),
        spec_in_main_phase(old(game)@, user_side) && turn_ends(spent_actions(old(game)@, user_side, 1), user_side)
            ==> {
            &&& final(game).update_log() == old(game).update_log() + start_updates(
                old(game)@,
                user_side.spec_opponent(),
                result->Ok_0->0@,
            )
            &&& final(game).event_log() == old(game).event_log() + start_events(
                old(game)@,
                user_side.spec_opponent(),
                next_turn_number(spent_actions(old(game)@, user_side, 1), user_side) as u32,
                result->Ok_0->0@,
            )
        },
        final(game)@.ids_consistent(),
{
    if !in_main_phase(game, user_side) {
        return Err(RulesError::IllegalAction);
    }
    spend_action_points(game, user_side, 1);
    assert(game@.cards(Side::Overlord) == old(game)@.cards(Side::Overlord));
    assert(game@.cards(Side::Champion) == old(game)@.cards(Side::Champion));
    Ok(check_end_turn(game, user_side, next_actions))
}

/// `game` once `side` has gained `amount` mana.
pub open spec fn mana_gained(game: GameStateView, side: Side, amount: u32) -> GameStateView {
    (GameStateView { modified: true, ..game }).with_player(
        side,
        PlayerState { mana: (game.player(side).mana + amount) as u32, ..game.player(side) },
    )
}

/// `side` spends an action point to gain a mana, which may end its turn; the opponent then starts
/// its turn with `next_actions` action points. Returns the card that the opponent drew, when its
/// turn started.
pub fn gain_mana_action(game: &mut GameState, user_side: Side, next_actions: ActionCount) -> (result: Result<
    Option<Vec<CardId>>,
    RulesError,
>)
    requires
        old(game)@.ids_consistent(),
        spec_in_main_phase(old(game)@, user_side) ==> old(game)@.player(user_side).mana < u32::MAX,
        turn_ends(mana_gained(spent_actions(old(game)@, user_side, 1), user_side, 1), user_side)
            ==> next_turn_number(old(game)@, user_side) <= u32::MAX,
    ensures
        !spec_in_main_phase(old(game)@, user_side) ==> result == Err::<Option<Vec<CardId>>, RulesError>(
            RulesError::IllegalAction,
        ) && final(game)@ == old(game)@,
        spec_in_main_phase(old(game)@, user_side) ==> result is Ok && end_turn_checked(
            mana_gained(spent_actions(old(game)@, user_side, 1), user_side, 1),
            final(game)@,
            user_side,
            next_actions,
            result->Ok_0,
        ),
        final(game)@.ids_consistent(),
{
    if !can_take_gain_mana_action(game, user_side) {
        return Err(RulesError::IllegalAction);
    }
    spend_action_points(game, user_side, 1);
    mana::gain(game, user_side, 1);
    assert(game@ == mana_gained(spent_actions(old(game)@, user_side, 1), user_side, 1));
    assert(game@.cards(Side::Overlord) == old(game)@.cards(Side::Overlord));
    assert(game@.cards(Side::Champion) == old(game)@.cards(Side::Champion));
    Ok(check_end_turn(game, user_side, next_actions))
}

/// `side` spends an action point to draw a card, which may end its turn; the opponent then starts
/// its turn with `next_actions` action points. Returns the card that the opponent drew, when its
/// turn started.
pub fn draw_card_action(game: &mut GameState, user_side: Side, next_actions: ActionCount) -> (result: Result<
    Option<Vec<CardId>>,
    RulesError,
>)
    requires
        old(game)@.ids_consistent(),
        turn_ends(spent_actions(old(game)@, user_side, 1), user_side) ==> next_turn_number(old(game)@, user_side)
            <= u32::MAX,
    ensures
        !spec_can_take_draw_card_action(old(game)@, user_side) ==> result == Err::<
            Option<Vec<CardId>>,
            RulesError,
        >(RulesError::IllegalAction) && final(game)@ == old(game)@,
        spec_can_take_draw_card_action(old(game)@, user_side) ==> result is Ok && exists|
            drawn_game: GameStateView,
            drawn: Seq<CardId>,
        |
            #![trigger drew(spent_actions(old(game)@, user_side, 1), drawn_game, user_side, 1, drawn)]
            drew(spent_actions(old(game)@, user_side, 1), drawn_game, user_side, 1, drawn) && end_turn_checked(
                drawn_game,
                final(game)@,
                user_side,
                next_actions,
                result->Ok_0,
            ),
        final(game)@.ids_consistent(),
{
    if !can_take_draw_card_action(game, user_side) {
        return Err(RulesError::IllegalAction);
    }
    spend_action_points(game, user_side, 1);
    assert(game@.cards(Side::Overlord) == old(game)@.cards(Side::Overlord));
    assert(game@.cards(Side::Champion) == old(game)@.cards(Side::Champion));
    let ghost spent = game@;
    let drawn = draw_cards(game, user_side, 1);
    let ghost drawn_game = game@;
    assert(drew(spent, drawn_game, user_side, 1, drawn@));
    assert(drawn_game.data == spent.data);
    assert(drawn_game.player(user_side) == spent.player(user_side));
    let result = check_end_turn(game, user_side, next_actions);
    assert(end_turn_checked(drawn_game, game@, user_side, next_actions, result));
    Ok(result)
}


/// Whether `action` is one of the responses of the prompt shown to `side`.
pub open spec fn answers_prompt(game: GameStateView, side: Side, action: PromptAction) -> bool {
    game.player(side).prompt matches Some(prompt) && prompt.responses@.contains(action)
}

/// Whether `action` is among `responses`.
fn is_offered(responses: &Vec<PromptAction>, action: PromptAction) -> (result: bool)
    ensures
        result == responses@.contains(action),
{
    let mut i: usize = 0;
    while i < responses.len()
        invariant
            i <= responses.len(),
            forall|j: int| 0 <= j < i ==> responses@[j] != action,
        decreases responses.len() - i,
    {
        if responses[i] == action {
            assert(responses@[i as int] == action);
            return true;
        }
        i += 1;
    }
    proof {
        if responses@.contains(action) {
            let j = choose|j: int| 0 <= j < responses@.len() && responses@[j] == action;
            assert(responses@[j] != action);
        }
    }
    false
}

/// `side` answers the prompt it was shown with `action`, which withdraws the prompt. Fails with
/// [RulesError::IllegalAction], changing nothing, where `side` was shown no prompt or `action` is
/// not one of its responses.
pub fn take_prompt_response(game: &mut GameState, user_side: Side, action: PromptAction) -> (result: Result<
    (),
    RulesError,
>)
    ensures
        result is Ok <==> answers_prompt(old(game)@, user_side, action),
        !answers_prompt(old(game)@, user_side, action) ==> result == Err::<(), RulesError>(
            RulesError::IllegalAction,
        ) && final(game)@ == old(game)@,
        answers_prompt(old(game)@, user_side, action) ==> final(game)@ == (GameStateView {
            modified: true,
            ..old(game)@
        }).with_player(user_side, PlayerState { prompt: None, ..old(game)@.player(user_side) }),
        final(game).update_log() == old(game).update_log(),
        final(game).event_log() == old(game).event_log(),
{
    let offered = match &game.player(user_side).prompt {
        Some(prompt) => is_offered(&prompt.responses, action),
        None => false,
    };
    if !offered {
        return Err(RulesError::IllegalAction);
    }
    clear_prompt(game, user_side);
    Ok(())
}

/// `game` once `side` has spent an action point and a mana to level up a room.
pub open spec fn level_up_paid(game: GameStateView, side: Side) -> GameStateView {
    let spent = spent_actions(game, side, 1);
    (GameStateView { modified: true, ..spent }).with_player(side, mana::spent_player(spent, side, 1))
}

/// The Overlord spends an action point and a mana to level up the room `room_id`
/// (`room_stats` giving the stats of each card in it, its occupants first, then its
/// defenders; see [level_up_room]), which may end its turn; the Champion then starts its turn
/// with `next_actions` action points. Returns the card that the Champion drew, when its turn
/// started.
pub fn level_up_room_action(
    game: &mut GameState,
    user_side: Side,
    room_id: RoomId,
    room_stats: &Vec<CardStats>,
    next_actions: ActionCount,
) -> (result: Result<Option<Vec<CardId>>, RulesError>)
    requires
        old(game)@.ids_consistent(),
        room_stats.len() == occupant_ids(old(game)@.overlord_cards, room_id).len() + defender_ids(
            old(game)@.overlord_cards,
            room_id,
        ).len(),
        forall|k: int|
            0 <= k < occupant_ids(old(game)@.overlord_cards, room_id).len() && (#[trigger] room_stats@[k]).can_level_up
                ==> old(game)@.card(occupant_ids(old(game)@.overlord_cards, room_id)[k]).data.card_level < u32::MAX,
        old(game)@.overlord.score + points_of(
            room_schemes(
                old(game)@,
                room_id,
                room_stats@.subrange(0, occupant_ids(old(game)@.overlord_cards, room_id).len() as int),
            ),
        ) <= u32::MAX,
    ensures
        !spec_can_take_level_up_room_action(old(game)@, user_side, room_stats@) ==> result == Err::<
            Option<Vec<CardId>>,
            RulesError,
        >(RulesError::IllegalAction) && final(game)@ == old(game)@,
        spec_can_take_level_up_room_action(old(game)@, user_side, room_stats@) ==> result is Ok && exists|
            leveled: GameStateView,
        |
            #![trigger room_leveled(level_up_paid(old(game)@, user_side), leveled, room_id, room_stats@.subrange(0, occupant_ids(old(game)@.overlord_cards, room_id).len() as int))]
            room_leveled(
                level_up_paid(old(game)@, user_side),
                leveled,
                room_id,
                room_stats@.subrange(0, occupant_ids(old(game)@.overlord_cards, room_id).len() as int),
            ) && end_turn_checked(leveled, final(game)@, user_side, next_actions, result->Ok_0),
        final(game)@.ids_consistent(),
{
    if !can_take_level_up_room_action(game, user_side, room_id, room_stats) {
        return Err(RulesError::IllegalAction);
    }
    spend_action_points(game, user_side, 1);
    let ghost spent = game@;
    let paid = mana::spend(game, user_side, ManaPurpose::LevelUpRoom(room_id), 1);
    if paid.is_err() {
        return Err(RulesError::InsufficientMana);
    }
    let ghost paid_game = game@;
    assert(paid_game == level_up_paid(old(game)@, user_side));
    assert(paid_game.overlord_cards == old(game)@.overlord_cards);
    let occupant_count = game.occupants(room_id).len();
    let mut occupant_stats: Vec<CardStats> = Vec::new();
    let mut i: usize = 0;
    while i < occupant_count
        invariant
            i <= occupant_count,
            occupant_count <= room_stats.len(),
            occupant_stats@ == room_stats@.subrange(0, i as int),
        decreases occupant_count - i,
    {
        occupant_stats.push(room_stats[i]);
        assert(occupant_stats@ =~= room_stats@.subrange(0, i + 1));
        i += 1;
    }
    level_up_room(game, room_id, &occupant_stats);
    let ghost leveled = game@;
    assert(leveled.data.turn == old(game)@.data.turn);
    assert(leveled.data.turn_number == old(game)@.data.turn_number);
    let result = check_end_turn(game, user_side, next_actions);
    assert(room_leveled(
        level_up_paid(old(game)@, user_side),
        leveled,
        room_id,
        room_stats@.subrange(0, occupant_ids(old(game)@.overlord_cards, room_id).len() as int),
    ));
    Ok(result)
}

} // verus!
