//! The raid actions that players take, checked against the rules and carried out.
use vstd::prelude::*;

use crate::card_state::CardStateView;
use crate::errors::RulesError;
use crate::flags::{
    can_take_continue_action, spec_can_take_continue_action, can_take_raid_end_action, can_take_room_activation_action, spec_can_take_raid_end_action,
    spec_can_take_room_activation_action,
};
use crate::game::{occupant_ids, DelegateEvent, GameData, GameState, GameStateView, PlayerState, RaidPhase, RaidState};
use crate::game_actions::{ContinueAction, EncounterAction, RoomActivationAction};
use crate::mana::mana_fits;
use crate::mutations::{
    card_paid, end_raid, end_turn_checked, next_turn_number, raid_ended, set_prompt, start_events, start_updates,
    turn_ends, turn_face_up, unveil_card,
};
use crate::primitives::{ActionCount, CardId, CardType, ManaValue, Side};
use crate::raid::{can_summon_defender, raid_defenders, spec_can_summon, DefenderCost, RaidOutcome};
use crate::raid_phases::{
    access_responses, build_access_prompt, build_continue_prompt, build_encounter_prompt,
    continue_responses, encounter_responses, prompted_with,
};

verus! {

/// The Champion ends a raid once it has accessed the raided room: the raid succeeds. If the
/// Champion's turn is then over, the Overlord starts its turn with `next_actions` action points;
/// returns the card that the Overlord drew, when its turn started.
pub fn raid_end_action(game: &mut GameState, user_side: Side, next_actions: ActionCount) -> (result: Result<
    Option<Vec<CardId>>,
    RulesError,
>)
    requires
        old(game)@.ids_consistent(),
        turn_ends(raid_ended(old(game)@), Side::Champion) ==> next_turn_number(
            raid_ended(old(game)@),
            Side::Champion,
        ) <= u32::MAX,
    ensures
        !spec_can_take_raid_end_action(old(game)@, user_side) ==> result == Err::<
            Option<Vec<CardId>>,
            RulesError,
        >(RulesError::IllegalAction) && final(game)@ == old(game)@,
        spec_can_take_raid_end_action(old(game)@, user_side) ==> result is Ok && end_turn_checked(
            raid_ended(old(game)@),
            final(game)@,
            Side::Champion,
            next_actions,
            result->Ok_0,
        ),
        spec_can_take_raid_end_action(old(game)@, user_side) ==> ({
            let ended = old(game).event_log().push(
                DelegateEvent::RaidEnd(old(game)@.data.raid->0, RaidOutcome::Success),
            );
            if turn_ends(raid_ended(old(game)@), Side::Champion) {
                &&& final(game).update_log() == old(game).update_log() + start_updates(
                    old(game)@,
                    Side::Overlord,
                    result->Ok_0->0@,
                )
                &&& final(game).event_log() == ended + start_events(
                    old(game)@,
                    Side::Overlord,
                    next_turn_number(raid_ended(old(game)@), Side::Champion) as u32,
                    result->Ok_0->0@,
                )
            } else {
                &&& final(game).update_log() == old(game).update_log()
                &&& final(game).event_log() == ended
            }
        }),
        final(game)@.ids_consistent(),
{
    if !can_take_raid_end_action(game, user_side) {
        return Err(RulesError::IllegalAction);
    }
    Ok(end_raid(game, RaidOutcome::Success, next_actions))
}

/// `card` turned face up, which reveals it to both players.
pub open spec fn turned_up(card: CardStateView) -> CardStateView {
    CardStateView { face_up: true, revealed_to_overlord: true, revealed_to_champion: true, ..card }
}

/// `after` is `before` with each card of `ids` turned face up, and every other card unchanged.
pub open spec fn cards_turned_up(before: GameStateView, after: GameStateView, ids: Seq<CardId>) -> bool {
    &&& after.overlord_cards.len() == before.overlord_cards.len()
    &&& after.champion_cards.len() == before.champion_cards.len()
    &&& after == GameStateView {
        overlord_cards: after.overlord_cards,
        champion_cards: after.champion_cards,
        ..before
    }
    &&& forall|id: CardId|
        #[trigger] before.has_card(id) ==> after.card(id) == if ids.contains(id) {
            turned_up(before.card(id))
        } else {
            before.card(id)
        }
}

/// Turns each of `ids` face up.
fn turn_cards_face_up(game: &mut GameState, ids: &Vec<CardId>)
    requires
        forall|i: int| 0 <= i < ids.len() ==> old(game)@.has_card(#[trigger] ids@[i]),
        old(game)@.ids_consistent(),
    ensures
        cards_turned_up(old(game)@, final(game)@, ids@),
        final(game)@.ids_consistent(),
{
    let mut i: usize = 0;
    while i < ids.len()
        invariant
            i <= ids.len(),
            forall|k: int| 0 <= k < ids.len() ==> old(game)@.has_card(#[trigger] ids@[k]),
            old(game)@.ids_consistent(),
            cards_turned_up(old(game)@, game@, ids@.subrange(0, i as int)),
            game@.ids_consistent(),
        decreases ids.len() - i,
    {
        let card_id = ids[i];
        let ghost before = game@;
        turn_face_up(game, card_id);
        proof {
            let done = ids@.subrange(0, i as int);
            let now = ids@.subrange(0, i + 1);
            assert(now =~= done.push(card_id));
            assert forall|id: CardId| #[trigger] old(game)@.has_card(id) implies game@.card(id) == if now.contains(id) {
                turned_up(old(game)@.card(id))
            } else {
                old(game)@.card(id)
            } by {
                assert(before.has_card(id));
                if id == card_id {
                    assert(now.contains(id)) by { assert(now[i as int] == id); }
                    if done.contains(id) {
                        let k = choose|k: int| 0 <= k < done.len() && done[k] == id;
                        assert(now[k] == id);
                    }
                } else {
                    assert(game@.card(id) == before.card(id));
                    if now.contains(id) {
                        let k = choose|k: int| 0 <= k < now.len() && now[k] == id;
                        assert(k != i as int);
                        assert(done[k] == id);
                    }
                    if done.contains(id) {
                        let k = choose|k: int| 0 <= k < done.len() && done[k] == id;
                        assert(now[k] == id);
                    }
                }
            }
        }
        i += 1;
    }
    assert(ids@.subrange(0, i as int) =~= ids@);
}

/// The cards of `ids` whose type, in `types` at the same position, is a scheme.
pub open spec fn schemes_among(ids: Seq<CardId>, types: Seq<CardType>) -> Seq<CardId>
    decreases ids.len(),
{
    if ids.len() == 0 {
        Seq::empty()
    } else {
        let earlier = schemes_among(ids.drop_last(), types.subrange(0, ids.len() - 1));
        if types[ids.len() - 1] == CardType::Scheme {
            earlier.push(ids.last())
        } else {
            earlier
        }
    }
}

/// The cards of `ids` that are schemes, `types` giving the type of each.
fn schemes(ids: &Vec<CardId>, types: &Vec<CardType>) -> (result: Vec<CardId>)
    requires
        ids.len() == types.len(),
    ensures
        result@ == schemes_among(ids@, types@),
{
    let mut result: Vec<CardId> = Vec::new();
    let mut i: usize = 0;
    while i < ids.len()
        invariant
            i <= ids.len(),
            ids.len() == types.len(),
            result@ == schemes_among(ids@.subrange(0, i as int), types@.subrange(0, i as int)),
        decreases ids.len() - i,
    {
        assert(ids@.subrange(0, i + 1).drop_last() =~= ids@.subrange(0, i as int));
        assert(types@.subrange(0, i + 1).subrange(0, i as int) =~= types@.subrange(0, i as int));
        if types[i] == CardType::Scheme {
            result.push(ids[i]);
        }
        i += 1;
    }
    assert(ids@.subrange(0, i as int) =~= ids@);
    assert(types@.subrange(0, i as int) =~= types@);
    result
}

/// `game` with its raid in phase `phase`.
pub open spec fn in_raid_phase(game: GameStateView, phase: RaidPhase) -> GameStateView {
    GameStateView {
        modified: true,
        data: GameData { raid: Some(RaidState { phase, ..game.data.raid->0 }), ..game.data },
        ..game
    }
}

/// `after` is `before` once the raid has reached the access phase of an outer room: its
/// occupants turned face up, and the Champion asked to score one of the schemes among them (in
/// `occupant_types`, the type of each occupant) or to end the raid.
pub open spec fn access_initiated(before: GameStateView, after: GameStateView, occupant_types: Seq<CardType>) -> bool {
    let accessing = in_raid_phase(before, RaidPhase::Access);
    let occupants = occupant_ids(before.overlord_cards, before.data.raid->0.target);
    exists|revealed: GameStateView|
        #[trigger] cards_turned_up(accessing, revealed, occupants) && prompted_with(
            revealed,
            after,
            Side::Champion,
            None,
            access_responses(schemes_among(occupants, occupant_types)),
        )
}

/// Moves the raid, once its defenders are passed, to the access phase of its outer room.
fn initiate_access_phase(game: &mut GameState, occupant_types: &Vec<CardType>)
    requires
        old(game)@.ids_consistent(),
        old(game)@.data.raid is Some,
        !old(game)@.data.raid->0.target.spec_is_inner_room(),
        occupant_types.len() == occupant_ids(old(game)@.overlord_cards, old(game)@.data.raid->0.target).len(),
        old(game)@.player(Side::Champion).prompt is None,
    ensures
        access_initiated(old(game)@, final(game)@, occupant_types@),
        final(game)@.ids_consistent(),
{
    let raid = match game.data().raid {
        Some(raid) => raid,
        None => return,
    };
    game.data_mut().raid = Some(RaidState { phase: RaidPhase::Access, ..raid });
    let ghost accessing = game@;
    assert(accessing == in_raid_phase(old(game)@, RaidPhase::Access));
    let occupants = game.occupants(raid.target);
    proof {
        crate::game::lemma_occupant_ids_valid(game@, raid.target);
    }
    turn_cards_face_up(game, &occupants);
    let ghost revealed = game@;
    let scoreable = schemes(&occupants, occupant_types);
    let prompt = build_access_prompt(&scoreable);
    let ghost shown = prompt;
    set_prompt(game, Side::Champion, prompt);
    assert(game@.player(Side::Champion).prompt == Some(shown));
    assert(cards_turned_up(accessing, revealed, occupants@));
    assert(game@.cards(Side::Overlord) == revealed.cards(Side::Overlord));
    assert(game@.cards(Side::Champion) == revealed.cards(Side::Champion));
}

/// `after` is `before` with the card `card_id` turned face up, and nothing else changed.
pub open spec fn summoned(before: GameStateView, after: GameStateView, card_id: CardId) -> bool {
    &&& after.has_card(card_id)
    &&& after.card(card_id) == turned_up(before.card(card_id))
    &&& after == before.with_card(card_id, after.cards(card_id.side)[card_id.index as int])
}

/// `game` once the Overlord has decided on activating the raided room (`action`) and paid
/// `cost` to summon the last defender, which the raid now encounters.
pub open spec fn room_activated(game: GameStateView, action: RoomActivationAction, cost: ManaValue) -> GameStateView {
    let raid = game.data.raid->0;
    let last = (raid_defenders(game).len() - 1) as usize;
    (GameStateView {
        modified: true,
        data: GameData {
            raid: Some(
                RaidState {
                    room_active: action == RoomActivationAction::Activate,
                    phase: RaidPhase::Encounter(last),
                    ..raid
                },
            ),
            ..game.data
        },
        ..game
    }).with_player(
        Side::Overlord,
        PlayerState { mana: (game.player(Side::Overlord).mana - cost) as u32, ..game.player(Side::Overlord) },
    )
}

/// The Overlord decides whether to activate the raided room: the raid goes to the last defender,
/// which the Overlord summons by paying its mana cost `defender_cost`; the Champion is then asked
/// to defeat it with one of `defeating_weapons` (the Champion's weapons that can defeat it) or
/// to go on without a weapon.
pub fn activate_room_action(
    game: &mut GameState,
    user_side: Side,
    action: RoomActivationAction,
    defender_cost: Option<ManaValue>,
    defeating_weapons: &Vec<CardId>,
) -> (result: Result<(), RulesError>)
    requires
        old(game)@.ids_consistent(),
        spec_can_take_room_activation_action(old(game)@, user_side) ==> (defender_cost matches Some(cost)
            && cost <= old(game)@.player(Side::Overlord).mana),
        spec_can_take_room_activation_action(old(game)@, user_side) ==> old(game)@.player(
            Side::Champion,
        ).prompt is None,
    ensures
        !spec_can_take_room_activation_action(old(game)@, user_side) ==> result == Err::<(), RulesError>(
            RulesError::IllegalAction,
        ) && final(game)@ == old(game)@,
        spec_can_take_room_activation_action(old(game)@, user_side) ==> {
            let defenders = raid_defenders(old(game)@);
            let defender = defenders[defenders.len() - 1];
            let activated = room_activated(old(game)@, action, defender_cost->0);
            &&& result is Ok
            &&& exists|revealed: GameStateView|
                #[trigger] summoned(activated, revealed, defender) && prompted_with(
                    revealed,
                    final(game)@,
                    Side::Champion,
                    None,
                    encounter_responses(defender, defeating_weapons@),
                )
        },
        final(game)@.ids_consistent(),
{
    if !can_take_room_activation_action(game, user_side) {
        return Err(RulesError::IllegalAction);
    }
    let raid = match game.data().raid {
        Some(raid) => raid,
        None => return Err(RulesError::NoActiveRaid),
    };
    let defenders = game.defender_list(raid.target);
    proof {
        crate::game::lemma_defender_ids_valid(game@, raid.target);
        let d = raid_defenders(game@);
        let i = choose|i: int| 0 <= i < d.len() && !game@.card(#[trigger] d[i]).face_up;
        assert(d.len() > 0);
    }
    let last = defenders.len() - 1;
    game.data_mut().raid = Some(
        RaidState { room_active: action == RoomActivationAction::Activate, phase: RaidPhase::Encounter(last), ..raid },
    );
    let cost = match defender_cost {
        Some(cost) => cost,
        None => return Err(RulesError::IllegalAction),
    };
    let player = game.player_mut(Side::Overlord);
    player.mana = player.mana - cost;
    let ghost activated = game@;
    assert(activated == room_activated(old(game)@, action, cost));
    let defender_id = defenders[last];
    assert(game@.has_card(defender_id));
    turn_face_up(game, defender_id);
    let ghost revealed = game@;
    assert(summoned(activated, revealed, defender_id));
    proof {
        assert forall|i: int| 0 <= i < revealed.overlord_cards.len() implies (#[trigger] revealed.overlord_cards[i])@.position
            == old(game)@.overlord_cards[i]@.position && revealed.overlord_cards[i]@.id == old(game)@.overlord_cards[i]@.id by {
            if defender_id.side == Side::Overlord && i == defender_id.index as int {
            } else {
                assert(revealed.overlord_cards[i] == activated.overlord_cards[i]);
            }
        }
        crate::game::lemma_same_positions(revealed.overlord_cards, old(game)@.overlord_cards, raid.target);
    }
    let prompt = match build_encounter_prompt(game, last, defeating_weapons) {
        Ok(prompt) => prompt,
        Err(e) => return Err(e),
    };
    let ghost shown = prompt;
    set_prompt(game, Side::Champion, prompt);
    assert(game@.player(Side::Champion).prompt == Some(shown));
    assert(game@.cards(Side::Overlord) == revealed.cards(Side::Overlord));
    assert(game@.cards(Side::Champion) == revealed.cards(Side::Champion));
    Ok(())
}

/// The Champion may act against the defender being encountered: `action` uses a weapon only
/// against that defender, and only when the weapon can defeat it (`can_defeat`, the result of
/// the can-defeat-target rule for that weapon and defender).
pub open spec fn spec_can_take_raid_encounter_action(
    game: GameStateView,
    side: Side,
    action: EncounterAction,
    can_defeat: bool,
) -> bool {
    &&& side == Side::Champion
    &&& game.data.raid is Some
    &&& game.data.raid->0.phase is Encounter
    &&& game.data.raid->0.phase->Encounter_0 < raid_defenders(game).len()
    &&& action matches EncounterAction::UseWeaponAbility(_, target) ==> raid_defenders(game)[game.data.raid->0.phase->Encounter_0 as int]
        == target && can_defeat
}

/// Whether `side` may take the encounter action `action` now.
pub fn can_take_raid_encounter_action(game: &GameState, side: Side, action: EncounterAction, can_defeat: bool) -> (result: bool)
    ensures
        result == spec_can_take_raid_encounter_action(game@, side, action, can_defeat),
{
    let raid = match game.data().raid {
        Some(r) => r,
        None => return false,
    };
    let position = match raid.phase {
        RaidPhase::Encounter(p) => p,
        _ => return false,
    };
    let defenders = game.defender_list(raid.target);
    let can_continue = side == Side::Champion && defenders.len() > position;
    match action {
        EncounterAction::UseWeaponAbility(_, target) => can_continue && defenders[position] == target && can_defeat,
        _ => can_continue,
    }
}

/// `game` once `side` has paid `cost` mana.
pub open spec fn mana_paid(game: GameStateView, side: Side, cost: ManaValue) -> GameStateView {
    (GameStateView { modified: true, ..game }).with_player(
        side,
        PlayerState { mana: (game.player(side).mana - cost) as u32, ..game.player(side) },
    )
}

/// The Champion defeats the defender being encountered with a weapon, paying `weapon_cost` (the
/// mana the weapon costs to defeat it; `None` when it cannot). After the first defender the raid
/// goes on to the access phase of the room (`occupant_types` giving the type of each of its
/// occupants); otherwise the Champion is asked whether to advance to the next defender.
pub fn encounter_action(
    game: &mut GameState,
    user_side: Side,
    action: EncounterAction,
    can_defeat: bool,
    weapon_cost: Option<ManaValue>,
    occupant_types: &Vec<CardType>,
) -> (result: Result<(), RulesError>)
    requires
        old(game)@.ids_consistent(),
        spec_can_take_raid_encounter_action(old(game)@, user_side, action, can_defeat) ==> {
            let raid = old(game)@.data.raid->0;
            &&& action is UseWeaponAbility
            &&& weapon_cost matches Some(cost) ==> {
                &&& cost <= old(game)@.player(Side::Champion).mana
                &&& old(game)@.player(Side::Champion).prompt is None
                &&& raid.phase == RaidPhase::Encounter(0) ==> !raid.target.spec_is_inner_room()
                    && occupant_types.len() == occupant_ids(old(game)@.overlord_cards, raid.target).len()
            }
        },
    ensures
        !spec_can_take_raid_encounter_action(old(game)@, user_side, action, can_defeat) ==> result
            == Err::<(), RulesError>(RulesError::IllegalAction) && final(game)@ == old(game)@,
        spec_can_take_raid_encounter_action(old(game)@, user_side, action, can_defeat) && weapon_cost is None
            ==> result == Err::<(), RulesError>(RulesError::IllegalAction) && final(game)@ == old(game)@,
        spec_can_take_raid_encounter_action(old(game)@, user_side, action, can_defeat)
            && weapon_cost is Some ==> {
            let encounter = old(game)@.data.raid->0.phase->Encounter_0;
            let paid = mana_paid(old(game)@, Side::Champion, weapon_cost->0);
            &&& result is Ok
            &&& encounter == 0 ==> access_initiated(paid, final(game)@, occupant_types@)
            &&& encounter > 0 ==> prompted_with(
                in_raid_phase(paid, RaidPhase::Continue((encounter - 1) as usize)),
                final(game)@,
                Side::Champion,
                Some(crate::game_actions::PromptContext::RaidAdvance),
                continue_responses(),
            )
        },
        final(game)@.ids_consistent(),
{
    if !can_take_raid_encounter_action(game, user_side, action, can_defeat) {
        return Err(RulesError::IllegalAction);
    }
    let encounter = match game.data().raid {
        Some(raid) => match raid.phase {
            RaidPhase::Encounter(n) => n,
            _ => return Err(RulesError::IllegalAction),
        },
        None => return Err(RulesError::NoActiveRaid),
    };
    let cost = match weapon_cost {
        Some(cost) => cost,
        None => return Err(RulesError::IllegalAction),
    };
    let player = game.player_mut(user_side);
    player.mana = player.mana - cost;
    let ghost paid = game@;
    assert(paid == mana_paid(old(game)@, Side::Champion, cost));
    if encounter == 0 {
        initiate_access_phase(game, occupant_types);
    } else {
        let raid = match game.data().raid {
            Some(raid) => raid,
            None => return Err(RulesError::NoActiveRaid),
        };
        game.data_mut().raid = Some(RaidState { phase: RaidPhase::Continue(encounter - 1), ..raid });
        let ghost continuing = game@;
        assert(continuing == in_raid_phase(paid, RaidPhase::Continue((encounter - 1) as usize)));
        let prompt = build_continue_prompt();
        let ghost shown = prompt;
        set_prompt(game, user_side, prompt);
        assert(game@.player(Side::Champion).prompt == Some(shown));
    }
    Ok(())
}

/// The Champion decides, between two encounters, whether to go on with the raid. Retreating
/// ends the raid in failure, which may end the Champion's turn (the Overlord then starts its
/// turn with `next_actions` action points, and the card it drew is returned). Advancing
/// encounters the next defender, whose cost the card rules describe as `cost`: the Overlord
/// summons it where it can (paying that cost), and the Champion is asked to defeat it with one
/// of `defeating_weapons` (its weapons that can defeat it) or to go on without a weapon.
pub fn continue_action(
    game: &mut GameState,
    user_side: Side,
    action: ContinueAction,
    cost: DefenderCost,
    defeating_weapons: &Vec<CardId>,
    next_actions: ActionCount,
) -> (result: Result<Option<Vec<CardId>>, RulesError>)
    requires
        old(game)@.ids_consistent(),
        mana_fits(old(game)@, Side::Overlord),
        spec_can_take_continue_action(old(game)@, user_side) && action == ContinueAction::Advance ==> {
            &&& old(game)@.data.raid->0.phase->Continue_0 < raid_defenders(old(game)@).len()
            &&& old(game)@.player(Side::Champion).prompt is None
        },
        spec_can_take_continue_action(old(game)@, user_side) && action == ContinueAction::Retreat ==> (turn_ends(
            raid_ended(old(game)@),
            Side::Champion,
        ) ==> next_turn_number(raid_ended(old(game)@), Side::Champion) <= u32::MAX),
    ensures
        !spec_can_take_continue_action(old(game)@, user_side) ==> result == Err::<
            Option<Vec<CardId>>,
            RulesError,
        >(RulesError::IllegalAction) && final(game)@ == old(game)@,
        spec_can_take_continue_action(old(game)@, user_side) && action == ContinueAction::Retreat ==> result is Ok
            && end_turn_checked(raid_ended(old(game)@), final(game)@, Side::Champion, next_actions, result->Ok_0),
        spec_can_take_continue_action(old(game)@, user_side) && action == ContinueAction::Advance ==> {
            let n = old(game)@.data.raid->0.phase->Continue_0;
            let entered = in_raid_phase(old(game)@, RaidPhase::Encounter(n));
            let defender = raid_defenders(old(game)@)[n as int];
            &&& result == Ok::<Option<Vec<CardId>>, RulesError>(None)
            &&& exists|met: GameStateView|
                #[trigger] prompted_with(met, final(game)@, Side::Champion, None, encounter_responses(defender, defeating_weapons@))
                    && if spec_can_summon(entered, defender, cost) {
                    summoned(card_paid(entered, defender, cost.mana), met, defender)
                } else {
                    met == entered
                }
        },
        final(game)@.ids_consistent(),
{
    if !can_take_continue_action(game, user_side) {
        return Err(RulesError::IllegalAction);
    }
    let raid = match game.data().raid {
        Some(raid) => raid,
        None => return Err(RulesError::NoActiveRaid),
    };
    let n = match raid.phase {
        RaidPhase::Continue(n) => n,
        _ => return Err(RulesError::IllegalAction),
    };
    match action {
        ContinueAction::Retreat => Ok(end_raid(game, RaidOutcome::Failure, next_actions)),
        ContinueAction::Advance => {
            game.data_mut().raid = Some(RaidState { phase: RaidPhase::Encounter(n), ..raid });
            let ghost entered = game@;
            assert(entered == in_raid_phase(old(game)@, RaidPhase::Encounter(n)));
            let defenders = game.defender_list(raid.target);
            proof {
                crate::game::lemma_defender_ids_valid(game@, raid.target);
                crate::game::lemma_defender_ids_in(game@.overlord_cards, raid.target);
                let cards = game@.overlord_cards;
                let j = choose|j: int|
                    0 <= j < cards.len() && (#[trigger] cards[j])@.id == defenders@[n as int] && crate::game::defends(
                        cards[j]@.position,
                        raid.target,
                    );
                assert(cards[j]@.id == defenders@[n as int]);
                game.lemma_card_lists_fit();
                assert(defenders@[n as int] == CardId { side: Side::Overlord, index: j as usize });
                assert(cards[j]@.position is Room);
                assert(game@.card(defenders@[n as int]).position.spec_in_play());
                assert(mana_fits(game@, Side::Overlord));
            }
            let defender_id = defenders[n];
            let can_summon = match can_summon_defender(game, defender_id, cost) {
                Ok(b) => b,
                Err(e) => return Err(e),
            };
            if can_summon {
                unveil_card(game, defender_id, cost);
            }
            let ghost met = game@;
            proof {
                assert forall|i: int| 0 <= i < met.overlord_cards.len() implies (#[trigger] met.overlord_cards[i])@.position
                    == old(game)@.overlord_cards[i]@.position && met.overlord_cards[i]@.id == old(game)@.overlord_cards[i]@.id by {
                    if !(defender_id.side == Side::Overlord && i == defender_id.index as int) {
                        assert(met.overlord_cards[i] == entered.overlord_cards[i]);
                    }
                }
                crate::game::lemma_same_positions(met.overlord_cards, old(game)@.overlord_cards, raid.target);
            }
            let prompt = match build_encounter_prompt(game, n, defeating_weapons) {
                Ok(prompt) => prompt,
                Err(e) => return Err(e),
            };
            let ghost shown = prompt;
            set_prompt(game, Side::Champion, prompt);
            assert(game@.player(Side::Champion).prompt == Some(shown));
            assert(prompted_with(met, game@, Side::Champion, None, encounter_responses(defender_id, defeating_weapons@)));
            Ok(None)
        },
    }
}

} // verus!
