//! The defenders that a raid meets, and the prompt that each phase of a raid shows.
use vstd::prelude::*;

use crate::errors::RulesError;
use crate::game::{defender_ids, GameState, GameStateView, PlayerState, RaidPhase};
use crate::game_actions::{
    AccessPhaseAction, ContinueAction, EncounterAction, Prompt, PromptAction, PromptContext,
    RoomActivationAction,
};
use crate::mutations::set_prompt;
use crate::primitives::{CardId, RoomId, Side};

verus! {

/// Finds the defender at position `index` of `room_id`.
pub fn find_defender(game: &GameState, room_id: RoomId, index: usize) -> (result: Result<CardId, RulesError>)
    ensures
        index < defender_ids(game@.overlord_cards, room_id).len() ==> result == Ok::<CardId, RulesError>(
            defender_ids(game@.overlord_cards, room_id)[index as int],
        ),
        index >= defender_ids(game@.overlord_cards, room_id).len() ==> result == Err::<CardId, RulesError>(
            RulesError::DefenderNotFound,
        ),
{
    let defenders = game.defender_list(room_id);
    if index < defenders.len() {
        Ok(defenders[index])
    } else {
        Err(RulesError::DefenderNotFound)
    }
}

/// The Overlord activates the raided room, or passes.
pub open spec fn activation_responses() -> Seq<PromptAction> {
    seq![
        PromptAction::ActivateRoomAction(RoomActivationAction::Activate),
        PromptAction::ActivateRoomAction(RoomActivationAction::Pass),
    ]
}

/// The prompt that the Overlord sees at the start of a raid.
pub fn build_activation_prompt() -> (result: Prompt)
    ensures
        result.context == Some(PromptContext::ActivateRoom),
        result.responses@ == activation_responses(),
{
    Prompt {
        context: Some(PromptContext::ActivateRoom),
        responses: vec![
            PromptAction::ActivateRoomAction(RoomActivationAction::Activate),
            PromptAction::ActivateRoomAction(RoomActivationAction::Pass),
        ],
    }
}

/// The Champion uses one of `defeating_weapons` against `defender_id`, or no weapon.
pub open spec fn encounter_responses(defender_id: CardId, defeating_weapons: Seq<CardId>) -> Seq<PromptAction> {
    defeating_weapons.map_values(
        |w: CardId| PromptAction::EncounterAction(EncounterAction::UseWeaponAbility(w, defender_id)),
    ).push(PromptAction::EncounterAction(EncounterAction::NoWeapon))
}

/// The prompt that the Champion sees on encountering the defender at position `defender` of the
/// raided room; `defeating_weapons` are the Champion's weapons that can defeat that defender.
pub fn build_encounter_prompt(game: &GameState, defender: usize, defeating_weapons: &Vec<CardId>) -> (result:
    Result<Prompt, RulesError>)
    ensures
        game@.data.raid is None ==> result == Err::<Prompt, RulesError>(RulesError::NoActiveRaid),
        game@.data.raid matches Some(raid) ==> {
            let defenders = defender_ids(game@.overlord_cards, raid.target);
            &&& defender >= defenders.len() ==> result == Err::<Prompt, RulesError>(
                RulesError::DefenderNotFound,
            )
            &&& defender < defenders.len() ==> (result matches Ok(prompt) && prompt.context is None
                && prompt.responses@ == encounter_responses(defenders[defender as int], defeating_weapons@))
        },
{
    let target = match game.data().raid {
        Some(raid) => raid.target,
        None => return Err(RulesError::NoActiveRaid),
    };
    let defender_id = match find_defender(game, target, defender) {
        Ok(id) => id,
        Err(e) => return Err(e),
    };
    let mut responses: Vec<PromptAction> = Vec::new();
    let mut i: usize = 0;
    while i < defeating_weapons.len()
        invariant
            i <= defeating_weapons.len(),
            responses@ == defeating_weapons@.subrange(0, i as int).map_values(
                |w: CardId| PromptAction::EncounterAction(EncounterAction::UseWeaponAbility(w, defender_id)),
            ),
        decreases defeating_weapons.len() - i,
    {
        responses.push(
            PromptAction::EncounterAction(EncounterAction::UseWeaponAbility(defeating_weapons[i], defender_id)),
        );
        i += 1;
        assert(responses@ =~= defeating_weapons@.subrange(0, i as int).map_values(
            |w: CardId| PromptAction::EncounterAction(EncounterAction::UseWeaponAbility(w, defender_id)),
        ));
    }
    assert(defeating_weapons@.subrange(0, i as int) =~= defeating_weapons@);
    responses.push(PromptAction::EncounterAction(EncounterAction::NoWeapon));
    Ok(Prompt { context: None, responses })
}

/// The Champion advances past the defender just encountered, or retreats.
pub open spec fn continue_responses() -> Seq<PromptAction> {
    seq![
        PromptAction::ContinueAction(ContinueAction::Advance),
        PromptAction::ContinueAction(ContinueAction::Retreat),
    ]
}

/// The prompt that the Champion sees after an encounter.
pub fn build_continue_prompt() -> (result: Prompt)
    ensures
        result.context == Some(PromptContext::RaidAdvance),
        result.responses@ == continue_responses(),
{
    Prompt {
        context: Some(PromptContext::RaidAdvance),
        responses: vec![
            PromptAction::ContinueAction(ContinueAction::Advance),
            PromptAction::ContinueAction(ContinueAction::Retreat),
        ],
    }
}

/// The Champion scores one of `scoreable`, or ends the raid.
pub open spec fn access_responses(scoreable: Seq<CardId>) -> Seq<PromptAction> {
    scoreable.map_values(
        |c: CardId| PromptAction::AccessPhaseAction(AccessPhaseAction::ScoreCard(c)),
    ).push(PromptAction::AccessPhaseAction(AccessPhaseAction::EndRaid))
}

/// The prompt that the Champion sees on accessing the raided room; `scoreable` are the accessed
/// cards that the Champion can score, in the order in which they were accessed.
pub fn build_access_prompt(scoreable: &Vec<CardId>) -> (result: Prompt)
    ensures
        result.context is None,
        result.responses@ == access_responses(scoreable@),
{
    let mut responses: Vec<PromptAction> = Vec::new();
    let mut i: usize = 0;
    while i < scoreable.len()
        invariant
            i <= scoreable.len(),
            responses@ == scoreable@.subrange(0, i as int).map_values(
                |c: CardId| PromptAction::AccessPhaseAction(AccessPhaseAction::ScoreCard(c)),
            ),
        decreases scoreable.len() - i,
    {
        responses.push(PromptAction::AccessPhaseAction(AccessPhaseAction::ScoreCard(scoreable[i])));
        i += 1;
        assert(responses@ =~= scoreable@.subrange(0, i as int).map_values(
            |c: CardId| PromptAction::AccessPhaseAction(AccessPhaseAction::ScoreCard(c)),
        ));
    }
    assert(scoreable@.subrange(0, i as int) =~= scoreable@);
    responses.push(PromptAction::AccessPhaseAction(AccessPhaseAction::EndRaid));
    Prompt { context: None, responses }
}

/// The player who is asked to act in a raid phase: the Overlord while it decides on activating
/// the room, the Champion otherwise.
pub open spec fn prompted_side(phase: RaidPhase) -> Side {
    match phase {
        RaidPhase::Activation => Side::Overlord,
        _ => Side::Champion,
    }
}

/// The prompt of a raid phase, as its context and responses: `None` at the beginning of a raid,
/// which asks nobody anything.
pub open spec fn raid_prompt(
    game: GameStateView,
    phase: RaidPhase,
    defeating_weapons: Seq<CardId>,
    scoreable: Seq<CardId>,
) -> Option<(Option<PromptContext>, Seq<PromptAction>)> {
    match phase {
        RaidPhase::Begin => None,
        RaidPhase::Activation => Some((Some(PromptContext::ActivateRoom), activation_responses())),
        RaidPhase::Encounter(defender) => Some(
            (
                None,
                encounter_responses(
                    defender_ids(game.overlord_cards, game.data.raid->0.target)[defender as int],
                    defeating_weapons,
                ),
            ),
        ),
        RaidPhase::Continue(_) => Some((Some(PromptContext::RaidAdvance), continue_responses())),
        RaidPhase::Access => Some((None, access_responses(scoreable))),
    }
}

/// `after` is `before` with `side` asked to choose among `responses`, in the context `context`.
pub open spec fn prompted_with(
    before: GameStateView,
    after: GameStateView,
    side: Side,
    context: Option<PromptContext>,
    responses: Seq<PromptAction>,
) -> bool {
    &&& after.player(side).prompt matches Some(prompt) && prompt.context == context
        && prompt.responses@ == responses
    &&& after == (GameStateView { modified: true, ..before }).with_player(
        side,
        PlayerState { prompt: after.player(side).prompt, ..before.player(side) },
    )
}

/// Whether the current raid phase names a defender that the raided room does not have.
pub open spec fn encounters_missing_defender(game: GameStateView) -> bool {
    game.data.raid->0.phase matches RaidPhase::Encounter(defender) && defender >= defender_ids(
        game.overlord_cards,
        game.data.raid->0.target,
    ).len()
}

/// Asks the player who acts in the current raid phase to make its choice. `defeating_weapons`
/// are the Champion's weapons that can defeat the defender being encountered (used in an
/// encounter), `scoreable` the accessed cards that the Champion can score (used in the access
/// phase).
pub fn set_raid_prompt(game: &mut GameState, defeating_weapons: &Vec<CardId>, scoreable: &Vec<CardId>) -> (result:
    Result<(), RulesError>)
    requires
        old(game)@.data.raid is Some && !(old(game)@.data.raid->0.phase is Begin)
            && !encounters_missing_defender(old(game)@) ==> old(game)@.player(
            prompted_side(old(game)@.data.raid->0.phase),
        ).prompt is None,
    ensures
        old(game)@.data.raid is None ==> result == Err::<(), RulesError>(RulesError::NoActiveRaid)
            && final(game)@ == old(game)@,
        old(game)@.data.raid is Some && encounters_missing_defender(old(game)@) ==> result
            == Err::<(), RulesError>(RulesError::DefenderNotFound) && final(game)@ == old(game)@,
        old(game)@.data.raid is Some && !encounters_missing_defender(old(game)@) ==> {
            let raid = old(game)@.data.raid->0;
            &&& result is Ok
            &&& match raid_prompt(old(game)@, raid.phase, defeating_weapons@, scoreable@) {
                None => final(game)@ == old(game)@,
                Some((context, responses)) => prompted_with(
                    old(game)@,
                    final(game)@,
                    prompted_side(raid.phase),
                    context,
                    responses,
                ),
            }
        },
{
    let phase = match game.data().raid {
        Some(raid) => raid.phase,
        None => return Err(RulesError::NoActiveRaid),
    };
    let (side, prompt) = match phase {
        RaidPhase::Begin => return Ok(()),
        RaidPhase::Activation => (Side::Overlord, build_activation_prompt()),
        RaidPhase::Encounter(defender) => match build_encounter_prompt(game, defender, defeating_weapons) {
            Ok(prompt) => (Side::Champion, prompt),
            Err(e) => return Err(e),
        },
        RaidPhase::Continue(_) => (Side::Champion, build_continue_prompt()),
        RaidPhase::Access => (Side::Champion, build_access_prompt(scoreable)),
    };
    let ghost shown = prompt;
    set_prompt(game, side, prompt);
    assert(game@.player(side).prompt == Some(shown));
    Ok(())
}

} // verus!
