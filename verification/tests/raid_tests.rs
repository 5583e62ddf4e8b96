use spelldawn::game::{DelegateEvent, GameObjectId, GameUpdate};
use spelldawn::card_state::CardPosition;
use spelldawn::errors::RulesError;
use spelldawn::flags;
use spelldawn::game::{GameState, RaidPhase, RaidState};
use spelldawn::game_actions::{
    CardPromptAction, ContinueAction, EncounterAction, PromptAction, PromptContext,
    RoomActivationAction,
};
use spelldawn::mana;
use spelldawn::mutations;
use spelldawn::primitives::{CardId, CardName, RaidId, RoomId, RoomLocation, Side};
use spelldawn::game_actions::AccessPhaseAction;
use spelldawn::raid_actions::{activate_room_action, continue_action, encounter_action, raid_end_action};
use spelldawn::primitives::CardType;
use spelldawn::raid_phases::{
    build_access_prompt, build_activation_prompt, build_continue_prompt, build_encounter_prompt,
    find_defender, set_raid_prompt,
};
use spelldawn::raid::{
    self, ActivateState, ContinueState, DefenderCost, EncounterState, RaidDisplayState,
    RaidOutcome, RaidTransition,
};

fn overlord(index: usize) -> CardId {
    CardId::new(Side::Overlord, index)
}

/// A game with three defenders in room A: cards 0, 1 and 2 of the Overlord.
fn game_with_defenders() -> GameState {
    let mut game = GameState::new_game("g".to_string(), (0..4).map(CardName).collect(), vec![CardName(9)]);
    for i in 0..3 {
        mutations::move_card(&mut game, overlord(i), CardPosition::Room(RoomId::RoomA, RoomLocation::Defender(i as u32)));
    }
    mutations::move_card(&mut game, overlord(3), CardPosition::Room(RoomId::RoomA, RoomLocation::InRoom));
    game
}

fn raid_on(game: &mut GameState, phase: RaidPhase) {
    game.data_mut().raid = Some(RaidState {
        raid_id: RaidId(1),
        encounter_number: 0,
        priority: Side::Champion,
        target: RoomId::RoomA,
        phase,
        room_active: false,
    });
}

const FREE: DefenderCost = DefenderCost { mana: None, custom_cost_payable: None };

#[test]
fn lists_defenders_and_occupants() {
    let game = game_with_defenders();
    assert_eq!(game.defender_list(RoomId::RoomA), vec![overlord(0), overlord(1), overlord(2)]);
    assert_eq!(game.occupants(RoomId::RoomA), vec![overlord(3)]);
    assert!(game.defender_list(RoomId::RoomB).is_empty());
}

#[test]
fn no_raid_is_an_error() {
    let game = game_with_defenders();
    assert_eq!(raid::next_encounter(&game, None, &vec![FREE; 3]), Err(RulesError::NoActiveRaid));
    assert_eq!(raid::can_summon_defender(&game, overlord(0), FREE), Err(RulesError::NoActiveRaid));
}

#[test]
fn face_down_defenders_are_skipped_when_the_room_is_not_active() {
    let mut game = game_with_defenders();
    raid_on(&mut game, RaidPhase::Activation);
    assert_eq!(raid::next_encounter(&game, None, &vec![FREE; 3]), Ok(None));
    mutations::turn_face_up(&mut game, overlord(1));
    assert_eq!(raid::next_encounter(&game, None, &vec![FREE; 3]), Ok(Some(1)));
    assert_eq!(raid::next_encounter(&game, Some(1), &vec![FREE; 3]), Ok(None));
}

#[test]
fn activation_makes_defenders_summonable() {
    let mut game = game_with_defenders();
    raid_on(&mut game, RaidPhase::Activation);
    assert!(flags::can_take_room_activation_action(&game, Side::Overlord));
    assert!(!flags::can_take_room_activation_action(&game, Side::Champion));
    mana::set(&mut game, Side::Overlord, 2);
    let costs = vec![FREE, FREE, DefenderCost { mana: Some(3), custom_cost_payable: None }];
    let transition = ActivateState {}.handle_action(&mut game, RoomActivationAction::Activate, &costs);
    // The last defender costs more than the Overlord has: the middle one comes first.
    assert_eq!(transition, Ok(RaidTransition::Enter(RaidPhase::Encounter(1))));
    assert!(game.data().raid.unwrap().room_active);
    assert_eq!(raid::can_summon_defender(&game, overlord(2), costs[2]), Ok(false));
    assert_eq!(
        raid::can_summon_defender(&game, overlord(2), DefenderCost { mana: Some(2), custom_cost_payable: Some(true) }),
        Ok(true)
    );
    assert_eq!(
        raid::can_summon_defender(&game, overlord(2), DefenderCost { mana: None, custom_cost_payable: Some(false) }),
        Ok(false)
    );
}

#[test]
fn passing_with_face_down_defenders_goes_to_access() {
    let mut game = game_with_defenders();
    raid_on(&mut game, RaidPhase::Activation);
    let transition = ActivateState {}.handle_action(&mut game, RoomActivationAction::Pass, &vec![FREE; 3]);
    assert_eq!(transition, Ok(RaidTransition::Enter(RaidPhase::Access)));
    assert!(!game.data().raid.unwrap().room_active);
}

#[test]
fn continue_state() {
    let mut game = game_with_defenders();
    raid_on(&mut game, RaidPhase::Continue(1));
    assert_eq!(ContinueState {}.actions(), vec![ContinueAction::Advance, ContinueAction::Retreat]);
    assert_eq!(ContinueState {}.active_side(), Side::Champion);
    assert_eq!(ContinueState {}.prompt_context(), Some(PromptContext::RaidAdvance));
    assert_eq!(
        ContinueState {}.handle_action(&game, ContinueAction::Advance),
        Ok(RaidTransition::Enter(RaidPhase::Encounter(1)))
    );
    assert_eq!(
        ContinueState {}.handle_action(&game, ContinueAction::Retreat),
        Ok(RaidTransition::End(RaidOutcome::Failure))
    );
    let shown_state = (ContinueState {}).display_state(&game).unwrap();
    match shown_state {
        RaidDisplayState::Defenders(shown) => assert_eq!(shown, vec![overlord(0), overlord(1)]),
        _ => panic!("expected defenders"),
    }
    assert!(flags::can_take_continue_action(&game, Side::Champion));
    assert!(!flags::can_take_raid_end_action(&game, Side::Champion));
    raid_on(&mut game, RaidPhase::Access);
    assert_eq!(ContinueState {}.handle_action(&game, ContinueAction::Advance), Err(RulesError::IllegalAction));
    assert!(flags::can_take_raid_end_action(&game, Side::Champion));
}

#[test]
fn activate_state_prompts() {
    assert_eq!(ActivateState {}.actions(), vec![RoomActivationAction::Activate, RoomActivationAction::Pass]);
    assert_eq!(ActivateState {}.active_side(), Side::Overlord);
    assert_eq!(ActivateState {}.prompt_context(), Some(PromptContext::ActivateRoom));
    let action = ActivateState::wrap(RoomActivationAction::Pass);
    assert_eq!(ActivateState::unwrap(action), Ok(RoomActivationAction::Pass));
    assert_eq!(
        ActivateState::unwrap(PromptAction::ContinueAction(ContinueAction::Advance)),
        Err(RulesError::IllegalAction)
    );
}

#[test]
fn encounter_actions() {
    let defender = overlord(0);
    let weapon = CardId::new(Side::Champion, 0);
    let actions = EncounterState {}.actions(defender, &vec![weapon], &vec![]);
    assert_eq!(actions, vec![EncounterAction::UseWeaponAbility(weapon, defender), EncounterAction::NoWeapon]);
    let combat = vec![None, Some(CardPromptAction::EndRaid)];
    assert_eq!(
        EncounterState {}.actions(defender, &vec![], &combat),
        vec![EncounterAction::CardAction(CardPromptAction::EndRaid)]
    );
    assert_eq!(raid::minion_combat_actions(&vec![None]), vec![EncounterAction::NoWeapon]);
}

#[test]
fn after_an_encounter() {
    let mut game = game_with_defenders();
    raid_on(&mut game, RaidPhase::Encounter(2));
    mutations::turn_face_up(&mut game, overlord(0));
    assert_eq!(
        EncounterState {}.next_phase(&game, &vec![FREE; 3]),
        Ok(RaidTransition::Enter(RaidPhase::Continue(0)))
    );
    raid_on(&mut game, RaidPhase::Encounter(0));
    assert_eq!(EncounterState {}.next_phase(&game, &vec![FREE; 3]), Ok(RaidTransition::Enter(RaidPhase::Access)));
    raid_on(&mut game, RaidPhase::Encounter(1000));
    assert_eq!(
        EncounterState {}.next_phase(&game, &vec![FREE; 3]),
        Ok(RaidTransition::Enter(RaidPhase::Continue(1)))
    );
    game.data_mut().raid = None;
    assert_eq!(EncounterState {}.next_phase(&game, &vec![]), Ok(RaidTransition::Done));
}

#[test]
fn finds_defenders_by_position() {
    let game = game_with_defenders();
    assert_eq!(find_defender(&game, RoomId::RoomA, 0), Ok(overlord(0)));
    assert_eq!(find_defender(&game, RoomId::RoomA, 2), Ok(overlord(2)));
    assert_eq!(find_defender(&game, RoomId::RoomA, 3), Err(RulesError::DefenderNotFound));
    assert_eq!(find_defender(&game, RoomId::RoomB, 0), Err(RulesError::DefenderNotFound));
}

#[test]
fn raid_phase_prompts() {
    let activation = build_activation_prompt();
    assert_eq!(activation.context, Some(PromptContext::ActivateRoom));
    assert_eq!(
        activation.responses,
        vec![
            PromptAction::ActivateRoomAction(RoomActivationAction::Activate),
            PromptAction::ActivateRoomAction(RoomActivationAction::Pass),
        ]
    );
    let continuation = build_continue_prompt();
    assert_eq!(continuation.context, Some(PromptContext::RaidAdvance));
    assert_eq!(
        continuation.responses,
        vec![
            PromptAction::ContinueAction(ContinueAction::Advance),
            PromptAction::ContinueAction(ContinueAction::Retreat),
        ]
    );
    let scheme = overlord(3);
    let access = build_access_prompt(&vec![scheme]);
    assert_eq!(access.context, None);
    assert_eq!(
        access.responses,
        vec![
            PromptAction::AccessPhaseAction(AccessPhaseAction::ScoreCard(scheme)),
            PromptAction::AccessPhaseAction(AccessPhaseAction::EndRaid),
        ]
    );
    assert_eq!(
        build_access_prompt(&vec![]).responses,
        vec![PromptAction::AccessPhaseAction(AccessPhaseAction::EndRaid)]
    );
}

#[test]
fn encounter_prompt_names_the_defender() {
    let mut game = game_with_defenders();
    let weapon = CardId::new(Side::Champion, 0);
    assert_eq!(build_encounter_prompt(&game, 1, &vec![weapon]).map(|p| p.responses), Err(RulesError::NoActiveRaid));
    raid_on(&mut game, RaidPhase::Encounter(1));
    let prompt = build_encounter_prompt(&game, 1, &vec![weapon]).unwrap();
    assert_eq!(prompt.context, None);
    assert_eq!(
        prompt.responses,
        vec![
            PromptAction::EncounterAction(EncounterAction::UseWeaponAbility(weapon, overlord(1))),
            PromptAction::EncounterAction(EncounterAction::NoWeapon),
        ]
    );
    assert_eq!(build_encounter_prompt(&game, 5, &vec![]).map(|p| p.responses), Err(RulesError::DefenderNotFound));
}

#[test]
fn set_raid_prompt_asks_the_acting_player() {
    let mut game = game_with_defenders();
    assert_eq!(set_raid_prompt(&mut game, &vec![], &vec![]), Err(RulesError::NoActiveRaid));
    raid_on(&mut game, RaidPhase::Begin);
    assert_eq!(set_raid_prompt(&mut game, &vec![], &vec![]), Ok(()));
    assert!(game.player(Side::Overlord).prompt.is_none());
    assert!(game.player(Side::Champion).prompt.is_none());

    raid_on(&mut game, RaidPhase::Activation);
    assert_eq!(set_raid_prompt(&mut game, &vec![], &vec![]), Ok(()));
    let shown = game.player(Side::Overlord).prompt.clone().unwrap();
    assert_eq!(shown.context, Some(PromptContext::ActivateRoom));
    assert!(game.player(Side::Champion).prompt.is_none());
    mutations::clear_prompt(&mut game, Side::Overlord);

    raid_on(&mut game, RaidPhase::Encounter(7));
    assert_eq!(set_raid_prompt(&mut game, &vec![], &vec![]), Err(RulesError::DefenderNotFound));
    assert!(game.player(Side::Champion).prompt.is_none());

    raid_on(&mut game, RaidPhase::Encounter(0));
    assert_eq!(set_raid_prompt(&mut game, &vec![], &vec![]), Ok(()));
    assert_eq!(
        game.player(Side::Champion).prompt.clone().unwrap().responses,
        vec![PromptAction::EncounterAction(EncounterAction::NoWeapon)]
    );
    mutations::clear_prompt(&mut game, Side::Champion);

    raid_on(&mut game, RaidPhase::Access);
    assert_eq!(set_raid_prompt(&mut game, &vec![], &vec![overlord(3)]), Ok(()));
    assert_eq!(
        game.player(Side::Champion).prompt.clone().unwrap().responses,
        vec![
            PromptAction::AccessPhaseAction(AccessPhaseAction::ScoreCard(overlord(3))),
            PromptAction::AccessPhaseAction(AccessPhaseAction::EndRaid),
        ]
    );
}

#[test]
fn ending_a_raid() {
    let mut game = game_with_defenders();
    raid_on(&mut game, RaidPhase::Continue(0));
    assert_eq!(raid_end_action(&mut game, Side::Champion, 3), Err(RulesError::IllegalAction));
    assert!(game.data().raid.is_some());
    raid_on(&mut game, RaidPhase::Access);
    assert_eq!(raid_end_action(&mut game, Side::Overlord, 3), Err(RulesError::IllegalAction));
    // The game has not started: no turn ends with the raid.
    assert_eq!(raid_end_action(&mut game, Side::Champion, 3), Ok(None));
    assert!(game.data().raid.is_none());
    raid_on(&mut game, RaidPhase::Encounter(0));
    assert_eq!(mutations::end_raid(&mut game, RaidOutcome::Failure, 3), None);
    assert!(game.data().raid.is_none());
}

#[test]
fn activating_a_room_summons_the_last_defender() {
    let mut game = game_with_defenders();
    raid_on(&mut game, RaidPhase::Activation);
    mana::set(&mut game, Side::Overlord, 5);
    let weapon = CardId::new(Side::Champion, 0);
    assert_eq!(
        activate_room_action(&mut game, Side::Champion, RoomActivationAction::Activate, Some(2), &vec![weapon]),
        Err(RulesError::IllegalAction)
    );
    assert_eq!(
        activate_room_action(&mut game, Side::Overlord, RoomActivationAction::Activate, Some(2), &vec![weapon]),
        Ok(())
    );
    let raid = game.data().raid.unwrap();
    assert!(raid.room_active);
    assert_eq!(raid.phase, RaidPhase::Encounter(2));
    assert_eq!(game.player(Side::Overlord).mana, 3);
    assert!(game.card(overlord(2)).is_face_up());
    assert_eq!(
        game.player(Side::Champion).prompt.clone().unwrap().responses,
        vec![
            PromptAction::EncounterAction(EncounterAction::UseWeaponAbility(weapon, overlord(2))),
            PromptAction::EncounterAction(EncounterAction::NoWeapon),
        ]
    );
}

#[test]
fn defeating_defenders_leads_to_the_access_phase() {
    let mut game = game_with_defenders();
    let weapon = CardId::new(Side::Champion, 0);
    mana::set(&mut game, Side::Champion, 4);
    raid_on(&mut game, RaidPhase::Encounter(1));
    let use_weapon = EncounterAction::UseWeaponAbility(weapon, overlord(1));
    assert_eq!(
        encounter_action(&mut game, Side::Champion, use_weapon, false, Some(1), &vec![CardType::Scheme]),
        Err(RulesError::IllegalAction)
    );
    assert_eq!(
        encounter_action(&mut game, Side::Champion, use_weapon, true, None, &vec![CardType::Scheme]),
        Err(RulesError::IllegalAction)
    );
    assert_eq!(encounter_action(&mut game, Side::Champion, use_weapon, true, Some(1), &vec![CardType::Scheme]), Ok(()));
    assert_eq!(game.player(Side::Champion).mana, 3);
    assert_eq!(game.data().raid.unwrap().phase, RaidPhase::Continue(0));
    assert_eq!(game.player(Side::Champion).prompt.clone().unwrap().context, Some(PromptContext::RaidAdvance));
    mutations::clear_prompt(&mut game, Side::Champion);
    raid_on(&mut game, RaidPhase::Encounter(0));
    let use_weapon = EncounterAction::UseWeaponAbility(weapon, overlord(0));
    assert_eq!(encounter_action(&mut game, Side::Champion, use_weapon, true, Some(2), &vec![CardType::Scheme]), Ok(()));
    assert_eq!(game.data().raid.unwrap().phase, RaidPhase::Access);
    assert!(game.card(overlord(3)).is_face_up());
    assert_eq!(
        game.player(Side::Champion).prompt.clone().unwrap().responses,
        vec![
            PromptAction::AccessPhaseAction(AccessPhaseAction::ScoreCard(overlord(3))),
            PromptAction::AccessPhaseAction(AccessPhaseAction::EndRaid),
        ]
    );
}

#[test]
fn weapons_defeat_targets_they_can_pay_for() {
    let mut game = game_with_defenders();
    let weapon = CardId::new(Side::Champion, 0);
    mana::set(&mut game, Side::Champion, 2);
    assert!(flags::can_defeat_target(&game, weapon, true, Some(2)));
    assert!(!flags::can_defeat_target(&game, weapon, true, Some(3)));
    assert!(!flags::can_defeat_target(&game, weapon, false, Some(1)));
    assert!(!flags::can_defeat_target(&game, weapon, true, None));
}

#[test]
fn encounter_actions_take_effect() {
    let weapon = CardId::new(Side::Champion, 0);
    let mut game = game_with_defenders();
    mana::set(&mut game, Side::Champion, 3);
    raid_on(&mut game, RaidPhase::Encounter(1));
    mutations::turn_face_up(&mut game, overlord(0));
    game.take_events();
    let strike = EncounterAction::UseWeaponAbility(weapon, overlord(1));
    assert_eq!(
        EncounterState {}.handle_action(&mut game, strike, None, &vec![FREE; 3], 2),
        Err(RulesError::IllegalAction)
    );
    assert_eq!(
        EncounterState {}.handle_action(&mut game, strike, Some(4), &vec![FREE; 3], 2),
        Err(RulesError::InsufficientMana)
    );
    assert_eq!(
        EncounterState {}.handle_action(&mut game, strike, Some(2), &vec![FREE; 3], 2),
        Ok(RaidTransition::Enter(RaidPhase::Continue(0)))
    );
    assert_eq!(game.player(Side::Champion).mana, 1);
    assert_eq!(
        game.updates().last(),
        Some(&GameUpdate::TargetedInteraction(GameObjectId::Card(weapon), GameObjectId::Card(overlord(1))))
    );
    assert_eq!(game.take_events(), vec![
        DelegateEvent::UsedWeapon(RaidId(1), weapon, overlord(1), 2),
        DelegateEvent::MinionDefeated(overlord(1)),
    ]);

    raid_on(&mut game, RaidPhase::Encounter(0));
    assert_eq!(
        EncounterState {}.handle_action(&mut game, EncounterAction::NoWeapon, None, &vec![FREE; 3], 2),
        Ok(RaidTransition::Enter(RaidPhase::Access))
    );
    assert_eq!(game.take_events(), vec![DelegateEvent::MinionCombatAbility(overlord(0))]);

    let lose = EncounterAction::CardAction(CardPromptAction::LoseMana(Side::Champion, 1));
    assert_eq!(EncounterState {}.handle_action(&mut game, lose, None, &vec![FREE; 3], 2), Ok(RaidTransition::Enter(RaidPhase::Access)));
    assert_eq!(game.player(Side::Champion).mana, 0);

    let end = EncounterAction::CardAction(CardPromptAction::EndRaid);
    assert_eq!(EncounterState {}.handle_action(&mut game, end, None, &vec![FREE; 3], 2), Ok(RaidTransition::Done));
    assert!(game.data().raid.is_none());
    assert_eq!(
        EncounterState {}.handle_action(&mut game, EncounterAction::NoWeapon, None, &vec![], 2),
        Err(RulesError::NoActiveRaid)
    );
}

#[test]
fn continuing_a_raid() {
    let weapon = CardId::new(Side::Champion, 0);
    let mut game = game_with_defenders();
    raid_on(&mut game, RaidPhase::Continue(1));
    assert_eq!(
        continue_action(&mut game, Side::Overlord, ContinueAction::Advance, FREE, &vec![weapon], 3),
        Err(RulesError::IllegalAction)
    );
    game.data_mut().raid.as_mut().unwrap().room_active = true;
    game.player_mut(Side::Overlord).mana = 5;
    let cost = DefenderCost { mana: Some(2), custom_cost_payable: None };
    assert_eq!(continue_action(&mut game, Side::Champion, ContinueAction::Advance, cost, &vec![weapon], 3), Ok(None));
    assert_eq!(game.data().raid.unwrap().phase, RaidPhase::Encounter(1));
    assert!(game.card(overlord(1)).is_face_up());
    assert_eq!(game.player(Side::Overlord).mana, 3);
    let prompt = game.player(Side::Champion).prompt.clone().unwrap();
    assert_eq!(prompt.context, None);
    assert_eq!(
        prompt.responses,
        vec![
            PromptAction::EncounterAction(EncounterAction::UseWeaponAbility(weapon, overlord(1))),
            PromptAction::EncounterAction(EncounterAction::NoWeapon),
        ]
    );

    let mut retreating = game_with_defenders();
    raid_on(&mut retreating, RaidPhase::Continue(0));
    assert_eq!(continue_action(&mut retreating, Side::Champion, ContinueAction::Retreat, FREE, &vec![], 3), Ok(None));
    assert_eq!(retreating.data().raid, None);
}
