use spelldawn::errors::RulesError;
use spelldawn::game::{GameState, RaidPhase, RaidState};
use spelldawn::mana::{self, ManaPurpose};
use spelldawn::primitives::{CardName, RaidId, RoomId, Side};

fn new_game() -> GameState {
    GameState::new_game("game".to_string(), vec![CardName(1), CardName(2)], vec![CardName(3)])
}

fn start_raid(game: &mut GameState, raid_id: u32) {
    game.data_mut().raid = Some(RaidState {
        raid_id: RaidId(raid_id),
        encounter_number: 0,
        priority: Side::Champion,
        target: RoomId::Sanctum,
        phase: RaidPhase::Begin,
        room_active: false,
    });
}

#[test]
fn gain_then_get() {
    let mut game = new_game();
    mana::gain(&mut game, Side::Champion, 5);
    assert_eq!(mana::get(&game, Side::Champion, ManaPurpose::AllSources), 5);
    assert_eq!(mana::get(&game, Side::Overlord, ManaPurpose::AllSources), 0);
    assert!(game.modified());
}

#[test]
fn spend_insufficient_fails() {
    let mut game = new_game();
    mana::set(&mut game, Side::Overlord, 2);
    assert_eq!(
        mana::spend(&mut game, Side::Overlord, ManaPurpose::AllSources, 3),
        Err(RulesError::InsufficientMana)
    );
    assert_eq!(mana::get(&game, Side::Overlord, ManaPurpose::BaseMana), 2);
}

#[test]
fn spend_exact_amount() {
    let mut game = new_game();
    mana::set(&mut game, Side::Overlord, 4);
    assert_eq!(mana::spend(&mut game, Side::Overlord, ManaPurpose::LevelUpRoom(RoomId::RoomA), 4), Ok(()));
    assert_eq!(mana::get(&game, Side::Overlord, ManaPurpose::AllSources), 0);
}

#[test]
fn raid_mana_counts_only_during_its_raid() {
    let mut game = new_game();
    mana::set(&mut game, Side::Champion, 3);
    mana::add_raid_specific_mana(&mut game, Side::Champion, RaidId(7), 2);
    // No raid in progress: the reserved mana is not available.
    assert_eq!(mana::get(&game, Side::Champion, ManaPurpose::AllSources), 3);
    start_raid(&mut game, 7);
    assert_eq!(mana::get(&game, Side::Champion, ManaPurpose::AllSources), 5);
    assert_eq!(mana::get(&game, Side::Champion, ManaPurpose::BaseMana), 3);
    assert_eq!(mana::get(&game, Side::Champion, ManaPurpose::BonusForDisplay), 2);
    // Another raid: not available.
    start_raid(&mut game, 8);
    assert_eq!(mana::get(&game, Side::Champion, ManaPurpose::AllSources), 3);
}

#[test]
fn raid_mana_is_spent_first() {
    let mut game = new_game();
    mana::set(&mut game, Side::Champion, 3);
    mana::add_raid_specific_mana(&mut game, Side::Champion, RaidId(1), 2);
    start_raid(&mut game, 1);
    assert_eq!(mana::spend(&mut game, Side::Champion, ManaPurpose::AllSources, 4), Ok(()));
    assert_eq!(game.player(Side::Champion).mana, 1);
    assert_eq!(game.player(Side::Champion).specific_raid_mana.unwrap().mana, 0);
    assert_eq!(mana::get(&game, Side::Champion, ManaPurpose::AllSources), 1);
}

#[test]
fn raid_mana_covers_small_payment() {
    let mut game = new_game();
    mana::set(&mut game, Side::Champion, 3);
    mana::add_raid_specific_mana(&mut game, Side::Champion, RaidId(1), 2);
    start_raid(&mut game, 1);
    assert_eq!(mana::spend(&mut game, Side::Champion, ManaPurpose::UseWeapon(spelldawn::primitives::CardId::new(Side::Champion, 0)), 1), Ok(()));
    assert_eq!(game.player(Side::Champion).mana, 3);
    assert_eq!(game.player(Side::Champion).specific_raid_mana.unwrap().mana, 1);
}

#[test]
fn base_mana_purpose_excludes_raid_mana() {
    let mut game = new_game();
    mana::set(&mut game, Side::Champion, 1);
    mana::add_raid_specific_mana(&mut game, Side::Champion, RaidId(1), 5);
    start_raid(&mut game, 1);
    assert_eq!(
        mana::spend(&mut game, Side::Champion, ManaPurpose::BaseMana, 2),
        Err(RulesError::InsufficientMana)
    );
}

#[test]
fn add_raid_mana_accumulates_for_same_raid_and_replaces_for_other() {
    let mut game = new_game();
    mana::add_raid_specific_mana(&mut game, Side::Overlord, RaidId(1), 2);
    mana::add_raid_specific_mana(&mut game, Side::Overlord, RaidId(1), 3);
    let reserved = game.player(Side::Overlord).specific_raid_mana.unwrap();
    assert_eq!((reserved.raid_id, reserved.mana), (RaidId(1), 5));
    mana::add_raid_specific_mana(&mut game, Side::Overlord, RaidId(2), 1);
    let reserved = game.player(Side::Overlord).specific_raid_mana.unwrap();
    assert_eq!((reserved.raid_id, reserved.mana), (RaidId(2), 1));
}

#[test]
fn lose_upto_takes_what_is_there() {
    let mut game = new_game();
    mana::set(&mut game, Side::Overlord, 2);
    mana::lose_upto(&mut game, Side::Overlord, ManaPurpose::PayForTriggeredAbility, 5);
    assert_eq!(mana::get(&game, Side::Overlord, ManaPurpose::AllSources), 0);
    mana::set(&mut game, Side::Overlord, 9);
    mana::lose_upto(&mut game, Side::Overlord, ManaPurpose::PayForTriggeredAbility, 5);
    assert_eq!(mana::get(&game, Side::Overlord, ManaPurpose::AllSources), 4);
}

#[test]
fn gain_then_spend_restores_total() {
    let mut game = new_game();
    mana::set(&mut game, Side::Champion, 6);
    mana::gain(&mut game, Side::Champion, 4);
    assert_eq!(mana::spend(&mut game, Side::Champion, ManaPurpose::AllSources, 4), Ok(()));
    assert_eq!(mana::get(&game, Side::Champion, ManaPurpose::AllSources), 6);
}
