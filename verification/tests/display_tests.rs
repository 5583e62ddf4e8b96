use spelldawn::diff::{diff_simple, run_diff};
use spelldawn::display::adapters::{
    adapt_card_id, adapt_room_id, adapt_side, to_player_name, to_server_card_id, to_server_side,
};
use spelldawn::display::assets::{self, CardIconType};
use spelldawn::display::prompts::{
    activate_button, advance_action_button, mulligan_button, prompt_context, ResponseButton,
};
use spelldawn::display::rexard_images::{self as rexard, RexardArtifactType, RexardPack, RexardWeaponType};
use spelldawn::display2::rexard_images as rexard2;
use spelldawn::errors::RulesError;
use spelldawn::game::MulliganDecision;
use spelldawn::game_actions::{ContinueAction, PromptContext, RoomActivationAction};
use spelldawn::primitives::{CardId, Rarity, RoomId, School, Side};
use spelldawn::protos::{CardIdentifier, PlayerName, PlayerSide, RoomIdentifier};

#[test]
fn diff_of_equal_values_is_nothing() {
    assert_eq!(diff_simple(&Some(3), &Some(3)), None);
    assert_eq!(diff_simple(&Some(3), &Some(4)), Some(4));
    assert_eq!(diff_simple(&Some(3), &None), None);
    assert_eq!(diff_simple::<u32>(&None, &None), None);
    assert_eq!(diff_simple(&None, &Some("a".to_string())), Some("a".to_string()));
}

#[test]
fn run_diff_cases() {
    let combine = |old: &u32, new: &u32| old * 100 + new;
    assert_eq!(run_diff(Some(&1), None, combine), None);
    assert_eq!(run_diff(None, Some(&2), combine), Some(2));
    assert_eq!(run_diff(Some(&2), Some(&2), combine), None);
    assert_eq!(run_diff(Some(&1), Some(&2), combine), Some(102));
}

#[test]
fn rexard_addresses() {
    assert_eq!(
        rexard::get(RexardPack::MonstersAvatars, "skull").0,
        "Rexard/MonstersAvatarIcons/png/skull.png"
    );
    assert_eq!(
        rexard::weapon(RexardWeaponType::BrassKnuckles, "w_1").0,
        "Rexard/FantasyIconsMegaPack/WeaponsIcons/WeaponsIcons_png/black/brass_knuckles/w_1.png"
    );
    assert_eq!(
        rexard::artifact(RexardArtifactType::Shoulders, "s").0,
        "Rexard/FantasyIconsMegaPack/ArmorIcons/ArmorIcons_png/black/shoulders/s.png"
    );
    assert_eq!(rexard::spell(7, "x").0, "Rexard/SpellBookMegapack/SpellBookPage07/x.png");
    assert_eq!(RexardPack::LootIcons.path(), "FantasyIconsMegaPack/LootIcons/LootIcons_png/black");
    assert_eq!(rexard2::get(rexard2::RexardPack::MonstersAvatars, "a").0, "Rexard/MonstersAvatarIcons/png/a");
    assert_eq!(
        rexard2::get_weapon(rexard2::RexardWeaponType::Axes, "b").0,
        "Rexard/FantasyIconsMegaPack/WeaponsIcons/WeaponsIcons_png/black/axes/b"
    );
}

#[test]
fn decimal_numbers() {
    assert_eq!(rexard::spell(0, "s").0, "Rexard/SpellBookMegapack/SpellBookPage00/s.png");
    assert_eq!(rexard::spell(1203, "s").0, "Rexard/SpellBookMegapack/SpellBookPage01203/s.png");
    assert_eq!(rexard::spell(u32::MAX, "s").0, "Rexard/SpellBookMegapack/SpellBookPage04294967295/s.png");
}

#[test]
fn asset_addresses() {
    assert_eq!(
        assets::card_icon(CardIconType::Mana).0,
        "LittleSweetDaemon/TCG_Card_Fantasy_Design/Icons/Icon_Mana_Color_01"
    );
    assert_eq!(assets::identity_card_frame(Side::Champion).0, "SpriteWay/Icons/Fantasy Player Frames/50003");
    assert_eq!(
        assets::card_back(School::Shadow).0,
        "LittleSweetDaemon/TCG_Card_Fantasy_Design/Backs/Back_Daemon_Style_Color_1"
    );
    assert_eq!(
        assets::card_frame(School::Nature).0,
        "LittleSweetDaemon/TCG_Card_Fantasy_Design/Cards/Card_Elf_Style_Color_1"
    );
    assert_eq!(
        assets::ability_card_frame(Side::Overlord).0,
        "LittleSweetDaemon/TCG_Card_Design/Custom/OverlordFront"
    );
    assert_eq!(
        assets::jewel(Rarity::Epic).0,
        "LittleSweetDaemon/TCG_Card_Fantasy_Design/Jewels/Jewel_Steampunk_Color_02"
    );
    assert_eq!(
        assets::title_background(None).0,
        "LittleSweetDaemon/TCG_Card_Design/Custom/Title/BlackWhiteFaceTape"
    );
}

#[test]
fn prompt_buttons() {
    assert_eq!(prompt_context(Some(PromptContext::ActivateRoom)), Some("Raid:".to_string()));
    assert_eq!(prompt_context(Some(PromptContext::RaidAdvance)), Some("Continue?".to_string()));
    assert_eq!(prompt_context(None), None);
    let keep = mulligan_button(MulliganDecision::Keep);
    assert_eq!((keep.label.as_str(), keep.primary), ("Keep", true));
    let mulligan = mulligan_button(MulliganDecision::Mulligan);
    assert_eq!((mulligan.label.as_str(), mulligan.primary), ("Mulligan", false));
    assert_eq!(activate_button(RoomActivationAction::Pass).label, "Pass");
    assert!(activate_button(RoomActivationAction::Activate).primary);
    assert_eq!(advance_action_button(ContinueAction::Retreat).label, "Retreat");
    assert!(advance_action_button(ContinueAction::Advance).primary);
    let default = ResponseButton::default();
    assert!(default.label.is_empty() && default.primary && !default.two_lines && !default.shift_down);
}

#[test]
fn identifiers_round_trip() {
    let card = CardId::new(Side::Champion, 12);
    let wire = adapt_card_id(card);
    assert_eq!(wire, CardIdentifier { side: 2, index: 12, ability_id: None });
    assert_eq!(to_server_card_id(&Some(wire)), Ok(card));
    assert_eq!(to_server_card_id(&None), Err(RulesError::CardNotFound));
    assert_eq!(
        to_server_card_id(&Some(CardIdentifier { side: 7, index: 0, ability_id: None })),
        Err(RulesError::CardNotFound)
    );
    assert_eq!(to_server_side(Some(adapt_side(Side::Overlord))), Ok(Side::Overlord));
    assert_eq!(to_server_side(Some(PlayerSide::Unspecified)), Err(RulesError::IllegalAction));
    assert_eq!(to_player_name(Side::Overlord, Side::Overlord), PlayerName::User);
    assert_eq!(to_player_name(Side::Overlord, Side::Champion), PlayerName::Opponent);
    assert_eq!(PlayerName::Opponent.code(), 2);
    assert_eq!(adapt_room_id(RoomId::Treasury), RoomIdentifier::Vault);
    assert_eq!(adapt_room_id(RoomId::RoomE), RoomIdentifier::RoomE);
}
