use spelldawn::text::decimal;
use spelldawn::display::card_views::{ability_card_view, CardPrefab};
use spelldawn::game::GameState;
use spelldawn::primitives::{AbilityId, AbilityIndex, SpriteAddress};
use spelldawn::protos::PlayerName;
use spelldawn::card_definition::{AbilityType, Cost, DamageWord, Keyword, NumericOperator, Sentence, TextToken};
use spelldawn::card_state::{CardPosition, CardState};
use spelldawn::display::assets::CardIconType;
use spelldawn::display::card_icons::card_icons;
use spelldawn::display::prompts::{
    action_prompt, card_response_button, encounter_action_button, prompt_layout, response_button,
    ResponseButton, WeaponInfo,
};
use spelldawn::game_actions::{AccessPhaseAction, CardPromptAction, EncounterAction, PromptAction};
use spelldawn::display::rules_text::{
    find_keywords, process_keywords, process_text_tokens, KeywordKind, TextIcons,
};
use spelldawn::game_actions::PromptContext;
use spelldawn::primitives::{CardId, CardName, Side};

fn icons() -> TextIcons {
    TextIcons {
        mana: "M".to_string(),
        action: "A".to_string(),
        trigger: "T".to_string(),
        arrow: ">".to_string(),
        non_breaking_space: "_".to_string(),
    }
}

#[test]
fn tokens_become_rules_text() {
    let tokens = vec![
        TextToken::Keyword(Keyword::Play),
        TextToken::Keyword(Keyword::Store(Sentence::Start, 3)),
        TextToken::Literal(".".to_string()),
    ];
    assert_eq!(process_text_tokens(&tokens, &icons()), "<b>\u{f0e7}Play:</b> <b>Store</b>_3M.");
    let tokens = vec![
        TextToken::Cost(vec![TextToken::Actions(1)]),
        TextToken::Keyword(Keyword::Take(Sentence::Internal, 2)),
        TextToken::Literal(",".to_string()),
        TextToken::Number(NumericOperator::Add, 4),
        TextToken::Mana(5),
        TextToken::Reminder("later".to_string()),
    ];
    assert_eq!(process_text_tokens(&tokens, &icons()), "1A:  take_2M, +4 5M <i>later</i>");
    assert_eq!(process_text_tokens(&vec![], &icons()), "");
    assert_eq!(
        process_text_tokens(&vec![TextToken::Keyword(Keyword::Score), TextToken::Keyword(Keyword::Breach(2))], &icons()),
        "<b>TScore:</b> <b>Breach</b>_2"
    );
}

#[test]
fn keywords_are_explained_once_in_order() {
    let mut keywords = vec![KeywordKind::Store, KeywordKind::Play, KeywordKind::Store];
    let mut output = vec!["type".to_string()];
    process_keywords(&mut keywords, &mut output, &icons());
    assert_eq!(keywords, vec![KeywordKind::Play, KeywordKind::Store]);
    assert_eq!(
        output,
        vec![
            "type".to_string(),
            "<b>Play:</b> Triggers when this card enters the arena.".to_string(),
            "<b>Store:</b> Place M on this card to take later.".to_string(),
        ]
    );
    let mut found = vec![];
    find_keywords(
        &vec![TextToken::Literal("x".to_string()), TextToken::Keyword(Keyword::Take(Sentence::Start, 1))],
        &mut found,
    );
    assert_eq!(found, vec![KeywordKind::Store]);
}

#[test]
fn hidden_cards_show_no_stats() {
    let card = CardState::new(CardId::new(Side::Overlord, 0), CardName(1), CardPosition::Deck(Side::Overlord));
    let hidden = card_icons(&card, false, Some(3), Some(1), Some(2), Some(4));
    assert!(hidden.top_left_icon.is_none());
    assert!(hidden.bottom_left_icon.is_none());
    assert!(hidden.bottom_right_icon.is_none());
    assert!(hidden.arena_icon.is_none());
    let shown = card_icons(&card, true, Some(3), Some(1), None, Some(4));
    let cost = shown.top_left_icon.unwrap();
    assert_eq!(cost.icon_type, CardIconType::Mana);
    assert_eq!(cost.text, "3");
    assert_eq!(shown.bottom_left_icon.unwrap().text, "1");
    let health = shown.bottom_right_icon.unwrap();
    assert_eq!(health.icon_type, CardIconType::Health);
    assert_eq!(health.text, "4");
    let attack = card_icons(&card, true, None, None, Some(2), Some(4)).bottom_right_icon.unwrap();
    assert_eq!(attack.icon_type, CardIconType::Attack);
}

#[test]
fn prompt_buttons_anchor_to_their_cards() {
    let mut under_card = ResponseButton::default();
    under_card.label = "Score".to_string();
    under_card.anchor_to_card = Some(CardId::new(Side::Overlord, 2));
    let mut plain = ResponseButton::default();
    plain.label = "End Raid".to_string();
    let layout = prompt_layout(Some(PromptContext::RaidAdvance), vec![under_card, plain]);
    assert_eq!(layout.label, Some("Continue?".to_string()));
    assert_eq!(layout.main_buttons.len(), 1);
    assert_eq!(layout.main_buttons[0].label, "End Raid");
    assert_eq!(layout.anchored.len(), 1);
    assert_eq!(layout.anchored[0].card_id, CardId::new(Side::Overlord, 2));
    assert_eq!(layout.anchored[0].button.label, "Score");
    assert_eq!(prompt_layout(None, vec![]).label, None);
}

#[test]
fn ability_cards_are_token_cards() {
    let game = GameState::new_game("g".to_string(), vec![CardName(1), CardName(2)], vec![]);
    let ability = AbilityId { card_id: CardId::new(Side::Overlord, 1), index: AbilityIndex(2) };
    let view = ability_card_view(
        &game,
        ability,
        Side::Champion,
        AbilityType::Activated(Cost { mana: 3, actions: 1 }),
        true,
        true,
        "Gain 1M.".to_string(),
        SpriteAddress("img".to_string()),
        "Gold Mine",
    );
    assert_eq!(view.prefab, CardPrefab::TokenCard);
    assert_eq!(view.card_id.unwrap().ability_id, Some(2));
    assert_eq!(view.card_id.unwrap().index, 1);
    assert_eq!(view.owning_player, PlayerName::Opponent);
    assert_eq!(view.card_icons.unwrap().top_left_icon.unwrap().text, "3");
    let revealed = view.revealed_card.unwrap();
    assert_eq!(revealed.title, Some("Use Gold Mine".to_string()));
    assert!(revealed.can_play);
    assert_eq!(revealed.release_into_card.unwrap().ability_id, None);
    let free = ability_card_view(
        &game,
        ability,
        Side::Overlord,
        AbilityType::Standard,
        false,
        true,
        String::new(),
        SpriteAddress("i".to_string()),
        "X",
    );
    assert!(free.card_icons.is_none());
    assert!(!free.revealed_card.unwrap().can_play);
    assert_eq!(free.owning_player, PlayerName::User);
}

fn no_weapon() -> WeaponInfo {
    WeaponInfo { name: String::new(), cost_to_defeat: None }
}

#[test]
fn card_prompt_buttons() {
    let pay = card_response_button(Side::Champion, CardPromptAction::LoseMana(Side::Champion, 2), &icons());
    assert_eq!(pay.label, "Pay 2M");
    assert!(pay.primary);
    let lose = card_response_button(Side::Champion, CardPromptAction::LoseActions(Side::Overlord, 1), &icons());
    assert_eq!(lose.label, "Lose A");
    let lose_two = card_response_button(Side::Overlord, CardPromptAction::LoseActions(Side::Overlord, 2), &icons());
    assert_eq!(lose_two.label, "Pay 2A");
    let ability = spelldawn::primitives::AbilityId { card_id: CardId::new(Side::Overlord, 0), index: spelldawn::primitives::AbilityIndex(0) };
    assert_eq!(card_response_button(Side::Champion, CardPromptAction::TakeDamage(ability, 3), &icons()).label, "Take 3");
    assert_eq!(
        card_response_button(Side::Champion, CardPromptAction::TakeDamageEndRaid(ability, 1), &icons()).label,
        "End Raid, Take 1"
    );
}

#[test]
fn weapon_buttons_show_their_cost() {
    let weapon = CardId::new(Side::Champion, 0);
    let minion = CardId::new(Side::Overlord, 0);
    let action = EncounterAction::UseWeaponAbility(weapon, minion);
    let paid = encounter_action_button(
        Side::Champion,
        action,
        &icons(),
        &WeaponInfo { name: "Sword".to_string(), cost_to_defeat: Some(2) },
    );
    assert_eq!(paid.label, "Sword\n2M");
    assert!(paid.two_lines);
    let free = encounter_action_button(
        Side::Champion,
        action,
        &icons(),
        &WeaponInfo { name: "Sword".to_string(), cost_to_defeat: Some(0) },
    );
    assert_eq!(free.label, "Sword");
    assert!(free.two_lines);
    let unknown = encounter_action_button(Side::Champion, action, &icons(), &WeaponInfo { name: "Sword".to_string(), cost_to_defeat: None });
    assert!(!unknown.two_lines);
    let skip = encounter_action_button(Side::Champion, EncounterAction::NoWeapon, &icons(), &no_weapon());
    assert_eq!(skip.label, "Continue");
    assert!(!skip.primary);
}

#[test]
fn score_responses_anchor_to_their_cards() {
    let scheme = CardId::new(Side::Overlord, 4);
    let score = PromptAction::AccessPhaseAction(AccessPhaseAction::ScoreCard(scheme));
    let end = PromptAction::AccessPhaseAction(AccessPhaseAction::EndRaid);
    let button = response_button(Side::Champion, score, &icons(), &no_weapon());
    assert_eq!(button.anchor_to_card, Some(scheme));
    assert_eq!(button.action, Some(score));
    let end_button = response_button(Side::Champion, end, &icons(), &no_weapon());
    assert!(!end_button.primary);
    assert!(end_button.shift_down);
    assert_eq!(end_button.label, "End Raid");
    let layout = action_prompt(Side::Champion, None, &vec![score, end], &icons(), &vec![no_weapon(), no_weapon()]);
    assert_eq!(layout.label, None);
    assert_eq!(layout.anchored.len(), 1);
    assert_eq!(layout.anchored[0].card_id, scheme);
    assert_eq!(layout.main_buttons.len(), 1);
    assert_eq!(layout.main_buttons[0].action, Some(end));
}

#[test]
fn damage_reads_with_its_type() {
    let tokens = vec![
        TextToken::Keyword(Keyword::Combat),
        TextToken::Keyword(Keyword::DealDamage(DamageWord::DealStart, 2, "fire".to_string())),
        TextToken::Literal("damage.".to_string()),
    ];
    assert_eq!(process_text_tokens(&tokens, &icons()), "<b>TCombat:</b> Deal 2 fire damage.");
    let mut found = vec![];
    find_keywords(&tokens, &mut found);
    assert_eq!(found, vec![KeywordKind::Combat, KeywordKind::DealDamage]);
}

#[test]
fn rules_text_of_two_lists_joins_with_a_space() {
    let x = vec![TextToken::Literal("Gain".to_string()), TextToken::Mana(1)];
    let y = vec![TextToken::Keyword(Keyword::Unveil)];
    let both: Vec<TextToken> = vec![TextToken::Literal("Gain".to_string()), TextToken::Mana(1), TextToken::Keyword(Keyword::Unveil)];
    assert_eq!(
        process_text_tokens(&both, &icons()),
        format!("{} {}", process_text_tokens(&x, &icons()), process_text_tokens(&y, &icons()))
    );
}

#[test]
fn decimal_digits_without_leading_zeros() {
    assert_eq!(decimal(0), "0");
    assert_eq!(decimal(7), "7");
    assert_eq!(decimal(10), "10");
    assert_eq!(decimal(305), "305");
    assert_eq!(decimal(u32::MAX), "4294967295");
}
