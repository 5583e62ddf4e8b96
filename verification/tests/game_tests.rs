use spelldawn::raid::DefenderCost;
use spelldawn::card_definition::{CardStats, SchemePoints};
use spelldawn::game_actions::{Prompt, PromptAction};
use spelldawn::actions::{self, handle_mulligan_decision, spend_action_point_action};
use spelldawn::card_state::{CardPosition, CardPositionTypes, CardState};
use spelldawn::errors::RulesError;
use spelldawn::flags;
use spelldawn::game::{DelegateEvent, GameOverData, GamePhase, GameState, GameUpdate, MulliganDecision};
use spelldawn::delegates::CardMoved;
use spelldawn::mutations::{self, OnEmpty};
use spelldawn::primitives::{CardId, CardName, ItemLocation, RoomId, RoomLocation, Side};
use spelldawn::queries;

fn deck(n: u32) -> Vec<CardName> {
    (0..n).map(CardName).collect()
}

fn new_game(overlord: u32, champion: u32) -> GameState {
    GameState::new_game("g".to_string(), deck(overlord), deck(champion))
}

#[test]
fn new_game_deals_decks() {
    let game = new_game(3, 2);
    assert_eq!(game.id(), "g");
    assert_eq!(game.deck(Side::Overlord).len(), 3);
    assert_eq!(game.deck(Side::Champion), vec![CardId::new(Side::Champion, 0), CardId::new(Side::Champion, 1)]);
    assert!(game.hand(Side::Overlord).is_empty());
    assert_eq!(game.card_ids().len(), 5);
    assert_eq!(game.card_ids()[3], CardId::new(Side::Champion, 0));
    let card = game.card(CardId::new(Side::Overlord, 2));
    assert_eq!(card.name(), CardName(2));
    assert_eq!(card.position(), CardPosition::Deck(Side::Overlord));
    assert!(card.is_face_down());
    assert!(!game.modified());
    assert_eq!(game.data().turn, Side::Overlord);
    assert_eq!(game.data().turn_number, 1);
    assert!(flags::can_make_mulligan_decision(&game, Side::Overlord));
}

#[test]
fn card_state_tracks_modifications() {
    let mut card = CardState::new(CardId::new(Side::Champion, 0), CardName(9), CardPosition::Hand(Side::Champion));
    assert!(!card.position_modified());
    card.move_to(CardPosition::ArenaItem(ItemLocation::Weapons));
    assert!(card.position_modified());
    assert!(card.position().in_play());
    card.data_mut().stored_mana = 3;
    assert!(card.data_modified());
    assert_eq!(card.data().stored_mana, 3);
    card.clear_modified_flags();
    assert!(!card.position_modified());
    assert!(!card.data_modified());
    assert_eq!(card.data().stored_mana, 3);
}

#[test]
fn position_kinds() {
    assert!(CardPosition::Room(RoomId::RoomA, RoomLocation::InRoom).in_play());
    assert!(!CardPosition::Hand(Side::Overlord).in_play());
    assert!(CardPosition::Deck(Side::Overlord).in_deck());
    assert!(CardPosition::DiscardPile(Side::Champion).in_discard_pile());
    assert!(CardPosition::Scored(Side::Champion).in_score_pile());
    assert_eq!(CardPosition::Scored(Side::Champion).kind(), CardPositionTypes::Scored);
}

#[test]
fn draw_cards_moves_cards_to_hand() {
    let mut game = new_game(6, 6);
    let drawn = mutations::draw_cards(&mut game, Side::Champion, 4);
    assert_eq!(drawn.len(), 4);
    assert_eq!(game.hand(Side::Champion).len(), 4);
    assert_eq!(game.deck(Side::Champion).len(), 2);
    for id in &drawn {
        assert_eq!(game.card(*id).position(), CardPosition::Hand(Side::Champion));
        assert!(game.card(*id).is_revealed_to(Side::Champion));
        assert!(!game.card(*id).is_revealed_to(Side::Overlord));
    }
}

#[test]
fn drawing_from_a_short_deck_loses_the_game() {
    let mut game = new_game(2, 2);
    let drawn = mutations::draw_cards(&mut game, Side::Overlord, 3);
    assert!(drawn.is_empty());
    assert_eq!(game.data().phase, GamePhase::GameOver(GameOverData { winner: Side::Champion }));
    assert_eq!(game.deck(Side::Overlord).len(), 2);
}

#[test]
fn opening_hands_and_mulligans_start_the_game() {
    let mut game = new_game(10, 10);
    mutations::deal_opening_hands(&mut game);
    assert_eq!(game.hand(Side::Overlord).len(), 5);
    assert_eq!(game.hand(Side::Champion).len(), 5);
    assert_eq!(game.player(Side::Overlord).prompt.as_ref().unwrap().responses.len(), 2);
    let started = handle_mulligan_decision(&mut game, Side::Overlord, MulliganDecision::Keep, 3);
    assert!(started.unwrap().is_none());
    assert_eq!(
        handle_mulligan_decision(&mut game, Side::Overlord, MulliganDecision::Keep, 3),
        Err(RulesError::IllegalAction)
    );
    let started = handle_mulligan_decision(&mut game, Side::Champion, MulliganDecision::Mulligan, 3).unwrap();
    assert_eq!(started.unwrap().len(), 1);
    assert_eq!(game.data().phase, GamePhase::Play);
    assert_eq!(game.data().turn, Side::Overlord);
    assert_eq!(game.player(Side::Overlord).mana, 5);
    assert_eq!(game.player(Side::Champion).mana, 5);
    assert_eq!(game.player(Side::Overlord).actions, 3);
    assert_eq!(game.hand(Side::Overlord).len(), 6);
    assert_eq!(game.hand(Side::Champion).len(), 5);
    assert_eq!(game.deck(Side::Champion).len(), 5);
    assert!(queries::in_main_phase(&game, Side::Overlord));
    assert!(!queries::in_main_phase(&game, Side::Champion));
}

#[test]
fn spending_the_last_action_point_ends_the_turn() {
    let mut game = new_game(10, 10);
    mutations::deal_opening_hands(&mut game);
    handle_mulligan_decision(&mut game, Side::Overlord, MulliganDecision::Keep, 2).unwrap();
    handle_mulligan_decision(&mut game, Side::Champion, MulliganDecision::Keep, 2).unwrap();
    assert_eq!(spend_action_point_action(&mut game, Side::Champion, 4), Err(RulesError::IllegalAction));
    assert_eq!(spend_action_point_action(&mut game, Side::Overlord, 4), Ok(None));
    let drawn = spend_action_point_action(&mut game, Side::Overlord, 4).unwrap().unwrap();
    assert_eq!(drawn.len(), 1);
    assert_eq!(game.data().turn, Side::Champion);
    assert_eq!(game.data().turn_number, 1);
    assert_eq!(game.player(Side::Champion).actions, 4);
    assert_eq!(game.hand(Side::Champion).len(), 6);
    for _ in 0..3 {
        assert_eq!(spend_action_point_action(&mut game, Side::Champion, 3), Ok(None));
    }
    assert!(spend_action_point_action(&mut game, Side::Champion, 3).unwrap().is_some());
    assert_eq!(game.data().turn, Side::Overlord);
    assert_eq!(game.data().turn_number, 2);
}

#[test]
fn scoring_seven_points_wins() {
    let mut game = new_game(1, 1);
    mutations::score_points(&mut game, Side::Champion, 4);
    assert_ne!(game.data().phase, GamePhase::GameOver(GameOverData { winner: Side::Champion }));
    mutations::score_points(&mut game, Side::Champion, 3);
    assert_eq!(game.player(Side::Champion).score, 7);
    assert_eq!(game.data().phase, GamePhase::GameOver(GameOverData { winner: Side::Champion }));
}

#[test]
fn taking_stored_mana() {
    let mut game = new_game(2, 1);
    let card = CardId::new(Side::Overlord, 1);
    mutations::move_card(&mut game, card, CardPosition::Room(RoomId::RoomB, RoomLocation::InRoom));
    assert_eq!(spelldawn::helpers::add_stored_mana(&mut game, card, 5), 5);
    assert_eq!(mutations::take_stored_mana(&mut game, card, 3, OnEmpty::MoveToDiscard), 3);
    assert_eq!(game.player(Side::Overlord).mana, 3);
    assert_eq!(game.card(card).data().stored_mana, 2);
    assert!(game.card(card).position().in_play());
    assert_eq!(mutations::take_stored_mana(&mut game, card, 3, OnEmpty::MoveToDiscard), 2);
    assert_eq!(game.player(Side::Overlord).mana, 5);
    assert_eq!(game.card(card).position(), CardPosition::DiscardPile(Side::Overlord));
}

#[test]
fn stored_mana_stays_when_ignored() {
    let mut game = new_game(1, 1);
    let card = CardId::new(Side::Overlord, 0);
    mutations::move_card(&mut game, card, CardPosition::Room(RoomId::RoomB, RoomLocation::InRoom));
    spelldawn::helpers::add_stored_mana(&mut game, card, 2);
    assert_eq!(mutations::take_stored_mana(&mut game, card, 9, OnEmpty::Ignore), 2);
    assert!(game.card(card).position().in_play());
}

#[test]
fn leaving_play_clears_counters() {
    let mut game = new_game(1, 1);
    let card = CardId::new(Side::Overlord, 0);
    mutations::move_card(&mut game, card, CardPosition::Room(RoomId::RoomB, RoomLocation::InRoom));
    spelldawn::helpers::add_stored_mana(&mut game, card, 2);
    mutations::move_card(&mut game, card, CardPosition::Hand(Side::Overlord));
    assert_eq!(game.card(card).data().stored_mana, 0);
}

#[test]
fn shuffle_into_deck_hides_cards() {
    let mut game = new_game(5, 5);
    let drawn = mutations::draw_cards(&mut game, Side::Champion, 2);
    mutations::turn_face_up(&mut game, drawn[0]);
    mutations::shuffle_into_deck(&mut game, Side::Champion, &drawn);
    assert_eq!(game.deck(Side::Champion).len(), 5);
    for id in &drawn {
        assert!(game.card(*id).is_face_down());
        assert!(!game.card(*id).is_revealed_to(Side::Champion));
        assert!(!game.card(*id).is_revealed_to(Side::Overlord));
    }
}

#[test]
fn action_points() {
    let mut game = new_game(1, 1);
    game.player_mut(Side::Champion).actions = 2;
    mutations::spend_action_points(&mut game, Side::Champion, 2);
    assert_eq!(game.player(Side::Champion).actions, 0);
    mutations::lose_action_point_if_able(&mut game, Side::Champion, 1);
    assert_eq!(game.player(Side::Champion).actions, 0);
}

#[test]
fn random_card_picks_a_card_of_the_game() {
    let mut game = new_game(2, 3);
    // Every card is in a deck: none is in a hand.
    assert_eq!(game.random_card(CardPosition::Hand(Side::Champion)), None);
    let chosen = game.random_card(CardPosition::Deck(Side::Champion)).unwrap();
    assert_eq!(chosen.side, Side::Champion);
    assert_eq!(game.card(chosen).position(), CardPosition::Deck(Side::Champion));
    mutations::move_card(&mut game, CardId::new(Side::Overlord, 1), CardPosition::Hand(Side::Overlord));
    assert_eq!(game.random_card(CardPosition::Hand(Side::Overlord)), Some(CardId::new(Side::Overlord, 1)));
    let mut empty = new_game(0, 0);
    assert_eq!(empty.random_card(CardPosition::Hand(Side::Champion)), None);
}

#[test]
fn ending_a_raid_can_end_the_champions_turn() {
    let mut game = new_game(10, 10);
    mutations::deal_opening_hands(&mut game);
    handle_mulligan_decision(&mut game, Side::Overlord, MulliganDecision::Keep, 1).unwrap();
    handle_mulligan_decision(&mut game, Side::Champion, MulliganDecision::Keep, 1).unwrap();
    assert!(spend_action_point_action(&mut game, Side::Overlord, 1).unwrap().is_some());
    assert_eq!(game.data().turn, Side::Champion);
    game.data_mut().raid = Some(spelldawn::game::RaidState {
        raid_id: spelldawn::primitives::RaidId(1),
        encounter_number: 0,
        priority: Side::Champion,
        target: RoomId::RoomA,
        phase: spelldawn::game::RaidPhase::Access,
        room_active: false,
    });
    // The Champion's last action point is spent during the raid: the turn waits for the raid.
    assert_eq!(spend_action_point_action(&mut game, Side::Champion, 5), Err(RulesError::IllegalAction));
    mutations::spend_action_points(&mut game, Side::Champion, 1);
    assert_eq!(mutations::check_end_turn(&mut game, Side::Champion, 5), None);
    assert_eq!(game.data().turn, Side::Champion);
    let drawn = spelldawn::raid_actions::raid_end_action(&mut game, Side::Champion, 5).unwrap();
    assert_eq!(drawn.map(|d| d.len()), Some(1));
    assert_eq!(game.data().turn, Side::Overlord);
    assert_eq!(game.data().turn_number, 2);
    assert_eq!(game.player(Side::Overlord).actions, 5);
}

#[test]
fn moving_several_cards() {
    let mut game = new_game(4, 1);
    let ids = vec![CardId::new(Side::Overlord, 1), CardId::new(Side::Overlord, 3), CardId::new(Side::Overlord, 1)];
    mutations::move_cards(&mut game, &ids, CardPosition::DiscardPile(Side::Overlord));
    assert_eq!(game.discard_pile(Side::Overlord), vec![CardId::new(Side::Overlord, 1), CardId::new(Side::Overlord, 3)]);
    assert_eq!(game.deck(Side::Overlord), vec![CardId::new(Side::Overlord, 0), CardId::new(Side::Overlord, 2)]);
}

#[test]
fn moves_send_updates_and_raise_events() {
    let mut game = new_game(3, 1);
    let card = CardId::new(Side::Overlord, 0);
    mutations::move_card(&mut game, card, CardPosition::Hand(Side::Overlord));
    assert_eq!(game.updates(), &vec![GameUpdate::DrawCard(card)]);
    let events = game.take_events();
    assert_eq!(
        events,
        vec![
            DelegateEvent::MoveCard(CardMoved {
                old_position: CardPosition::Deck(Side::Overlord),
                new_position: CardPosition::Hand(Side::Overlord),
            }),
            DelegateEvent::DrawCard(card),
        ]
    );
    assert!(game.take_events().is_empty());
    mutations::move_card(&mut game, card, CardPosition::DiscardPile(Side::Overlord));
    assert_eq!(game.updates(), &vec![GameUpdate::DrawCard(card), GameUpdate::MoveToZone(card)]);
    mutations::move_card(&mut game, card, CardPosition::Deck(Side::Overlord));
    assert_eq!(game.updates()[2], GameUpdate::ShuffleIntoDeck(card));
    mutations::turn_face_up(&mut game, card);
    assert_eq!(game.updates()[3], GameUpdate::RevealToOpponent(card));
}

#[test]
fn winning_sends_game_over() {
    let mut game = new_game(1, 1);
    mutations::score_points(&mut game, Side::Overlord, 6);
    assert!(game.updates().is_empty());
    mutations::score_points(&mut game, Side::Overlord, 1);
    assert_eq!(game.updates(), &vec![GameUpdate::GameOver(Side::Overlord)]);
    let mut short = new_game(1, 1);
    assert!(mutations::draw_cards(&mut short, Side::Champion, 2).is_empty());
    assert_eq!(short.updates(), &vec![GameUpdate::GameOver(Side::Overlord)]);
}

#[test]
fn starting_a_turn_raises_dusk_or_dawn() {
    let mut game = new_game(10, 10);
    mutations::deal_opening_hands(&mut game);
    handle_mulligan_decision(&mut game, Side::Overlord, MulliganDecision::Keep, 1).unwrap();
    game.take_events();
    handle_mulligan_decision(&mut game, Side::Champion, MulliganDecision::Keep, 1).unwrap();
    let events = game.take_events();
    assert_eq!(events[0], DelegateEvent::Dusk(1));
    assert_eq!(events.len(), 3);
    assert!(game.updates().contains(&GameUpdate::StartTurn(Side::Overlord)));
    let drawn = spend_action_point_action(&mut game, Side::Overlord, 2).unwrap().unwrap();
    let events = game.take_events();
    assert_eq!(events[0], DelegateEvent::Dawn(1));
    assert_eq!(events[2], DelegateEvent::DrawCard(drawn[0]));
}

#[test]
fn gaining_mana_and_drawing_as_actions() {
    let mut game = new_game(10, 10);
    mutations::deal_opening_hands(&mut game);
    handle_mulligan_decision(&mut game, Side::Overlord, MulliganDecision::Keep, 3).unwrap();
    handle_mulligan_decision(&mut game, Side::Champion, MulliganDecision::Keep, 3).unwrap();
    assert!(flags::can_take_gain_mana_action(&game, Side::Overlord));
    assert!(!flags::can_take_gain_mana_action(&game, Side::Champion));
    assert_eq!(actions::gain_mana_action(&mut game, Side::Champion, 3), Err(RulesError::IllegalAction));
    let mana = game.player(Side::Overlord).mana;
    assert_eq!(actions::gain_mana_action(&mut game, Side::Overlord, 3), Ok(None));
    assert_eq!(game.player(Side::Overlord).mana, mana + 1);
    assert_eq!(game.player(Side::Overlord).actions, 2);
    let hand = game.hand(Side::Overlord).len();
    assert!(flags::can_take_draw_card_action(&game, Side::Overlord));
    assert_eq!(actions::draw_card_action(&mut game, Side::Overlord, 3), Ok(None));
    assert_eq!(game.hand(Side::Overlord).len(), hand + 1);
    let started = actions::draw_card_action(&mut game, Side::Overlord, 3).unwrap();
    assert!(started.is_some());
    assert_eq!(game.data().turn, Side::Champion);
}

#[test]
fn prompt_responses_are_checked_and_clear_the_prompt() {
    let mut game = new_game(5, 5);
    let keep = PromptAction::MulliganDecision(MulliganDecision::Keep);
    let mulligan = PromptAction::MulliganDecision(MulliganDecision::Mulligan);
    assert_eq!(actions::take_prompt_response(&mut game, Side::Champion, keep), Err(RulesError::IllegalAction));
    mutations::set_prompt(&mut game, Side::Champion, Prompt { context: None, responses: vec![keep] });
    assert_eq!(
        actions::take_prompt_response(&mut game, Side::Champion, mulligan),
        Err(RulesError::IllegalAction)
    );
    assert!(game.player(Side::Champion).prompt.is_some());
    assert_eq!(actions::take_prompt_response(&mut game, Side::Overlord, keep), Err(RulesError::IllegalAction));
    assert_eq!(actions::take_prompt_response(&mut game, Side::Champion, keep), Ok(()));
    assert!(game.player(Side::Champion).prompt.is_none());
    assert_eq!(actions::take_prompt_response(&mut game, Side::Champion, keep), Err(RulesError::IllegalAction));
}

fn scheme(level_requirement: u32, points: u32) -> CardStats {
    CardStats { can_level_up: true, scheme_points: Some(SchemePoints { level_requirement, points }), ..CardStats::default() }
}

#[test]
fn leveling_up_a_room_scores_schemes() {
    let mut game = new_game(5, 5);
    let room = CardPosition::Room(RoomId::RoomA, RoomLocation::InRoom);
    let a = CardId { side: Side::Overlord, index: 0 };
    let b = CardId { side: Side::Overlord, index: 1 };
    let c = CardId { side: Side::Overlord, index: 2 };
    for id in [a, b, c] {
        mutations::move_card(&mut game, id, room);
    }
    let stats = vec![scheme(2, 3), scheme(1, 4), CardStats::default()];
    game.take_events();
    let updates_before = game.updates().len();
    mutations::level_up_room(&mut game, RoomId::RoomA, &stats);
    assert_eq!(game.card(a).data().card_level, 1);
    assert_eq!(game.card(a).position(), room);
    assert_eq!(game.card(b).position(), CardPosition::Scored(Side::Overlord));
    assert!(game.card(b).is_face_up());
    assert_eq!(game.card(b).data().card_level, 0);
    assert_eq!(game.card(c).data().card_level, 0);
    assert_eq!(game.card(c).position(), room);
    assert_eq!(game.player(Side::Overlord).score, 4);
    assert_eq!(
        game.updates()[updates_before..].to_vec(),
        vec![GameUpdate::RevealToOpponent(b), GameUpdate::OverlordScoreCard(b, 4)]
    );
    assert_eq!(
        game.take_events(),
        vec![
            DelegateEvent::MoveCard(CardMoved {
                old_position: room,
                new_position: CardPosition::Scored(Side::Overlord)
            }),
            DelegateEvent::OverlordScoreCard(b),
        ]
    );
    mutations::level_up_room(&mut game, RoomId::RoomA, &vec![scheme(2, 3), CardStats::default()]);
    assert_eq!(game.card(a).position(), CardPosition::Scored(Side::Overlord));
    assert_eq!(game.player(Side::Overlord).score, 7);
    assert_eq!(game.data().phase, GamePhase::GameOver(GameOverData { winner: Side::Overlord }));
    assert_eq!(game.updates().last(), Some(&GameUpdate::GameOver(Side::Overlord)));
}

#[test]
fn level_up_room_action_spends_an_action_and_a_mana() {
    let mut game = new_game(10, 10);
    mutations::deal_opening_hands(&mut game);
    handle_mulligan_decision(&mut game, Side::Overlord, MulliganDecision::Keep, 3).unwrap();
    handle_mulligan_decision(&mut game, Side::Champion, MulliganDecision::Keep, 4).unwrap();
    let card = game.hand(Side::Overlord)[0];
    mutations::move_card(&mut game, card, CardPosition::Room(RoomId::RoomB, RoomLocation::InRoom));
    let stats = vec![scheme(3, 2)];
    game.player_mut(Side::Overlord).mana = 0;
    assert!(!flags::can_take_level_up_room_action(&game, Side::Overlord, RoomId::RoomB, &stats));
    assert_eq!(
        actions::level_up_room_action(&mut game, Side::Overlord, RoomId::RoomB, &stats, 4),
        Err(RulesError::IllegalAction)
    );
    game.player_mut(Side::Overlord).mana = 2;
    assert!(!flags::can_take_level_up_room_action(&game, Side::Overlord, RoomId::RoomB, &vec![CardStats::default()]));
    assert!(!flags::can_take_level_up_room_action(&game, Side::Champion, RoomId::RoomB, &stats));
    assert!(flags::can_take_level_up_room_action(&game, Side::Overlord, RoomId::RoomB, &stats));
    assert_eq!(actions::level_up_room_action(&mut game, Side::Overlord, RoomId::RoomB, &stats, 4), Ok(None));
    assert_eq!(game.card(card).data().card_level, 1);
    assert_eq!(game.player(Side::Overlord).mana, 1);
    assert_eq!(game.player(Side::Overlord).actions, 3);
}

#[test]
fn unveiling_pays_the_cost_and_turns_the_card_face_up() {
    let mut game = new_game(5, 5);
    let card = CardId { side: Side::Overlord, index: 0 };
    let free = DefenderCost { mana: None, custom_cost_payable: None };
    assert!(!mutations::unveil_card(&mut game, card, free));
    mutations::move_card(&mut game, card, CardPosition::Room(RoomId::RoomC, RoomLocation::InRoom));
    game.player_mut(Side::Overlord).mana = 3;
    assert!(!mutations::unveil_card(&mut game, card, DefenderCost { mana: Some(4), custom_cost_payable: None }));
    assert!(!mutations::unveil_card(&mut game, card, DefenderCost { mana: Some(1), custom_cost_payable: Some(false) }));
    assert!(!game.card(card).is_face_up());
    assert_eq!(game.player(Side::Overlord).mana, 3);
    let updates_before = game.updates().len();
    assert!(mutations::unveil_card(&mut game, card, DefenderCost { mana: Some(2), custom_cost_payable: Some(true) }));
    assert!(game.card(card).is_face_up());
    assert_eq!(game.player(Side::Overlord).mana, 1);
    assert_eq!(game.updates()[updates_before..].to_vec(), vec![GameUpdate::RevealToOpponent(card)]);
    assert!(!mutations::unveil_card(&mut game, card, free));
}
