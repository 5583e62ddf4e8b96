//! Changes to the state of a game that the rules make.
use vstd::prelude::*;

use crate::card_state::{CardData, CardPosition, CardPositionTypes, CardState, CardStateView};
use crate::delegates::Scope;
use crate::delegates::CardMoved;
use crate::game::{
    occupant_ids, DelegateEvent, GameUpdate, ids_in_kind, GameData, GameOverData, GamePhase, GameState, GameStateView, MulliganDecision,
    PlayerState,
};
use crate::game_actions::{Prompt, PromptAction, PromptContext};
use crate::mana;
use crate::raid::{DefenderCost, RaidOutcome};
use crate::raid_actions::turned_up;
use crate::card_definition::CardStats;
use crate::primitives::{ActionCount, BoostData, CardId, LevelValue, RoomId, ManaValue, PointsValue, Side, TurnNumber};

verus! {

/// A player who reaches this many points wins the game.
pub const POINTS_TO_WIN: PointsValue = 7;

/// `game` with player `side` having `amount` fewer action points, marked as modified.
pub open spec fn spent_actions(game: GameStateView, side: Side, amount: ActionCount) -> GameStateView {
    (GameStateView { modified: true, ..game }).with_player(
        side,
        PlayerState { actions: (game.player(side).actions - amount) as u32, ..game.player(side) },
    )
}

/// Spends `amount` of the action points of `side`.
pub fn spend_action_points(game: &mut GameState, side: Side, amount: ActionCount)
    requires
        old(game)@.player(side).actions >= amount,
    ensures
        final(game).update_log() == old(game).update_log(),
        final(game).event_log() == old(game).event_log(),
        final(game)@ == spent_actions(old(game)@, side, amount),
{
    let player = game.player_mut(side);
    player.actions = player.actions - amount;
}

/// Spends `amount` action points of `side` if that player has any left.
pub fn lose_action_point_if_able(game: &mut GameState, side: Side, amount: ActionCount)
    requires
        old(game)@.player(side).actions > 0 ==> old(game)@.player(side).actions >= amount,
    ensures
        final(game).update_log() == old(game).update_log(),
        final(game).event_log() == old(game).event_log(),
        old(game)@.player(side).actions > 0 ==> final(game)@ == spent_actions(old(game)@, side, amount),
        old(game)@.player(side).actions == 0 ==> final(game)@ == old(game)@,
{
    if game.player(side).actions > 0 {
        spend_action_points(game, side, amount)
    }
}

/// `game` after `side` scores `amount` points: the score grows, and a score of
/// [POINTS_TO_WIN] or more ends the game with `side` as the winner.
pub open spec fn scored(game: GameStateView, side: Side, amount: PointsValue) -> GameStateView {
    let score = game.player(side).score + amount;
    let with_score = (GameStateView { modified: true, ..game }).with_player(
        side,
        PlayerState { score: score as u32, ..game.player(side) },
    );
    if score >= POINTS_TO_WIN {
        GameStateView {
            data: GameData {
                phase: GamePhase::GameOver(GameOverData { winner: side }),
                ..with_score.data
            },
            ..with_score
        }
    } else {
        with_score
    }
}

/// Gives `side` `amount` points, ending the game if that player reaches [POINTS_TO_WIN].
pub fn score_points(game: &mut GameState, side: Side, amount: PointsValue)
    requires
        old(game)@.player(side).score + amount <= u32::MAX,
    ensures
        final(game)@ == scored(old(game)@, side, amount),
        final(game).update_log() == if old(game)@.player(side).score + amount >= POINTS_TO_WIN {
            old(game).update_log().push(GameUpdate::GameOver(side))
        } else {
            old(game).update_log()
        },
        final(game).event_log() == old(game).event_log(),
{
    let player = game.player_mut(side);
    player.score = player.score + amount;
    if game.player(side).score >= POINTS_TO_WIN {
        game.data_mut().phase = GamePhase::GameOver(GameOverData { winner: side });
        game.push_update(GameUpdate::GameOver(side));
    }
}

/// `card` with its level, stored mana and boost count at zero, its data marked as modified.
pub open spec fn cleared(card: CardStateView) -> CardStateView {
    CardStateView {
        data: CardData { card_level: 0, stored_mana: 0, boost_count: 0, ..card.data },
        data_modified: true,
        ..card
    }
}

/// Resets the counters of a card: its level, its stored mana and its boost count.
pub fn clear_counters(game: &mut GameState, card_id: CardId)
    requires
        old(game)@.has_card(card_id),
    ensures
        final(game)@.has_card(card_id),
        final(game)@.card(card_id) == cleared(old(game)@.card(card_id)),
        final(game)@ == old(game)@.with_card(card_id, final(game)@.cards(card_id.side)[card_id.index as int]),
        final(game).update_log() == old(game).update_log(),
        final(game).event_log() == old(game).event_log(),
{
    let card = game.card_mut(card_id);
    let data = card.data_mut();
    data.card_level = 0;
    data.stored_mana = 0;
    data.boost_count = 0;
}

/// The state of a card once moved to `new_position`: a card that leaves play loses its counters.
pub open spec fn moved_to(card: CardStateView, new_position: CardPosition) -> CardStateView {
    let moved = CardStateView { position: new_position, position_modified: true, ..card };
    if new_position.spec_in_play() {
        moved
    } else {
        cleared(moved)
    }
}

/// Whether a move from `old_position` to `new_position` draws a card.
pub open spec fn is_draw(old_position: CardPosition, new_position: CardPosition) -> bool {
    old_position.spec_in_deck() && new_position.spec_in_hand()
}

/// The updates that moving `card_id` from `old_position` to `new_position` sends the clients: a
/// draw, a shuffle into a deck, a move to a discard pile, a room or the arena.
pub open spec fn move_updates(card_id: CardId, old_position: CardPosition, new_position: CardPosition) -> Seq<GameUpdate> {
    (if is_draw(old_position, new_position) {
        seq![GameUpdate::DrawCard(card_id)]
    } else {
        Seq::empty()
    }) + (if new_position.spec_in_deck() {
        seq![GameUpdate::ShuffleIntoDeck(card_id)]
    } else {
        Seq::empty()
    }) + (if new_position.spec_in_discard_pile() || new_position.spec_kind() == CardPositionTypes::Room
        || new_position.spec_kind() == CardPositionTypes::ArenaItem {
        seq![GameUpdate::MoveToZone(card_id)]
    } else {
        Seq::empty()
    })
}

/// The events that moving `card_id` from `old_position` to `new_position` raises: the move, then
/// the draw when it is one.
pub open spec fn move_events(card_id: CardId, old_position: CardPosition, new_position: CardPosition) -> Seq<DelegateEvent> {
    seq![DelegateEvent::MoveCard(CardMoved { old_position, new_position })] + if is_draw(old_position, new_position) {
        seq![DelegateEvent::DrawCard(card_id)]
    } else {
        Seq::empty()
    }
}

/// Moves a card to a new position, raising the move (and draw) events and sending the clients
/// the updates of the move. A card that leaves play loses its counters.
pub fn move_card(game: &mut GameState, card_id: CardId, new_position: CardPosition)
    requires
        old(game)@.has_card(card_id),
    ensures
        final(game)@.has_card(card_id),
        final(game)@.card(card_id) == moved_to(old(game)@.card(card_id), new_position),
        final(game).update_log() == old(game).update_log() + move_updates(
            card_id,
            old(game)@.card(card_id).position,
            new_position,
        ),
        final(game).event_log() == old(game).event_log() + move_events(
            card_id,
            old(game)@.card(card_id).position,
            new_position,
        ),
        final(game)@ == old(game)@.with_card(card_id, final(game)@.cards(card_id.side)[card_id.index as int]),
{
    let ghost before = game@;
    let old_position = game.card(card_id).position();
    game.card_mut(card_id).move_to(new_position);
    game.push_event(DelegateEvent::MoveCard(CardMoved { old_position, new_position }));
    if old_position.in_deck() && new_position.in_hand() {
        game.push_event(DelegateEvent::DrawCard(card_id));
        game.push_update(GameUpdate::DrawCard(card_id));
    }
    if new_position.in_deck() {
        game.push_update(GameUpdate::ShuffleIntoDeck(card_id));
    }
    if new_position.in_discard_pile() || new_position.kind() == CardPositionTypes::Room
        || new_position.kind() == CardPositionTypes::ArenaItem {
        game.push_update(GameUpdate::MoveToZone(card_id));
    }
    assert(game.update_log() =~= old(game).update_log() + move_updates(card_id, old_position, new_position));
    assert(game.event_log() =~= old(game).event_log() + move_events(card_id, old_position, new_position));
    if !new_position.in_play() {
        let ghost moved = game@;
        clear_counters(game, card_id);
        proof {
            crate::game::lemma_with_card_twice(
                before,
                card_id,
                moved.cards(card_id.side)[card_id.index as int],
                game@.cards(card_id.side)[card_id.index as int],
            );
        }
    }
}

/// `game` with each card of `cards` moved to `to_position`, and every other card unchanged.
pub open spec fn cards_moved(before: GameStateView, after: GameStateView, cards: Seq<CardId>, to_position: CardPosition) -> bool {
    &&& after.overlord_cards.len() == before.overlord_cards.len()
    &&& after.champion_cards.len() == before.champion_cards.len()
    &&& after == GameStateView {
        overlord_cards: after.overlord_cards,
        champion_cards: after.champion_cards,
        ..before
    }
    &&& forall|id: CardId|
        #[trigger] before.has_card(id) ==> after.card(id) == if cards.contains(id) {
            moved_to(before.card(id), to_position)
        } else {
            before.card(id)
        }
}

/// Moves each of `cards` to `to_position`.
pub fn move_cards(game: &mut GameState, cards: &Vec<CardId>, to_position: CardPosition)
    requires
        forall|i: int| 0 <= i < cards.len() ==> old(game)@.has_card(#[trigger] cards@[i]),
        old(game)@.ids_consistent(),
    ensures
        cards_moved(old(game)@, final(game)@, cards@, to_position),
        final(game)@.ids_consistent(),
{
    let mut i: usize = 0;
    while i < cards.len()
        invariant
            i <= cards.len(),
            forall|k: int| 0 <= k < cards.len() ==> old(game)@.has_card(#[trigger] cards@[k]),
            old(game)@.ids_consistent(),
            cards_moved(old(game)@, game@, cards@.subrange(0, i as int), to_position),
            game@.ids_consistent(),
        decreases cards.len() - i,
    {
        let card_id = cards[i];
        let ghost before = game@;
        move_card(game, card_id, to_position);
        proof {
            let done = cards@.subrange(0, i as int);
            let now = cards@.subrange(0, i + 1);
            assert(now =~= done.push(card_id));
            assert forall|id: CardId| #[trigger] old(game)@.has_card(id) implies game@.card(id) == if now.contains(id) {
                moved_to(old(game)@.card(id), to_position)
            } else {
                old(game)@.card(id)
            } by {
                assert(before.has_card(id));
                if id == card_id {
                    assert(now.contains(id)) by { assert(now[i as int] == id); }
                    if done.contains(id) {
                        let k = choose|k: int| 0 <= k < done.len() && done[k] == id;
                        assert(now[k] == id);
                    }
                } else {
                    assert(game@.card(id) == before.card(id));
                    if now.contains(id) {
                        let k = choose|k: int| 0 <= k < now.len() && now[k] == id;
                        assert(k != i as int);
                        assert(done[k] == id);
                    }
                    if done.contains(id) {
                        let k = choose|k: int| 0 <= k < done.len() && done[k] == id;
                        assert(now[k] == id);
                    }
                }
            }
        }
        i += 1;
    }
    assert(cards@.subrange(0, i as int) =~= cards@);
}


/// Records the boost count of a card.
pub fn write_boost(game: &mut GameState, scope: Scope, data: BoostData)
    requires
        old(game)@.has_card(data.card_id),
    ensures
        final(game).update_log() == old(game).update_log(),
        final(game).event_log() == old(game).event_log(),
        final(game)@.has_card(data.card_id),
        final(game)@.card(data.card_id) == (CardStateView {
            data: CardData { boost_count: data.count, ..old(game)@.card(data.card_id).data },
            data_modified: true,
            ..old(game)@.card(data.card_id)
        }),
        final(game)@ == old(game)@.with_card(data.card_id, final(game)@.cards(data.card_id.side)[data.card_id.index as int]),
{
    game.card_mut(data.card_id).data_mut().boost_count = data.count;
}

/// Resets the boost count of the card that owns `scope`.
pub fn clear_boost(game: &mut GameState, scope: Scope)
    requires
        old(game)@.has_card(scope.spec_ability_id().card_id),
    ensures
        final(game).update_log() == old(game).update_log(),
        final(game).event_log() == old(game).event_log(),
        ({
            let card_id = scope.spec_ability_id().card_id;
            &&& final(game)@.has_card(card_id)
            &&& final(game)@.card(card_id) == (CardStateView {
                data: CardData { boost_count: 0, ..old(game)@.card(card_id).data },
                data_modified: true,
                ..old(game)@.card(card_id)
            })
            &&& final(game)@ == old(game)@.with_card(card_id, final(game)@.cards(card_id.side)[card_id.index as int])
        }),
{
    game.card_mut(scope.card_id()).data_mut().boost_count = 0;
}

/// Turns a card face up.
pub fn turn_face_up(game: &mut GameState, card_id: CardId)
    requires
        old(game)@.has_card(card_id),
    ensures
        final(game)@.has_card(card_id),
        final(game)@.card(card_id) == (CardStateView {
            face_up: true,
            revealed_to_overlord: true,
            revealed_to_champion: true,
            ..old(game)@.card(card_id)
        }),
        final(game)@ == old(game)@.with_card(card_id, final(game)@.cards(card_id.side)[card_id.index as int]),
        final(game).update_log() == if !old(game)@.card(card_id).revealed_to(card_id.side.spec_opponent()) {
            old(game).update_log().push(GameUpdate::RevealToOpponent(card_id))
        } else {
            old(game).update_log()
        },
        final(game).event_log() == old(game).event_log(),
{
    let was_revealed = game.card(card_id).is_revealed_to(card_id.side.opponent());
    game.card_mut(card_id).turn_face_up();
    if !was_revealed {
        game.push_update(GameUpdate::RevealToOpponent(card_id));
    }
}

/// `card`, revealed to `side` or hidden from that player.
pub open spec fn with_revealed(card: CardStateView, side: Side, revealed: bool) -> CardStateView {
    match side {
        Side::Overlord => CardStateView { revealed_to_overlord: revealed, ..card },
        Side::Champion => CardStateView { revealed_to_champion: revealed, ..card },
    }
}

/// Reveals a card to `side`, or hides it from that player.
pub fn set_revealed_to(game: &mut GameState, card_id: CardId, side: Side, revealed: bool)
    requires
        old(game)@.has_card(card_id),
    ensures
        final(game)@.has_card(card_id),
        final(game)@.card(card_id) == with_revealed(old(game)@.card(card_id), side, revealed),
        final(game)@ == old(game)@.with_card(card_id, final(game)@.cards(card_id.side)[card_id.index as int]),
        final(game).update_log() == if side != card_id.side && !old(game)@.card(card_id).revealed_to(side)
            && revealed {
            old(game).update_log().push(GameUpdate::RevealToOpponent(card_id))
        } else {
            old(game).update_log()
        },
        final(game).event_log() == old(game).event_log(),
{
    let current = game.card(card_id).is_revealed_to(side);
    game.card_mut(card_id).set_revealed_to(side, revealed);
    if side != card_id.side && !current && revealed {
        game.push_update(GameUpdate::RevealToOpponent(card_id));
    }
}

/// Asks `side` to make a choice.
pub fn set_prompt(game: &mut GameState, side: Side, prompt: Prompt)
    requires
        old(game)@.player(side).prompt is None,
    ensures
        final(game).update_log() == old(game).update_log(),
        final(game).event_log() == old(game).event_log(),
        final(game)@ == (GameStateView { modified: true, ..old(game)@ }).with_player(
            side,
            PlayerState { prompt: Some(prompt), ..old(game)@.player(side) },
        ),
{
    game.player_mut(side).prompt = Some(prompt);
}

/// Withdraws the choice that `side` was asked to make, if any.
pub fn clear_prompt(game: &mut GameState, side: Side)
    ensures
        final(game).update_log() == old(game).update_log(),
        final(game).event_log() == old(game).event_log(),
        final(game)@ == (GameStateView { modified: true, ..old(game)@ }).with_player(
            side,
            PlayerState { prompt: None, ..old(game)@.player(side) },
        ),
{
    game.player_mut(side).prompt = None;
}

/// The state of a card once `side` has drawn it: revealed to that player, in that player's
/// hand, its counters cleared.
pub open spec fn drawn(card: CardStateView, side: Side) -> CardStateView {
    cleared(
        CardStateView {
            position: CardPosition::Hand(side),
            position_modified: true,
            ..with_revealed(card, side, true)
        },
    )
}

/// The events of drawing `card_id` from `position` into the hand of `side`: the move, then the
/// draw.
pub open spec fn drawn_events(card_id: CardId, position: CardPosition, side: Side) -> Seq<DelegateEvent> {
    seq![
        DelegateEvent::MoveCard(CardMoved { old_position: position, new_position: CardPosition::Hand(side) }),
        DelegateEvent::DrawCard(card_id),
    ]
}

/// The events of drawing the cards `ids` from `cards` (the cards of their owner before the
/// draw), in order.
pub open spec fn draws_events(cards: Seq<CardState>, ids: Seq<CardId>, side: Side) -> Seq<DelegateEvent>
    decreases ids.len(),
{
    if ids.len() == 0 {
        Seq::empty()
    } else {
        draws_events(cards, ids.drop_last(), side) + drawn_events(
            ids.last(),
            cards[ids.last().index as int]@.position,
            side,
        )
    }
}

/// `side` draws one card: it is revealed to `side` and moves to that player's hand.
fn draw_one(game: &mut GameState, card_id: CardId, side: Side)
    requires
        old(game)@.has_card(card_id),
    ensures
        final(game)@.has_card(card_id),
        final(game)@.card(card_id) == drawn(old(game)@.card(card_id), side),
        final(game)@ == old(game)@.with_card(card_id, final(game)@.cards(card_id.side)[card_id.index as int]),
        card_id.side == side && old(game)@.card(card_id).position.spec_in_deck() ==> {
            &&& final(game).update_log() == old(game).update_log().push(GameUpdate::DrawCard(card_id))
            &&& final(game).event_log() == old(game).event_log() + drawn_events(
                card_id,
                old(game)@.card(card_id).position,
                side,
            )
        },
{
    let ghost before = game@;
    set_revealed_to(game, card_id, side, true);
    let ghost revealed = game@;
    move_card(game, card_id, CardPosition::Hand(side));
    proof {
        crate::game::lemma_with_card_twice(
            before,
            card_id,
            revealed.cards(card_id.side)[card_id.index as int],
            game@.cards(card_id.side)[card_id.index as int],
        );
    }
}

/// The cards of `side` after the cards `ids` are drawn from them.
pub open spec fn draws_applied(before: Seq<CardState>, after: Seq<CardState>, side: Side, ids: Seq<CardId>) -> bool {
    &&& after.len() == before.len()
    &&& forall|i: int|
        0 <= i < after.len() ==> (#[trigger] after[i])@ == if ids.contains(CardId { side, index: i as usize }) {
            drawn(before[i]@, side)
        } else {
            before[i]@
        }
}

/// `after` is `before` once `side` has drawn `count` cards, the cards `ids`, from its deck; or,
/// when the deck holds fewer than `count` cards, once `side` has lost the game instead.
pub open spec fn drew(before: GameStateView, after: GameStateView, side: Side, count: u32, ids: Seq<CardId>) -> bool {
    let deck = ids_in_kind(before.cards(side), CardPositionTypes::Deck);
    if deck.len() < count {
        &&& ids.len() == 0
        &&& after == (GameStateView {
            modified: true,
            data: GameData {
                phase: GamePhase::GameOver(GameOverData { winner: side.spec_opponent() }),
                ..before.data
            },
            ..before
        })
    } else {
        &&& ids.len() == count
        &&& ids.no_duplicates()
        &&& forall|k: int| 0 <= k < ids.len() ==> deck.contains(#[trigger] ids[k])
        &&& after == before.with_cards(side, after.cards(side))
        &&& draws_applied(before.cards(side), after.cards(side), side, ids)
    }
}

/// `side` draws `count` cards chosen at random from its deck, and they are returned. A player who
/// has fewer than `count` cards in their deck loses the game instead: the opponent wins, and no
/// card is drawn.
pub fn draw_cards(game: &mut GameState, side: Side, count: u32) -> (result: Vec<CardId>)
    requires
        old(game)@.ids_consistent(),
    ensures
        drew(old(game)@, final(game)@, side, count, result@),
        final(game)@.ids_consistent(),
        ids_in_kind(old(game)@.cards(side), CardPositionTypes::Deck).len() < count ==> {
            &&& final(game).update_log() == old(game).update_log().push(GameUpdate::GameOver(side.spec_opponent()))
            &&& final(game).event_log() == old(game).event_log()
        },
        ids_in_kind(old(game)@.cards(side), CardPositionTypes::Deck).len() >= count ==> {
            &&& final(game).update_log() == old(game).update_log() + result@.map_values(
                |id: CardId| GameUpdate::DrawCard(id),
            )
            &&& final(game).event_log() == old(game).event_log() + draws_events(
                old(game)@.cards(side),
                result@,
                side,
            )
        },
{
    let deck = game.deck(side);
    proof {
        game.lemma_card_lists_fit();
        let cards = game@.cards(side);
        assert forall|i: int| 0 <= i < cards.len() implies (#[trigger] cards[i])@.id == (CardId {
            side,
            index: i as usize,
        }) by {}
        crate::game::lemma_ids_in_kind(cards, side, CardPositionTypes::Deck);
    }
    if deck.len() < count as usize {
        game.data_mut().phase = GamePhase::GameOver(GameOverData { winner: side.opponent() });
        game.push_update(GameUpdate::GameOver(side.opponent()));
        return Vec::new();
    }
    let ghost start = game@;
    let ghost deck_ids = deck@;
    let chosen = game.choose_cards(deck, count as usize);
    let mut k: usize = 0;
    while k < chosen.len()
        invariant
            k <= chosen.len(),
            chosen@.len() == count,
            chosen@.no_duplicates(),
            forall|j: int| 0 <= j < chosen@.len() ==> deck_ids.contains(#[trigger] chosen@[j]),
            deck_ids == ids_in_kind(start.cards(side), CardPositionTypes::Deck),
            start.cards(side).len() <= usize::MAX,
            forall|j: int|
                #![trigger deck_ids[j]]
                0 <= j < deck_ids.len() ==> deck_ids[j].side == side && deck_ids[j].index < start.cards(side).len(),
            game@ == start.with_cards(side, game@.cards(side)),
            draws_applied(start.cards(side), game@.cards(side), side, chosen@.subrange(0, k as int)),
            game.update_log() == old(game).update_log() + chosen@.subrange(0, k as int).map_values(
                |id: CardId| GameUpdate::DrawCard(id),
            ),
            game.event_log() == old(game).event_log() + draws_events(
                start.cards(side),
                chosen@.subrange(0, k as int),
                side,
            ),
            start == old(game)@,
            forall|j: int|
                #![trigger deck_ids[j]]
                0 <= j < deck_ids.len() ==> start.cards(side)[deck_ids[j].index as int]@.position.spec_kind()
                    == CardPositionTypes::Deck,
        decreases chosen.len() - k,
    {
        let card_id = chosen[k];
        let ghost before = game@;
        assert(deck_ids.contains(card_id));
        let ghost j = choose|j: int| 0 <= j < deck_ids.len() && deck_ids[j] == card_id;
        assert(deck_ids[j] == card_id);
        assert(!chosen@.subrange(0, k as int).contains(card_id)) by {
            if chosen@.subrange(0, k as int).contains(card_id) {
                let m = choose|m: int| 0 <= m < k && chosen@.subrange(0, k as int)[m] == card_id;
                assert(chosen@[m] == chosen@[k as int]);
            }
        }
        let ghost log_before = game.update_log();
        let ghost events_before = game.event_log();
        assert(game@.card(card_id) == start.cards(side)[card_id.index as int]@);
        draw_one(game, card_id, side);
        proof {
            let prefix = chosen@.subrange(0, k as int);
            assert(chosen@.subrange(0, k + 1) =~= prefix.push(card_id));
            assert(chosen@.subrange(0, k + 1).map_values(|id: CardId| GameUpdate::DrawCard(id)) =~= prefix.map_values(
                |id: CardId| GameUpdate::DrawCard(id),
            ).push(GameUpdate::DrawCard(card_id)));
            assert(chosen@.subrange(0, k + 1).drop_last() =~= prefix);
            let next = chosen@.subrange(0, k + 1);
            assert forall|x: CardId| next.contains(x) <==> (prefix.contains(x) || x == card_id) by {
                if next.contains(x) {
                    let m = choose|m: int| 0 <= m < next.len() && next[m] == x;
                    if m < k {
                        assert(prefix[m] == x);
                    }
                }
                if prefix.contains(x) {
                    let m = choose|m: int| 0 <= m < prefix.len() && prefix[m] == x;
                    assert(next[m] == x);
                }
                if x == card_id {
                    assert(next[k as int] == x);
                }
            }
            assert(game@.cards(side) =~= before.cards(side).update(
                card_id.index as int,
                game@.cards(side)[card_id.index as int],
            ));
            assert(game@ == start.with_cards(side, game@.cards(side))) by {
                assert(before == start.with_cards(side, before.cards(side)));
            }
            let after = game@.cards(side);
            assert forall|i: int| 0 <= i < after.len() implies (#[trigger] after[i])@ == if next.contains(
                CardId { side, index: i as usize },
            ) {
                drawn(start.cards(side)[i]@, side)
            } else {
                start.cards(side)[i]@
            } by {
                if i == card_id.index as int {
                    assert(CardId { side, index: i as usize } == card_id);
                } else {
                    assert(after[i] == before.cards(side)[i]);
                    assert(CardId { side, index: i as usize } != card_id);
                }
            }
        }
        k += 1;
    }
    assert(chosen@.subrange(0, k as int) =~= chosen@);
    proof {
        let after = game@.cards(side);
        assert forall|i: int| 0 <= i < after.len() implies (#[trigger] after[i])@.id == start.cards(side)[i]@.id by {}
    }
    chosen
}

/// What happens to a card whose stored mana runs out.
#[derive(PartialEq, Eq, Structural, Hash, Debug, Copy, Clone)]
pub enum OnEmpty {
    MoveToDiscard,
    Ignore,
}

/// Takes up to `maximum` of the mana stored on a card and gives it to the card's owner. With
/// [OnEmpty::MoveToDiscard], a card left with no stored mana goes to its owner's discard pile.
/// Returns the mana taken.
pub fn take_stored_mana(game: &mut GameState, card_id: CardId, maximum: ManaValue, on_empty: OnEmpty) -> (taken: ManaValue)
    requires
        old(game)@.has_card(card_id),
        old(game)@.player(card_id.side).mana + old(game)@.card(card_id).data.stored_mana <= u32::MAX,
    ensures
        taken == if old(game)@.card(card_id).data.stored_mana < maximum {
            old(game)@.card(card_id).data.stored_mana
        } else {
            maximum
        },
        final(game)@.has_card(card_id),
        final(game)@.player(card_id.side).mana == old(game)@.player(card_id.side).mana + taken,
        final(game)@.player(card_id.side.spec_opponent()) == old(game)@.player(card_id.side.spec_opponent()),
        ({
            let remaining = old(game)@.card(card_id).data.stored_mana - taken;
            if on_empty == OnEmpty::MoveToDiscard && remaining == 0 {
                final(game)@.card(card_id).position == CardPosition::DiscardPile(card_id.side)
                    && final(game)@.card(card_id).data.stored_mana == 0
            } else {
                final(game)@.card(card_id).position == old(game)@.card(card_id).position
                    && final(game)@.card(card_id).data.stored_mana == remaining
            }
        }),
        ({
            let remaining = old(game)@.card(card_id).data.stored_mana - taken;
            let taken_event = old(game).event_log().push(DelegateEvent::StoredManaTaken(card_id));
            if on_empty == OnEmpty::MoveToDiscard && remaining == 0 {
                let from = old(game)@.card(card_id).position;
                let to = CardPosition::DiscardPile(card_id.side);
                &&& final(game).event_log() == taken_event + move_events(card_id, from, to)
                &&& final(game).update_log() == old(game).update_log() + move_updates(card_id, from, to)
            } else {
                &&& final(game).event_log() == taken_event
                &&& final(game).update_log() == old(game).update_log()
            }
        }),
{
    let available = game.card(card_id).data().stored_mana;
    let taken = if available < maximum {
        available
    } else {
        maximum
    };
    let data = game.card_mut(card_id).data_mut();
    data.stored_mana = data.stored_mana - taken;
    mana::gain(game, card_id.side, taken);
    game.push_event(DelegateEvent::StoredManaTaken(card_id));
    if on_empty == OnEmpty::MoveToDiscard && game.card(card_id).data().stored_mana == 0 {
        move_card(game, card_id, CardPosition::DiscardPile(card_id.side));
    }
    taken
}


/// The updates of starting the turn of `side` in `game`: the start, then the card drawn, or the
/// end of the game when the deck is empty.
pub open spec fn start_updates(game: GameStateView, side: Side, drawn: Seq<CardId>) -> Seq<GameUpdate> {
    seq![GameUpdate::StartTurn(side)] + if ids_in_kind(game.cards(side), CardPositionTypes::Deck).len() >= 1 {
        drawn.map_values(|id: CardId| GameUpdate::DrawCard(id))
    } else {
        seq![GameUpdate::GameOver(side.spec_opponent())]
    }
}

/// The events of starting turn `turn_number` of `side` in `game`: dusk for the Overlord or dawn
/// for the Champion, then those of the card drawn.
pub open spec fn start_events(game: GameStateView, side: Side, turn_number: TurnNumber, drawn: Seq<CardId>) -> Seq<DelegateEvent> {
    seq![
        match side {
            Side::Overlord => DelegateEvent::Dusk(turn_number),
            Side::Champion => DelegateEvent::Dawn(turn_number),
        },
    ] + if ids_in_kind(game.cards(side), CardPositionTypes::Deck).len() >= 1 {
        draws_events(game.cards(side), drawn, side)
    } else {
        Seq::empty()
    }
}

/// `game` once `side` has started turn `turn_number` with `actions` action points, before the
/// player draws.
pub open spec fn turn_started(game: GameStateView, side: Side, turn_number: TurnNumber, actions: ActionCount) -> GameStateView {
    (GameStateView {
        modified: true,
        data: GameData { phase: GamePhase::Play, turn: side, turn_number, ..game.data },
        ..game
    }).with_player(side, PlayerState { actions, ..game.player(side) })
}

/// Starts turn `turn_number` of `next_side`, who gets `actions` action points (the result of the
/// start-of-turn action count query) and draws a card. Returns the card drawn.
fn start_turn(game: &mut GameState, next_side: Side, turn_number: TurnNumber, actions: ActionCount) -> (result: Vec<CardId>)
    requires
        old(game)@.ids_consistent(),
    ensures
        drew(turn_started(old(game)@, next_side, turn_number, actions), final(game)@, next_side, 1, result@),
        final(game)@.ids_consistent(),
        final(game).update_log() == old(game).update_log() + start_updates(old(game)@, next_side, result@),
        final(game).event_log() == old(game).event_log() + start_events(old(game)@, next_side, turn_number, result@),
{
    let data = game.data_mut();
    data.phase = GamePhase::Play;
    data.turn = next_side;
    data.turn_number = turn_number;
    if next_side == Side::Overlord {
        game.push_event(DelegateEvent::Dusk(turn_number));
    } else {
        game.push_event(DelegateEvent::Dawn(turn_number));
    }
    game.player_mut(next_side).actions = actions;
    game.push_update(GameUpdate::StartTurn(next_side));
    let ghost started_updates = game.update_log();
    let ghost started_events = game.event_log();
    assert(game@.cards(Side::Overlord) == old(game)@.cards(Side::Overlord));
    assert(game@.cards(Side::Champion) == old(game)@.cards(Side::Champion));
    let drawn = draw_cards(game, next_side, 1);
    assert(game.update_log() =~= old(game).update_log() + start_updates(old(game)@, next_side, drawn@));
    assert(game.event_log() =~= old(game).event_log() + start_events(old(game)@, next_side, turn_number, drawn@));
    drawn
}

/// The turn of `side` is over: it is that player's turn in the play phase, no raid is in
/// progress, and the player has no action point left.
pub open spec fn turn_ends(game: GameStateView, side: Side) -> bool {
    &&& game.data.phase == GamePhase::Play
    &&& game.data.turn == side
    &&& game.player(side).actions == 0
    &&& game.data.raid is None
}

/// The number of the turn that follows the end of `side`'s turn: the Champion's turn ends a
/// round.
pub open spec fn next_turn_number(game: GameStateView, side: Side) -> int {
    match side {
        Side::Overlord => game.data.turn_number as int,
        Side::Champion => game.data.turn_number + 1,
    }
}

/// `after` is `before` once the end of `side`'s turn has been checked for: unchanged while the
/// turn goes on; otherwise with the opponent's turn begun, with `next_actions` action points and
/// the card `drawn` drawn.
pub open spec fn end_turn_checked(
    before: GameStateView,
    after: GameStateView,
    side: Side,
    next_actions: ActionCount,
    drawn: Option<Vec<CardId>>,
) -> bool {
    &&& !turn_ends(before, side) ==> drawn is None && after == before
    &&& turn_ends(before, side) ==> drawn is Some && drew(
        turn_started(before, side.spec_opponent(), next_turn_number(before, side) as u32, next_actions),
        after,
        side.spec_opponent(),
        1,
        drawn->0@,
    )
}

/// Ends the turn of `side` if it is over, and starts the opponent's turn: the opponent gets
/// `next_actions` action points (the result of the start-of-turn action count query) and draws a
/// card. Returns the card drawn when a turn started.
pub fn check_end_turn(game: &mut GameState, side: Side, next_actions: ActionCount) -> (result: Option<Vec<CardId>>)
    requires
        old(game)@.ids_consistent(),
        turn_ends(old(game)@, side) ==> next_turn_number(old(game)@, side) <= u32::MAX,
    ensures
        end_turn_checked(old(game)@, final(game)@, side, next_actions, result),
        final(game)@.ids_consistent(),
        !turn_ends(old(game)@, side) ==> final(game).update_log() == old(game).update_log()
            && final(game).event_log() == old(game).event_log(),
        turn_ends(old(game)@, side) ==> {
            &&& final(game).update_log() == old(game).update_log() + start_updates(
                old(game)@,
                side.spec_opponent(),
                result->0@,
            )
            &&& final(game).event_log() == old(game).event_log() + start_events(
                old(game)@,
                side.spec_opponent(),
                next_turn_number(old(game)@, side) as u32,
                result->0@,
            )
        },
{
    if game.data().phase != GamePhase::Play {
        return None;
    }
    if game.data().turn == side && game.player(side).actions == 0 && game.data().raid.is_none() {
        let turn_number = match side {
            Side::Overlord => game.data().turn_number,
            Side::Champion => game.data().turn_number + 1,
        };
        Some(start_turn(game, side.opponent(), turn_number, next_actions))
    } else {
        None
    }
}

/// `game` once its raid is over.
pub open spec fn raid_ended(game: GameStateView) -> GameStateView {
    GameStateView { modified: true, data: GameData { raid: None, ..game.data }, ..game }
}

/// Ends the raid in progress with the outcome `outcome`, raising the raid end event, then checks whether the Champion's turn
/// is over: if it is, the Overlord starts its turn with `next_actions` action points and draws a
/// card, which is returned.
pub fn end_raid(game: &mut GameState, outcome: RaidOutcome, next_actions: ActionCount) -> (result: Option<Vec<CardId>>)
    requires
        old(game)@.data.raid is Some,
        old(game)@.ids_consistent(),
        turn_ends(raid_ended(old(game)@), Side::Champion) ==> next_turn_number(
            raid_ended(old(game)@),
            Side::Champion,
        ) <= u32::MAX,
    ensures
        end_turn_checked(raid_ended(old(game)@), final(game)@, Side::Champion, next_actions, result),
        final(game)@.ids_consistent(),
        ({
            let ended = old(game).event_log().push(DelegateEvent::RaidEnd(old(game)@.data.raid->0, outcome));
            if turn_ends(raid_ended(old(game)@), Side::Champion) {
                &&& final(game).update_log() == old(game).update_log() + start_updates(
                    old(game)@,
                    Side::Overlord,
                    result->0@,
                )
                &&& final(game).event_log() == ended + start_events(
                    old(game)@,
                    Side::Overlord,
                    next_turn_number(raid_ended(old(game)@), Side::Champion) as u32,
                    result->0@,
                )
            } else {
                &&& final(game).update_log() == old(game).update_log()
                &&& final(game).event_log() == ended
            }
        }),
{
    let raid = match game.data().raid {
        Some(raid) => raid,
        None => return None,
    };
    game.push_event(DelegateEvent::RaidEnd(raid, outcome));
    game.data_mut().raid = None;
    assert(game@ == raid_ended(old(game)@));
    check_end_turn(game, Side::Champion, next_actions)
}

/// Both players have taken their mulligan decision.
pub open spec fn mulligans_resolved(game: GameStateView) -> bool {
    game.data.phase matches GamePhase::ResolveMulligans(mulligans) && mulligans.overlord is Some
        && mulligans.champion is Some
}

/// The mana that each player starts the game with.
pub const STARTING_MANA: ManaValue = 5;

/// `game` once both players have received their starting mana.
pub open spec fn starting_mana_given(game: GameStateView) -> GameStateView {
    let overlord_set = (GameStateView { modified: true, ..game }).with_player(
        Side::Overlord,
        PlayerState { mana: STARTING_MANA, ..game.player(Side::Overlord) },
    );
    (GameStateView { modified: true, ..overlord_set }).with_player(
        Side::Champion,
        PlayerState { mana: STARTING_MANA, ..overlord_set.player(Side::Champion) },
    )
}

/// `after` is `before` once the start of the game has been checked for: unchanged while a
/// mulligan decision is pending; otherwise with starting mana given and turn 1 of the Overlord
/// begun, with `overlord_actions` action points and the card `drawn` drawn.
pub open spec fn start_checked(
    before: GameStateView,
    after: GameStateView,
    overlord_actions: ActionCount,
    drawn: Option<Vec<CardId>>,
) -> bool {
    &&& !mulligans_resolved(before) ==> drawn is None && after == before
    &&& mulligans_resolved(before) ==> drawn is Some && drew(
        turn_started(starting_mana_given(before), Side::Overlord, 1, overlord_actions),
        after,
        Side::Overlord,
        1,
        drawn->0@,
    )
}

/// Starts the game once both players have decided on their mulligans: each player gets
/// [STARTING_MANA], and the Overlord starts turn 1 with `overlord_actions` action points and draws
/// a card, which is returned.
pub fn check_start_game(game: &mut GameState, overlord_actions: ActionCount) -> (result: Option<Vec<CardId>>)
    requires
        old(game)@.ids_consistent(),
    ensures
        start_checked(old(game)@, final(game)@, overlord_actions, result),
        final(game)@.ids_consistent(),
{
    let resolved = match game.data().phase {
        GamePhase::ResolveMulligans(mulligans) => mulligans.overlord.is_some() && mulligans.champion.is_some(),
        _ => false,
    };
    if resolved {
        mana::set(game, Side::Overlord, STARTING_MANA);
        mana::set(game, Side::Champion, STARTING_MANA);
        assert(game@ == starting_mana_given(old(game)@));
        Some(start_turn(game, Side::Overlord, 1, overlord_actions))
    } else {
        None
    }
}

/// The mulligan prompt: keep the opening hand, or take a new one.
pub open spec fn spec_mulligan_prompt() -> (Option<PromptContext>, Seq<PromptAction>) {
    (
        None,
        seq![
            PromptAction::MulliganDecision(MulliganDecision::Keep),
            PromptAction::MulliganDecision(MulliganDecision::Mulligan),
        ],
    )
}

/// A prompt asking for a mulligan decision.
pub fn mulligan_prompt() -> (result: Prompt)
    ensures
        (result.context, result.responses@) == spec_mulligan_prompt(),
{
    Prompt {
        context: None,
        responses: vec![
            PromptAction::MulliganDecision(MulliganDecision::Keep),
            PromptAction::MulliganDecision(MulliganDecision::Mulligan),
        ],
    }
}

/// `game` with `side` asked to decide on a mulligan.
pub open spec fn mulligan_prompted(game: GameStateView, side: Side, prompt: Prompt) -> GameStateView {
    (GameStateView { modified: true, ..game }).with_player(
        side,
        PlayerState { prompt: Some(prompt), ..game.player(side) },
    )
}

/// The number of cards in an opening hand.
pub const OPENING_HAND_SIZE: u32 = 5;

/// Each player draws an opening hand and is asked whether to keep it, the Overlord first.
pub fn deal_opening_hands(game: &mut GameState)
    requires
        old(game)@.ids_consistent(),
        old(game)@.player(Side::Overlord).prompt is None,
        old(game)@.player(Side::Champion).prompt is None,
    ensures
        exists|overlord_drawn: GameStateView, overlord_ids: Seq<CardId>, overlord_prompt: Prompt,
            champion_drawn: GameStateView, champion_ids: Seq<CardId>, champion_prompt: Prompt|
            {
                &&& drew(old(game)@, overlord_drawn, Side::Overlord, OPENING_HAND_SIZE, overlord_ids)
                &&& (overlord_prompt.context, overlord_prompt.responses@) == spec_mulligan_prompt()
                &&& drew(
                    mulligan_prompted(overlord_drawn, Side::Overlord, overlord_prompt),
                    champion_drawn,
                    Side::Champion,
                    OPENING_HAND_SIZE,
                    champion_ids,
                )
                &&& (champion_prompt.context, champion_prompt.responses@) == spec_mulligan_prompt()
                &&& final(game)@ == mulligan_prompted(champion_drawn, Side::Champion, champion_prompt)
            },
        final(game)@.ids_consistent(),
{
    let overlord_ids = draw_cards(game, Side::Overlord, OPENING_HAND_SIZE);
    let ghost overlord_drawn = game@;
    let overlord_prompt = mulligan_prompt();
    let ghost overlord_prompt_ghost = overlord_prompt;
    set_prompt(game, Side::Overlord, overlord_prompt);
    assert(game@.cards(Side::Overlord) == overlord_drawn.cards(Side::Overlord));
    assert(game@.cards(Side::Champion) == overlord_drawn.cards(Side::Champion));
    let champion_ids = draw_cards(game, Side::Champion, OPENING_HAND_SIZE);
    let ghost champion_drawn = game@;
    let champion_prompt = mulligan_prompt();
    let ghost champion_prompt_ghost = champion_prompt;
    set_prompt(game, Side::Champion, champion_prompt);
    assert(game@.cards(Side::Overlord) == champion_drawn.cards(Side::Overlord));
    assert(game@.cards(Side::Champion) == champion_drawn.cards(Side::Champion));
    assert(drew(old(game)@, overlord_drawn, Side::Overlord, OPENING_HAND_SIZE, overlord_ids@));
    assert(drew(
        mulligan_prompted(overlord_drawn, Side::Overlord, overlord_prompt_ghost),
        champion_drawn,
        Side::Champion,
        OPENING_HAND_SIZE,
        champion_ids@,
    ));
    assert(game@ == mulligan_prompted(champion_drawn, Side::Champion, champion_prompt_ghost));
}

/// The state of a card shuffled back into the deck of `side`: face down, revealed to nobody, its
/// counters cleared.
pub open spec fn shuffled(card: CardStateView, side: Side) -> CardStateView {
    CardStateView {
        face_up: false,
        revealed_to_overlord: false,
        revealed_to_champion: false,
        ..cleared(CardStateView { position: CardPosition::Deck(side), position_modified: true, ..card })
    }
}

/// Shuffles one card into the deck of `side`.
fn shuffle_one(game: &mut GameState, card_id: CardId, side: Side)
    requires
        old(game)@.has_card(card_id),
    ensures
        final(game)@.has_card(card_id),
        final(game)@.card(card_id) == shuffled(old(game)@.card(card_id), side),
        final(game)@ == old(game)@.with_card(card_id, final(game)@.cards(card_id.side)[card_id.index as int]),
{
    let ghost before = game@;
    move_card(game, card_id, CardPosition::Deck(side));
    let ghost moved = game@;
    game.card_mut(card_id).turn_face_down();
    let ghost turned = game@;
    proof {
        crate::game::lemma_with_card_twice(before, card_id, moved.cards(card_id.side)[card_id.index as int], turned.cards(card_id.side)[card_id.index as int]);
    }
    set_revealed_to(game, card_id, Side::Overlord, false);
    let ghost hidden = game@;
    proof {
        crate::game::lemma_with_card_twice(before, card_id, turned.cards(card_id.side)[card_id.index as int], hidden.cards(card_id.side)[card_id.index as int]);
    }
    set_revealed_to(game, card_id, Side::Champion, false);
    proof {
        crate::game::lemma_with_card_twice(before, card_id, hidden.cards(card_id.side)[card_id.index as int], game@.cards(card_id.side)[card_id.index as int]);
    }
}

/// The cards of one side after the cards `ids` are shuffled into the deck of `side`.
pub open spec fn shuffles_applied_to(before: Seq<CardState>, after: Seq<CardState>, owner: Side, side: Side, ids: Seq<CardId>) -> bool {
    &&& after.len() == before.len()
    &&& forall|i: int|
        0 <= i < after.len() ==> (#[trigger] after[i])@ == if ids.contains(CardId { side: owner, index: i as usize }) {
            shuffled(before[i]@, side)
        } else {
            before[i]@
        }
}

/// `after` is `before` once the cards `ids` are shuffled into the deck of `side`.
pub open spec fn shuffles_applied(before: GameStateView, after: GameStateView, side: Side, ids: Seq<CardId>) -> bool {
    &&& after == before.with_cards(Side::Overlord, after.cards(Side::Overlord)).with_cards(
        Side::Champion,
        after.cards(Side::Champion),
    )
    &&& shuffles_applied_to(before.cards(Side::Overlord), after.cards(Side::Overlord), Side::Overlord, side, ids)
    &&& shuffles_applied_to(before.cards(Side::Champion), after.cards(Side::Champion), Side::Champion, side, ids)
}

/// Shuffles the cards `cards` into the deck of `side`: each is turned face down, hidden from both
/// players and moved to that deck.
pub fn shuffle_into_deck(game: &mut GameState, side: Side, cards: &Vec<CardId>)
    requires
        old(game)@.ids_consistent(),
        forall|k: int| 0 <= k < cards@.len() ==> old(game)@.has_card(#[trigger] cards@[k]),
    ensures
        shuffles_applied(old(game)@, final(game)@, side, cards@),
        final(game)@.ids_consistent(),
{
    let ghost start = game@;
    proof {
        game.lemma_card_lists_fit();
        assert(start.cards(Side::Overlord) =~= start.with_cards(Side::Overlord, start.cards(Side::Overlord)).cards(Side::Overlord));
    }
    let mut k: usize = 0;
    while k < cards.len()
        invariant
            k <= cards.len(),
            forall|j: int| 0 <= j < cards@.len() ==> start.has_card(#[trigger] cards@[j]),
            start.ids_consistent(),
            start.cards(Side::Overlord).len() <= usize::MAX,
            start.cards(Side::Champion).len() <= usize::MAX,
            shuffles_applied(start, game@, side, cards@.subrange(0, k as int)),
        decreases cards.len() - k,
    {
        let card_id = cards[k];
        let ghost before = game@;
        assert(before.has_card(card_id));
        shuffle_one(game, card_id, side);
        proof {
            let prefix = cards@.subrange(0, k as int);
            let next = cards@.subrange(0, k + 1);
            assert forall|x: CardId| next.contains(x) <==> (prefix.contains(x) || x == card_id) by {
                if next.contains(x) {
                    let m = choose|m: int| 0 <= m < next.len() && next[m] == x;
                    if m < k {
                        assert(prefix[m] == x);
                    }
                }
                if prefix.contains(x) {
                    let m = choose|m: int| 0 <= m < prefix.len() && prefix[m] == x;
                    assert(next[m] == x);
                }
                if x == card_id {
                    assert(next[k as int] == x);
                }
            }
            let owner = card_id.side;
            let other = owner.spec_opponent();
            assert(game@.cards(owner) =~= before.cards(owner).update(card_id.index as int, game@.cards(owner)[card_id.index as int]));
            assert(game@.cards(other) == before.cards(other));
            assert forall|s: Side, i: int| 0 <= i < game@.cards(s).len() implies (#[trigger] game@.cards(s)[i])@ == if next.contains(
                CardId { side: s, index: i as usize },
            ) {
                shuffled(start.cards(s)[i]@, side)
            } else {
                start.cards(s)[i]@
            } by {
                if s == owner && i == card_id.index as int {
                    assert(CardId { side: s, index: i as usize } == card_id);
                } else {
                    assert(game@.cards(s)[i] == before.cards(s)[i]);
                    assert(CardId { side: s, index: i as usize } != card_id);
                }
            }
            assert(shuffles_applied_to(start.cards(Side::Overlord), game@.cards(Side::Overlord), Side::Overlord, side, next));
            assert(shuffles_applied_to(start.cards(Side::Champion), game@.cards(Side::Champion), Side::Champion, side, next));
        }
        k += 1;
    }
    assert(cards@.subrange(0, k as int) =~= cards@);
    proof {
        assert forall|s: Side, i: int| 0 <= i < game@.cards(s).len() implies (#[trigger] game@.cards(s)[i])@.id == start.cards(s)[i]@.id by {}
    }
}


/// `card` one level higher, its data marked as modified.
pub open spec fn leveled_up(card: CardStateView) -> CardStateView {
    CardStateView {
        data: CardData { card_level: (card.data.card_level + 1) as u32, ..card.data },
        data_modified: true,
        ..card
    }
}

/// Whether leveling up a card with `stats`, now at `level`, makes it reach the level at which
/// it is scored.
pub open spec fn reaches_scheme_level(stats: CardStats, level: LevelValue) -> bool {
    &&& stats.can_level_up
    &&& stats.scheme_points matches Some(points)
    &&& level + 1 >= points.level_requirement
}

/// The cards of `ids` (`stats` giving the stats of each, `cards` the state of each) that
/// leveling up scores, in order, each with the points that it gives.
pub open spec fn leveled_schemes(cards: Seq<CardState>, ids: Seq<CardId>, stats: Seq<CardStats>) -> Seq<
    (CardId, PointsValue),
>
    decreases ids.len(),
{
    if ids.len() == 0 {
        Seq::empty()
    } else {
        let k = ids.len() - 1;
        let earlier = leveled_schemes(cards, ids.drop_last(), stats.subrange(0, k));
        if reaches_scheme_level(stats[k], cards[ids[k].index as int]@.data.card_level) {
            earlier.push((ids[k], stats[k].scheme_points->0.points))
        } else {
            earlier
        }
    }
}

/// Every card that leveling up scores is one of `ids`, and none is scored twice where `ids`
/// holds no card twice.
pub proof fn lemma_leveled_schemes(cards: Seq<CardState>, ids: Seq<CardId>, stats: Seq<CardStats>)
    requires
        ids.len() == stats.len(),
    ensures
        forall|j: int|
            0 <= j < leveled_schemes(cards, ids, stats).len() ==> ids.contains(
                (#[trigger] leveled_schemes(cards, ids, stats)[j]).0,
            ),
        ids.no_duplicates() ==> forall|i: int, j: int|
            0 <= i < j < leveled_schemes(cards, ids, stats).len() ==> (#[trigger] leveled_schemes(
                cards,
                ids,
                stats,
            )[i]).0 != (#[trigger] leveled_schemes(cards, ids, stats)[j]).0,
    decreases ids.len(),
{
    if ids.len() > 0 {
        let k = ids.len() - 1;
        let rest = ids.drop_last();
        let rest_stats = stats.subrange(0, k);
        lemma_leveled_schemes(cards, rest, rest_stats);
        let earlier = leveled_schemes(cards, rest, rest_stats);
        let all = leveled_schemes(cards, ids, stats);
        assert forall|j: int| 0 <= j < all.len() implies ids.contains((#[trigger] all[j]).0) by {
            if j < earlier.len() {
                assert(all[j] == earlier[j]);
                let m = choose|m: int| 0 <= m < rest.len() && rest[m] == earlier[j].0;
                assert(ids[m] == rest[m]);
            } else {
                assert(all[j].0 == ids[k]);
            }
        }
        if ids.no_duplicates() {
            assert(rest.no_duplicates()) by {
                assert forall|a: int, b: int| 0 <= a < b < rest.len() implies rest[a] != rest[b] by {
                    assert(rest[a] == ids[a] && rest[b] == ids[b]);
                }
            }
            assert forall|i: int, j: int| 0 <= i < j < all.len() implies (#[trigger] all[i]).0 != (
            #[trigger] all[j]).0 by {
                assert(all[i] == earlier[i]);
                if j < earlier.len() {
                    assert(all[j] == earlier[j]);
                } else {
                    assert(all[j].0 == ids[k]);
                    let m = choose|m: int| 0 <= m < rest.len() && rest[m] == earlier[i].0;
                    assert(ids[m] == rest[m]);
                }
            }
        }
    }
}

/// `after` is `before` with each card `ids[k]` one level higher where its stats `stats[k]` let
/// it level up, and every other card unchanged.
pub open spec fn levels_raised(before: GameStateView, after: GameStateView, ids: Seq<CardId>, stats: Seq<CardStats>) -> bool {
    &&& after.overlord_cards.len() == before.overlord_cards.len()
    &&& after == GameStateView { overlord_cards: after.overlord_cards, ..before }
    &&& forall|k: int|
        0 <= k < ids.len() ==> after.card(#[trigger] ids[k]) == if stats[k].can_level_up {
            leveled_up(before.card(ids[k]))
        } else {
            before.card(ids[k])
        }
    &&& forall|id: CardId| #[trigger] before.has_card(id) && !ids.contains(id) ==> after.card(id) == before.card(id)
}

/// Raises the level of each card of `ids` whose stats (in `stats`, in the same order) let it
/// level up, and returns those that reach the level at which they are scored, with their points.
fn level_up_cards(game: &mut GameState, ids: &Vec<CardId>, stats: &Vec<CardStats>) -> (scored: Vec<
    (CardId, PointsValue),
>)
    requires
        old(game)@.ids_consistent(),
        ids.len() == stats.len(),
        ids@.no_duplicates(),
        forall|k: int|
            0 <= k < ids.len() ==> old(game)@.has_card(#[trigger] ids@[k]) && ids@[k].side == Side::Overlord,
        forall|k: int|
            0 <= k < ids.len() && (#[trigger] stats@[k]).can_level_up ==> old(game)@.card(ids@[k]).data.card_level
                < u32::MAX,
    ensures
        scored@ == leveled_schemes(old(game)@.overlord_cards, ids@, stats@),
        levels_raised(old(game)@, final(game)@, ids@, stats@),
        final(game)@.ids_consistent(),
        final(game).update_log() == old(game).update_log(),
        final(game).event_log() == old(game).event_log(),
{
    let mut scored: Vec<(CardId, PointsValue)> = Vec::new();
    let mut i: usize = 0;
    while i < ids.len()
        invariant
            i <= ids.len(),
            ids.len() == stats.len(),
            ids@.no_duplicates(),
            forall|k: int|
                0 <= k < ids.len() ==> old(game)@.has_card(#[trigger] ids@[k]) && ids@[k].side == Side::Overlord,
            forall|k: int|
                0 <= k < ids.len() && (#[trigger] stats@[k]).can_level_up ==> old(game)@.card(
                    ids@[k],
                ).data.card_level < u32::MAX,
            old(game)@.ids_consistent(),
            scored@ == leveled_schemes(
                old(game)@.overlord_cards,
                ids@.subrange(0, i as int),
                stats@.subrange(0, i as int),
            ),
            levels_raised(old(game)@, game@, ids@.subrange(0, i as int), stats@.subrange(0, i as int)),
            game@.ids_consistent(),
            game.update_log() == old(game).update_log(),
            game.event_log() == old(game).event_log(),
        decreases ids.len() - i,
    {
        let id = ids[i];
        let card_stats = stats[i];
        let ghost before = game@;
        let ghost done = ids@.subrange(0, i as int);
        let ghost now = ids@.subrange(0, i + 1);
        assert(!done.contains(id)) by {
            if done.contains(id) {
                let m = choose|m: int| 0 <= m < done.len() && done[m] == id;
                assert(ids@[m] == ids@[i as int]);
            }
        }
        assert(before.card(id) == old(game)@.card(id));
        if card_stats.can_level_up {
            let card = game.card_mut(id);
            let data = card.data_mut();
            data.card_level = data.card_level + 1;
            let level = game.card(id).data().card_level;
            match card_stats.scheme_points {
                Some(points) => {
                    if level >= points.level_requirement {
                        scored.push((id, points.points));
                    }
                },
                None => {},
            }
        }
        proof {
            assert(now =~= done.push(id));
            assert(now.drop_last() =~= done);
            assert(stats@.subrange(0, i + 1).subrange(0, i as int) =~= stats@.subrange(0, i as int));
            let stats_now = stats@.subrange(0, i + 1);
            assert forall|k: int| 0 <= k < now.len() implies game@.card(#[trigger] now[k]) == if stats_now[k].can_level_up {
                leveled_up(old(game)@.card(now[k]))
            } else {
                old(game)@.card(now[k])
            } by {
                if k < i {
                    assert(now[k] == done[k]);
                    assert(done.contains(now[k]));
                    assert(now[k] != id);
                    assert(stats_now[k] == stats@.subrange(0, i as int)[k]);
                }
            }
            assert forall|x: CardId| #[trigger] old(game)@.has_card(x) && !now.contains(x) implies game@.card(x)
                == old(game)@.card(x) by {
                assert(!done.contains(x)) by {
                    if done.contains(x) {
                        let m = choose|m: int| 0 <= m < done.len() && done[m] == x;
                        assert(now[m] == x);
                    }
                }
                assert(x != id) by {
                    if x == id {
                        assert(now[i as int] == x);
                    }
                }
            }
        }
        i += 1;
    }
    assert(ids@.subrange(0, i as int) =~= ids@);
    assert(stats@.subrange(0, i as int) =~= stats@);
    scored
}

/// `card` once the Overlord has scored it: face up, revealed to both players, in the
/// Overlord's score zone, its counters cleared.
pub open spec fn scheme_scored(card: CardStateView) -> CardStateView {
    moved_to(
        CardStateView { face_up: true, revealed_to_overlord: true, revealed_to_champion: true, ..card },
        CardPosition::Scored(Side::Overlord),
    )
}

/// The points of the scored cards `scored`, added up.
pub open spec fn points_of(scored: Seq<(CardId, PointsValue)>) -> int
    decreases scored.len(),
{
    if scored.len() == 0 {
        0
    } else {
        points_of(scored.drop_last()) + scored.last().1
    }
}

/// The points of a prefix of `scored` are no more than those of all of it.
pub proof fn lemma_points_of_prefix(scored: Seq<(CardId, PointsValue)>, k: int)
    requires
        0 <= k <= scored.len(),
    ensures
        0 <= points_of(scored.subrange(0, k)) <= points_of(scored),
    decreases scored.len(),
{
    if k == scored.len() {
        assert(scored.subrange(0, k) =~= scored);
        lemma_points_of_nonnegative(scored);
    } else {
        assert(scored.drop_last().subrange(0, k) =~= scored.subrange(0, k));
        lemma_points_of_prefix(scored.drop_last(), k);
    }
}

/// Points add up to no less than zero.
pub proof fn lemma_points_of_nonnegative(scored: Seq<(CardId, PointsValue)>)
    ensures
        points_of(scored) >= 0,
    decreases scored.len(),
{
    if scored.len() > 0 {
        lemma_points_of_nonnegative(scored.drop_last());
    }
}

/// The updates of the Overlord scoring the cards of `scored` in order, from a score of `score`
/// (`cards` giving their state before): for each card, its reveal to the Champion where it was
/// hidden from them, the score, and the end of the game where the score reaches
/// [POINTS_TO_WIN].
pub open spec fn scheme_score_updates(cards: Seq<CardState>, scored: Seq<(CardId, PointsValue)>, score: int) -> Seq<
    GameUpdate,
>
    decreases scored.len(),
{
    if scored.len() == 0 {
        Seq::empty()
    } else {
        let id = scored.last().0;
        scheme_score_updates(cards, scored.drop_last(), score) + (if !cards[id.index as int]@.revealed_to(
            Side::Champion,
        ) {
            seq![GameUpdate::RevealToOpponent(id)]
        } else {
            Seq::empty()
        }) + seq![GameUpdate::OverlordScoreCard(id, scored.last().1)] + (if score + points_of(scored)
            >= POINTS_TO_WIN {
            seq![GameUpdate::GameOver(Side::Overlord)]
        } else {
            Seq::empty()
        })
    }
}

/// The events of the Overlord scoring the cards of `scored` in order (`cards` giving their state
/// before): for each card, its move to the score zone, then the score.
pub open spec fn scheme_score_events(cards: Seq<CardState>, scored: Seq<(CardId, PointsValue)>) -> Seq<
    DelegateEvent,
>
    decreases scored.len(),
{
    if scored.len() == 0 {
        Seq::empty()
    } else {
        let id = scored.last().0;
        scheme_score_events(cards, scored.drop_last()) + seq![
            DelegateEvent::MoveCard(
                CardMoved {
                    old_position: cards[id.index as int]@.position,
                    new_position: CardPosition::Scored(Side::Overlord),
                },
            ),
            DelegateEvent::OverlordScoreCard(id),
        ]
    }
}

/// The ids of the scored cards `scored`.
pub open spec fn scored_ids(scored: Seq<(CardId, PointsValue)>) -> Seq<CardId> {
    scored.map_values(|s: (CardId, PointsValue)| s.0)
}

/// `after` is `before` once the Overlord has scored the cards of `scored`, in order: each is
/// scored, its points are added to the Overlord's score, and the game is over, won by the
/// Overlord, where a card was scored and the score reached [POINTS_TO_WIN].
pub open spec fn schemes_scored(before: GameStateView, after: GameStateView, scored: Seq<(CardId, PointsValue)>) -> bool {
    let score = before.overlord.score + points_of(scored);
    &&& after.overlord_cards.len() == before.overlord_cards.len()
    &&& after == GameStateView {
        overlord_cards: after.overlord_cards,
        overlord: PlayerState { score: score as u32, ..before.overlord },
        modified: before.modified || scored.len() > 0,
        data: GameData {
            phase: if scored.len() > 0 && score >= POINTS_TO_WIN {
                GamePhase::GameOver(GameOverData { winner: Side::Overlord })
            } else {
                before.data.phase
            },
            ..before.data
        },
        ..before
    }
    &&& forall|k: int|
        0 <= k < scored.len() ==> after.card((#[trigger] scored[k]).0) == scheme_scored(before.card(scored[k].0))
    &&& forall|id: CardId|
        #[trigger] before.has_card(id) && !scored_ids(scored).contains(id) ==> after.card(id) == before.card(id)
}

/// The Overlord scores the cards of `scored`, in order, each for its points.
fn score_schemes(game: &mut GameState, scored: &Vec<(CardId, PointsValue)>)
    requires
        old(game)@.ids_consistent(),
        forall|k: int|
            0 <= k < scored.len() ==> old(game)@.has_card((#[trigger] scored@[k]).0) && scored@[k].0.side
                == Side::Overlord,
        forall|i: int, j: int| 0 <= i < j < scored.len() ==> (#[trigger] scored@[i]).0 != (#[trigger] scored@[j]).0,
        old(game)@.overlord.score + points_of(scored@) <= u32::MAX,
    ensures
        schemes_scored(old(game)@, final(game)@, scored@),
        final(game)@.ids_consistent(),
        final(game).update_log() == old(game).update_log() + scheme_score_updates(
            old(game)@.overlord_cards,
            scored@,
            old(game)@.overlord.score as int,
        ),
        final(game).event_log() == old(game).event_log() + scheme_score_events(old(game)@.overlord_cards, scored@),
{
    let mut i: usize = 0;
    while i < scored.len()
        invariant
            i <= scored.len(),
            forall|k: int|
                0 <= k < scored.len() ==> old(game)@.has_card((#[trigger] scored@[k]).0) && scored@[k].0.side
                    == Side::Overlord,
            forall|a: int, b: int|
                0 <= a < b < scored.len() ==> (#[trigger] scored@[a]).0 != (#[trigger] scored@[b]).0,
            old(game)@.overlord.score + points_of(scored@) <= u32::MAX,
            old(game)@.ids_consistent(),
            schemes_scored(old(game)@, game@, scored@.subrange(0, i as int)),
            game@.ids_consistent(),
            game.update_log() == old(game).update_log() + scheme_score_updates(
                old(game)@.overlord_cards,
                scored@.subrange(0, i as int),
                old(game)@.overlord.score as int,
            ),
            game.event_log() == old(game).event_log() + scheme_score_events(
                old(game)@.overlord_cards,
                scored@.subrange(0, i as int),
            ),
        decreases scored.len() - i,
    {
        let (id, points) = scored[i];
        let ghost before = game@;
        let ghost done = scored@.subrange(0, i as int);
        let ghost now = scored@.subrange(0, i + 1);
        let ghost updates_before = game.update_log();
        let ghost events_before = game.event_log();
        proof {
            assert(now =~= done.push((id, points)));
            assert(now.drop_last() =~= done);
            assert(!scored_ids(done).contains(id)) by {
                if scored_ids(done).contains(id) {
                    let m = choose|m: int| 0 <= m < scored_ids(done).len() && scored_ids(done)[m] == id;
                    assert(scored@[m].0 == scored@[i as int].0);
                }
            }
            assert(old(game)@.has_card(id));
            assert(before.card(id) == old(game)@.card(id));
            lemma_points_of_prefix(scored@, i + 1);
            lemma_points_of_nonnegative(done);
        }
        turn_face_up(game, id);
        move_card(game, id, CardPosition::Scored(Side::Overlord));
        game.push_event(DelegateEvent::OverlordScoreCard(id));
        game.push_update(GameUpdate::OverlordScoreCard(id, points));
        let ghost moved = game@;
        score_points(game, Side::Overlord, points);
        proof {
            assert(game.update_log() =~= old(game).update_log() + scheme_score_updates(
                old(game)@.overlord_cards,
                now,
                old(game)@.overlord.score as int,
            ));
            assert(game.event_log() =~= old(game).event_log() + scheme_score_events(
                old(game)@.overlord_cards,
                now,
            ));
            assert forall|k: int| 0 <= k < now.len() implies game@.card((#[trigger] now[k]).0) == scheme_scored(
                old(game)@.card(now[k].0),
            ) by {
                if k < i {
                    assert(now[k] == done[k]);
                    assert(scored_ids(done)[k] == now[k].0);
                    assert(now[k].0 != id);
                }
            }
            assert forall|x: CardId| #[trigger] old(game)@.has_card(x) && !scored_ids(now).contains(x) implies game@.card(
                x,
            ) == old(game)@.card(x) by {
                assert(!scored_ids(done).contains(x)) by {
                    if scored_ids(done).contains(x) {
                        let m = choose|m: int| 0 <= m < scored_ids(done).len() && scored_ids(done)[m] == x;
                        assert(scored_ids(now)[m] == x);
                    }
                }
                assert(x != id) by {
                    if x == id {
                        assert(scored_ids(now)[i as int] == x);
                    }
                }
            }
        }
        i += 1;
    }
    assert(scored@.subrange(0, i as int) =~= scored@);
}

/// The updates and events of scoring cards depend only on whether the cards were revealed to the
/// Champion and where they were.
pub proof fn lemma_scheme_score_logs(
    a: Seq<CardState>,
    b: Seq<CardState>,
    scored: Seq<(CardId, PointsValue)>,
    score: int,
)
    requires
        forall|k: int|
            0 <= k < scored.len() ==> {
                let index = (#[trigger] scored[k]).0.index as int;
                &&& a[index]@.revealed_to(Side::Champion) == b[index]@.revealed_to(Side::Champion)
                &&& a[index]@.position == b[index]@.position
            },
    ensures
        scheme_score_updates(a, scored, score) == scheme_score_updates(b, scored, score),
        scheme_score_events(a, scored) == scheme_score_events(b, scored),
    decreases scored.len(),
{
    if scored.len() > 0 {
        let rest = scored.drop_last();
        assert forall|k: int| 0 <= k < rest.len() implies {
            let index = (#[trigger] rest[k]).0.index as int;
            &&& a[index]@.revealed_to(Side::Champion) == b[index]@.revealed_to(Side::Champion)
            &&& a[index]@.position == b[index]@.position
        } by {
            assert(rest[k] == scored[k]);
        }
        lemma_scheme_score_logs(a, b, rest, score);
        assert(scored.last() == scored[scored.len() - 1]);
    }
}

/// The cards that leveling up `room` scores, `stats` giving the stats of each of its occupants.
pub open spec fn room_schemes(game: GameStateView, room: RoomId, stats: Seq<CardStats>) -> Seq<(CardId, PointsValue)> {
    leveled_schemes(game.overlord_cards, occupant_ids(game.overlord_cards, room), stats)
}

/// `after` is `before` once the room `room` has been leveled up (`stats` giving the stats of each
/// of its occupants): the cards that can level up are one level higher, and then those that
/// reached the level of their scheme are scored, in order.
pub open spec fn room_leveled(before: GameStateView, after: GameStateView, room: RoomId, stats: Seq<CardStats>) -> bool {
    exists|leveled: GameStateView|
        #![trigger levels_raised(before, leveled, occupant_ids(before.overlord_cards, room), stats)]
        levels_raised(before, leveled, occupant_ids(before.overlord_cards, room), stats) && schemes_scored(
            leveled,
            after,
            room_schemes(before, room, stats),
        )
}

/// Raises by one the level of each card occupying `room_id` whose stats let it level up
/// (`stats` giving the stats of each occupant, in order). A card that reaches the level at which
/// its scheme is scored is then scored, in the same order: turned face up, moved to the
/// Overlord's score zone, and its points given to the Overlord, who wins on reaching
/// [POINTS_TO_WIN]. Spends no mana and no action point.
pub fn level_up_room(game: &mut GameState, room_id: RoomId, stats: &Vec<CardStats>)
    requires
        old(game)@.ids_consistent(),
        stats.len() == occupant_ids(old(game)@.overlord_cards, room_id).len(),
        forall|k: int|
            0 <= k < stats.len() && (#[trigger] stats@[k]).can_level_up ==> old(game)@.card(
                occupant_ids(old(game)@.overlord_cards, room_id)[k],
            ).data.card_level < u32::MAX,
        old(game)@.overlord.score + points_of(room_schemes(old(game)@, room_id, stats@)) <= u32::MAX,
    ensures
        room_leveled(old(game)@, final(game)@, room_id, stats@),
        final(game).update_log() == old(game).update_log() + scheme_score_updates(
            old(game)@.overlord_cards,
            room_schemes(old(game)@, room_id, stats@),
            old(game)@.overlord.score as int,
        ),
        final(game).event_log() == old(game).event_log() + scheme_score_events(
            old(game)@.overlord_cards,
            room_schemes(old(game)@, room_id, stats@),
        ),
        final(game)@.ids_consistent(),
{
    let occupants = game.occupants(room_id);
    proof {
        game.lemma_card_lists_fit();
        crate::game::lemma_occupant_ids_ordered(game@.overlord_cards, room_id);
        crate::game::lemma_occupant_ids_valid(game@, room_id);
        assert forall|a: int, b: int| 0 <= a < b < occupants@.len() implies occupants@[a] != occupants@[b] by {
            assert(occupants@[a].index < occupants@[b].index);
        }
        lemma_leveled_schemes(game@.overlord_cards, occupants@, stats@);
    }
    let scored = level_up_cards(game, &occupants, stats);
    let ghost leveled = game@;
    proof {
        let ids = occupants@;
        assert forall|k: int| 0 <= k < scored.len() implies old(game)@.has_card((#[trigger] scored@[k]).0)
            && scored@[k].0.side == Side::Overlord by {
            assert(ids.contains(scored@[k].0));
            let m = choose|m: int| 0 <= m < ids.len() && ids[m] == scored@[k].0;
            assert(old(game)@.has_card(ids[m]));
        }
        assert forall|k: int| 0 <= k < scored.len() implies {
            let index = (#[trigger] scored@[k]).0.index as int;
            &&& old(game)@.overlord_cards[index]@.revealed_to(Side::Champion)
                == leveled.overlord_cards[index]@.revealed_to(Side::Champion)
            &&& old(game)@.overlord_cards[index]@.position == leveled.overlord_cards[index]@.position
        } by {
            let id = scored@[k].0;
            assert(ids.contains(id));
            let m = choose|m: int| 0 <= m < ids.len() && ids[m] == id;
            assert(leveled.card(ids[m]) == if stats@[m].can_level_up {
                leveled_up(old(game)@.card(ids[m]))
            } else {
                old(game)@.card(ids[m])
            });
        }
        lemma_scheme_score_logs(
            old(game)@.overlord_cards,
            leveled.overlord_cards,
            scored@,
            old(game)@.overlord.score as int,
        );
        assert(leveled.overlord == old(game)@.overlord);
    }
    score_schemes(game, &scored);
    assert(levels_raised(old(game)@, leveled, occupant_ids(old(game)@.overlord_cards, room_id), stats@));
}

/// A card is unveiled when it is face down and in play, a custom cost that it has can be paid,
/// and its owner has the mana that it costs (`cost.mana`; `None` when it has no mana cost).
pub open spec fn spec_unveils(game: GameStateView, card_id: CardId, cost: DefenderCost) -> bool {
    let card = game.card(card_id);
    &&& !card.face_up
    &&& card.position.spec_in_play()
    &&& cost.custom_cost_payable != Some(false)
    &&& cost.mana matches Some(mana) ==> mana <= mana::spec_get(
        game,
        card_id.side,
        mana::ManaPurpose::PayForCard(card_id),
    )
}

/// `game` once the owner of `card_id` has paid its mana cost `mana` (nothing when it is `None`).
pub open spec fn card_paid(game: GameStateView, card_id: CardId, mana: Option<ManaValue>) -> GameStateView {
    match mana {
        Some(amount) => (GameStateView { modified: true, ..game }).with_player(
            card_id.side,
            mana::spent_player(game, card_id.side, amount),
        ),
        None => game,
    }
}

/// Pays the cost of a face-down card in play and turns it face up, `cost` saying what its card
/// rules give of that cost: its mana cost and whether a custom cost of it can be paid. Returns
/// whether the card was unveiled; it is not, and nothing changes, when the card is face up or
/// not in play, or its cost cannot be paid.
pub fn unveil_card(game: &mut GameState, card_id: CardId, cost: DefenderCost) -> (result: bool)
    requires
        old(game)@.has_card(card_id),
        mana::mana_fits(old(game)@, card_id.side),
    ensures
        result == spec_unveils(old(game)@, card_id, cost),
        !result ==> final(game)@ == old(game)@ && final(game).update_log() == old(game).update_log(),
        result ==> {
            let paid = card_paid(old(game)@, card_id, cost.mana);
            &&& final(game)@.has_card(card_id)
            &&& final(game)@.card(card_id) == turned_up(old(game)@.card(card_id))
            &&& final(game)@ == paid.with_card(card_id, final(game)@.cards(card_id.side)[card_id.index as int])
            &&& final(game).update_log() == if !old(game)@.card(card_id).revealed_to(card_id.side.spec_opponent()) {
                old(game).update_log().push(GameUpdate::RevealToOpponent(card_id))
            } else {
                old(game).update_log()
            }
        },
        final(game).event_log() == old(game).event_log(),
{
    if !game.card(card_id).is_face_down() || !game.card(card_id).position().in_play() {
        return false;
    }
    if cost.custom_cost_payable == Some(false) {
        return false;
    }
    match cost.mana {
        None => {
            turn_face_up(game, card_id);
            true
        },
        Some(amount) => {
            if amount > mana::get(game, card_id.side, mana::ManaPurpose::PayForCard(card_id)) {
                return false;
            }
            let paid = mana::spend(game, card_id.side, mana::ManaPurpose::PayForCard(card_id), amount);
            if paid.is_err() {
                return false;
            }
            assert(game@.cards(card_id.side) == old(game)@.cards(card_id.side));
            turn_face_up(game, card_id);
            true
        },
    }
}

} // verus!
