//! The state of one game: both players, all cards and the general game data.
use vstd::prelude::*;

use crate::game_actions::Prompt;
use crate::card_state::{CardPosition, CardPositionTypes, CardState, CardStateView};
use crate::delegates::CardMoved;
use crate::laws::{game_call_effect, GameCall};
use crate::raid::RaidOutcome;
use crate::primitives::{
    ActionCount, CardId, CardName, ManaValue, PointsValue, RaidId, RoomId, RoomLocation, Side,
    TurnNumber,
};
use rand::rngs::ThreadRng;
use rand::seq::IteratorRandom;

verus! {

#[verifier::external_type_specification]
#[verifier::external_body]
pub struct ExThreadRng(ThreadRng);

/// `Clone` of the rand crate's `ThreadRng`: it hands out another handle to the same thread-local
/// generator. Nothing is stated of the result.
pub assume_specification[ <ThreadRng as Clone>::clone ](rng: &ThreadRng) -> ThreadRng;

/// A change to the game that the players' clients are told of.
#[derive(PartialEq, Eq, Structural, Hash, Debug, Copy, Clone)]
pub enum GameUpdate {
    /// A card moved from its owner's deck to their hand
    DrawCard(CardId),
    /// A card was shuffled into a deck
    ShuffleIntoDeck(CardId),
    /// A card moved to a discard pile, a room or the arena
    MoveToZone(CardId),
    /// A card was revealed to the opponent of its owner
    RevealToOpponent(CardId),
    /// The game ended
    GameOver(Side),
    /// A player's turn started
    StartTurn(Side),
    /// One game object acted on another
    TargetedInteraction(GameObjectId, GameObjectId),
    /// The Overlord scored a card for this many points
    OverlordScoreCard(CardId, PointsValue),
}

/// Something that the clients can show an interaction between.
#[derive(PartialEq, Eq, Structural, Hash, Debug, Copy, Clone)]
pub enum GameObjectId {
    Card(CardId),
    /// A player's identity
    Identity(Side),
}

/// An event that the delegates of cards respond to.
#[derive(PartialEq, Eq, Structural, Hash, Debug, Copy, Clone)]
pub enum DelegateEvent {
    /// The Champion's turn begins
    Dawn(TurnNumber),
    /// The Overlord's turn begins
    Dusk(TurnNumber),
    /// A card moved from a deck to a hand
    DrawCard(CardId),
    /// A card moved
    MoveCard(CardMoved),
    /// Stored mana was taken from a card
    StoredManaTaken(CardId),
    /// A raid ended with this outcome
    RaidEnd(RaidState, RaidOutcome),
    /// During the raid, the weapon (first card) was used on the minion (second card), for this
    /// much mana
    UsedWeapon(RaidId, CardId, CardId, ManaValue),
    /// A minion was defeated
    MinionDefeated(CardId),
    /// A minion's combat ability fires
    MinionCombatAbility(CardId),
    /// The Overlord scored a card
    OverlordScoreCard(CardId),
}

/// Mana which a player may only spend during one particular raid.
#[derive(PartialEq, Eq, Structural, Hash, Debug, Copy, Clone)]
pub struct SpecificRaidMana {
    pub raid_id: RaidId,
    pub mana: ManaValue,
}

/// The state of one player.
#[derive(Debug, Clone)]
pub struct PlayerState {
    /// Mana available for any purpose.
    pub mana: ManaValue,
    pub actions: ActionCount,
    pub score: PointsValue,
    /// Additional mana that may only be spent during the raid it names.
    pub specific_raid_mana: Option<SpecificRaidMana>,
    /// The choice that the player is being asked to make, if any.
    pub prompt: Option<Prompt>,
}

impl PlayerState {
    pub open spec fn spec_initial() -> PlayerState {
        PlayerState { mana: 0, actions: 0, score: 0, specific_raid_mana: None, prompt: None }
    }
}

impl Default for PlayerState {
    fn default() -> (result: PlayerState)
        ensures
            result == PlayerState::spec_initial(),
    {
        PlayerState { mana: 0, actions: 0, score: 0, specific_raid_mana: None, prompt: None }
    }
}

#[derive(PartialEq, Eq, Structural, Hash, Debug, Copy, Clone)]
pub struct AnimationBuffer {}

impl Default for AnimationBuffer {
    fn default() -> (result: AnimationBuffer)
        ensures
            result == (AnimationBuffer {}),
    {
        AnimationBuffer {}
    }
}

/// The step that a raid has reached.
#[derive(PartialEq, Eq, Structural, Hash, Debug, Copy, Clone)]
pub enum RaidPhase {
    Begin,
    /// The Overlord decides whether to activate the room.
    Activation,
    /// The Champion encounters the defender at this position.
    Encounter(usize),
    /// The Champion decides whether to go on past the defender at this position.
    Continue(usize),
    /// The Champion accesses the cards of the room.
    Access,
}

/// An ongoing raid.
#[derive(PartialEq, Eq, Structural, Hash, Debug, Copy, Clone)]
pub struct RaidState {
    /// Unique ID for this raid
    pub raid_id: RaidId,
    /// Encounter position within this raid
    pub encounter_number: u32,
    /// Player who is next to act within this raid
    pub priority: Side,
    /// The room being raided
    pub target: RoomId,
    /// The step that the raid has reached
    pub phase: RaidPhase,
    /// Whether the Overlord activated the room
    pub room_active: bool,
}

#[derive(PartialEq, Eq, Structural, Hash, Debug, Copy, Clone)]
pub enum MulliganDecision {
    /// The player keeps their opening hand
    Keep,
    /// The player shuffles their opening hand back and draws a new one
    Mulligan,
}

/// The mulligan decisions taken so far.
#[derive(PartialEq, Eq, Structural, Hash, Debug, Copy, Clone)]
pub struct MulliganData {
    pub overlord: Option<MulliganDecision>,
    pub champion: Option<MulliganDecision>,
}

impl MulliganData {
    pub open spec fn spec_decision(self, side: Side) -> Option<MulliganDecision> {
        match side {
            Side::Overlord => self.overlord,
            Side::Champion => self.champion,
        }
    }

    /// The decision that `side` has taken, if any.
    #[verifier::when_used_as_spec(spec_decision)]
    pub fn decision(self, side: Side) -> (result: Option<MulliganDecision>)
        ensures
            result == self.spec_decision(side),
    {
        match side {
            Side::Overlord => self.overlord,
            Side::Champion => self.champion,
        }
    }
}

#[derive(PartialEq, Eq, Structural, Hash, Debug, Copy, Clone)]
pub struct GameOverData {
    pub winner: Side,
}

/// The stage that the game has reached.
#[derive(PartialEq, Eq, Structural, Hash, Debug, Copy, Clone)]
pub enum GamePhase {
    /// Both players decide whether to keep their opening hands
    ResolveMulligans(MulliganData),
    /// Turns are being played
    Play,
    /// The game has ended
    GameOver(GameOverData),
}

/// General game state.
#[derive(PartialEq, Eq, Structural, Hash, Debug, Copy, Clone)]
pub struct GameData {
    /// The stage that the game has reached
    pub phase: GamePhase,
    /// Current player whose turn it is
    pub turn: Side,
    /// Turn number for that player
    pub turn_number: TurnNumber,
    /// Data about an ongoing raid, if any
    pub raid: Option<RaidState>,
}

impl GameData {
    pub open spec fn spec_initial() -> GameData {
        GameData {
            phase: GamePhase::ResolveMulligans(MulliganData { overlord: None, champion: None }),
            turn: Side::Overlord,
            turn_number: 1,
            raid: None,
        }
    }
}

/// What can be known of a [GameState]. The random number generator is not part of it.
pub ghost struct GameStateView {
    pub id: Seq<char>,
    pub overlord_cards: Seq<CardState>,
    pub champion_cards: Seq<CardState>,
    pub overlord: PlayerState,
    pub champion: PlayerState,
    pub data: GameData,
    pub modified: bool,
    pub animations: AnimationBuffer,
}

/// The ids of the cards in `cards` (in order) whose position is of kind `kind`.
pub open spec fn ids_in_kind(cards: Seq<CardState>, kind: CardPositionTypes) -> Seq<CardId>
    decreases cards.len(),
{
    if cards.len() == 0 {
        Seq::empty()
    } else {
        let earlier = ids_in_kind(cards.drop_last(), kind);
        if cards.last()@.position.spec_kind() == kind {
            earlier.push(cards.last()@.id)
        } else {
            earlier
        }
    }
}

/// The position is one of the defender slots of `room`.
pub open spec fn defends(position: CardPosition, room: RoomId) -> bool {
    position matches CardPosition::Room(r, RoomLocation::Defender(_)) && r == room
}

/// The position is inside `room`, behind its defenders.
pub open spec fn occupies(position: CardPosition, room: RoomId) -> bool {
    position == CardPosition::Room(room, RoomLocation::InRoom)
}

/// The ids of the cards in `cards` (in order) that defend `room`.
pub open spec fn defender_ids(cards: Seq<CardState>, room: RoomId) -> Seq<CardId>
    decreases cards.len(),
{
    if cards.len() == 0 {
        Seq::empty()
    } else {
        let earlier = defender_ids(cards.drop_last(), room);
        if defends(cards.last()@.position, room) {
            earlier.push(cards.last()@.id)
        } else {
            earlier
        }
    }
}

/// The ids of the cards in `cards` (in order) that occupy `room`.
pub open spec fn occupant_ids(cards: Seq<CardState>, room: RoomId) -> Seq<CardId>
    decreases cards.len(),
{
    if cards.len() == 0 {
        Seq::empty()
    } else {
        let earlier = occupant_ids(cards.drop_last(), room);
        if occupies(cards.last()@.position, room) {
            earlier.push(cards.last()@.id)
        } else {
            earlier
        }
    }
}

/// A freshly dealt deck: card `i` is an instance of `names[i]`, lies in its owner's deck and
/// carries empty data.
pub open spec fn is_new_deck(cards: Seq<CardState>, names: Seq<CardName>, side: Side) -> bool {
    &&& cards.len() == names.len()
    &&& forall|i: int|
        0 <= i < cards.len() ==> {
            let card = #[trigger] cards[i]@;
            &&& card.id == CardId { side, index: i as usize }
            &&& card.name == names[i]
            &&& card.position == CardPosition::Deck(side)
            &&& !card.position_modified
            &&& card.data.spec_empty()
            &&& !card.data_modified
            &&& !card.face_up
            &&& !card.revealed_to_overlord
            &&& !card.revealed_to_champion
        }
}

impl GameStateView {
    pub open spec fn player(self, side: Side) -> PlayerState {
        match side {
            Side::Overlord => self.overlord,
            Side::Champion => self.champion,
        }
    }

    pub open spec fn cards(self, side: Side) -> Seq<CardState> {
        match side {
            Side::Overlord => self.overlord_cards,
            Side::Champion => self.champion_cards,
        }
    }

    pub open spec fn has_card(self, card_id: CardId) -> bool {
        card_id.index < self.cards(card_id.side).len()
    }

    pub open spec fn card(self, card_id: CardId) -> CardStateView {
        self.cards(card_id.side)[card_id.index as int]@
    }

    /// The ids of every card, the Overlord's first.
    pub open spec fn all_card_ids(self) -> Seq<CardId> {
        Seq::new(self.overlord_cards.len(), |i: int| CardId { side: Side::Overlord, index: i as usize })
            + Seq::new(
            self.champion_cards.len(),
            |i: int| CardId { side: Side::Champion, index: i as usize },
        )
    }

    /// This game with the state of player `side` replaced.
    pub open spec fn with_player(self, side: Side, player: PlayerState) -> GameStateView {
        match side {
            Side::Overlord => GameStateView { overlord: player, ..self },
            Side::Champion => GameStateView { champion: player, ..self },
        }
    }

    /// This game with the card list of `side` replaced.
    pub open spec fn with_cards(self, side: Side, cards: Seq<CardState>) -> GameStateView {
        match side {
            Side::Overlord => GameStateView { overlord_cards: cards, ..self },
            Side::Champion => GameStateView { champion_cards: cards, ..self },
        }
    }

    /// This game with one card's state replaced.
    pub open spec fn with_card(self, card_id: CardId, card: CardState) -> GameStateView {
        self.with_cards(card_id.side, self.cards(card_id.side).update(card_id.index as int, card))
    }

    /// Every card is stored at the index that its id names, in the list of the side it names.
    pub open spec fn ids_consistent(self) -> bool {
        &&& forall|i: int|
            0 <= i < self.overlord_cards.len() ==> (#[trigger] self.overlord_cards[i])@.id
                == CardId { side: Side::Overlord, index: i as usize }
        &&& forall|i: int|
            0 <= i < self.champion_cards.len() ==> (#[trigger] self.champion_cards[i])@.id
                == CardId { side: Side::Champion, index: i as usize }
    }
}

/// Every id in `defender_ids(cards, room)` is the id of one of `cards`, a card that defends
/// `room`.
pub proof fn lemma_defender_ids_in(cards: Seq<CardState>, room: RoomId)
    ensures
        forall|i: int|
            #![trigger defender_ids(cards, room)[i]]
            0 <= i < defender_ids(cards, room).len() ==> exists|j: int|
                0 <= j < cards.len() && (#[trigger] cards[j])@.id == defender_ids(cards, room)[i] && defends(
                    cards[j]@.position,
                    room,
                ),
    decreases cards.len(),
{
    if cards.len() > 0 {
        lemma_defender_ids_in(cards.drop_last(), room);
        let earlier = defender_ids(cards.drop_last(), room);
        assert forall|i: int|
            #![trigger defender_ids(cards, room)[i]]
            0 <= i < defender_ids(cards, room).len() implies exists|j: int|
            0 <= j < cards.len() && (#[trigger] cards[j])@.id == defender_ids(cards, room)[i] && defends(
                cards[j]@.position,
                room,
            ) by {
            if i < earlier.len() {
                let j = choose|j: int|
                    0 <= j < cards.drop_last().len() && (#[trigger] cards.drop_last()[j])@.id
                        == earlier[i] && defends(cards.drop_last()[j]@.position, room);
                assert(cards[j] == cards.drop_last()[j]);
            } else {
                assert(cards[cards.len() - 1]@.id == defender_ids(cards, room)[i]);
            }
        }
    }
}

/// In a game whose card ids are consistent, every defender id names a card of the game.
pub proof fn lemma_defender_ids_valid(game: GameStateView, room: RoomId)
    requires
        game.ids_consistent(),
    ensures
        forall|i: int|
            0 <= i < defender_ids(game.overlord_cards, room).len() ==> game.has_card(
                #[trigger] defender_ids(game.overlord_cards, room)[i],
            ),
{
    lemma_defender_ids_in(game.overlord_cards, room);
    assert forall|i: int|
        0 <= i < defender_ids(game.overlord_cards, room).len() implies game.has_card(
        #[trigger] defender_ids(game.overlord_cards, room)[i],
    ) by {
        let j = choose|j: int|
            0 <= j < game.overlord_cards.len() && (#[trigger] game.overlord_cards[j])@.id
                == defender_ids(game.overlord_cards, room)[i];
        assert(game.overlord_cards[j]@.id == CardId { side: Side::Overlord, index: j as usize });
    }
}

/// Two card lists with the same ids in the same positions have the same defenders and occupants.
pub proof fn lemma_same_positions(a: Seq<CardState>, b: Seq<CardState>, room: RoomId)
    requires
        a.len() == b.len(),
        forall|i: int| 0 <= i < a.len() ==> (#[trigger] a[i])@.position == b[i]@.position && a[i]@.id == b[i]@.id,
    ensures
        defender_ids(a, room) == defender_ids(b, room),
        occupant_ids(a, room) == occupant_ids(b, room),
    decreases a.len(),
{
    if a.len() > 0 {
        assert(a.last() == a[a.len() - 1]);
        lemma_same_positions(a.drop_last(), b.drop_last(), room);
    }
}

/// Every occupant id is the id of one of `cards`.
pub proof fn lemma_occupant_ids_in(cards: Seq<CardState>, room: RoomId)
    ensures
        forall|i: int|
            #![trigger occupant_ids(cards, room)[i]]
            0 <= i < occupant_ids(cards, room).len() ==> exists|j: int|
                0 <= j < cards.len() && (#[trigger] cards[j])@.id == occupant_ids(cards, room)[i],
    decreases cards.len(),
{
    if cards.len() > 0 {
        lemma_occupant_ids_in(cards.drop_last(), room);
        let earlier = occupant_ids(cards.drop_last(), room);
        assert forall|i: int|
            #![trigger occupant_ids(cards, room)[i]]
            0 <= i < occupant_ids(cards, room).len() implies exists|j: int|
            0 <= j < cards.len() && (#[trigger] cards[j])@.id == occupant_ids(cards, room)[i] by {
            if i < earlier.len() {
                let j = choose|j: int|
                    0 <= j < cards.drop_last().len() && (#[trigger] cards.drop_last()[j])@.id
                        == earlier[i];
                assert(cards[j] == cards.drop_last()[j]);
            } else {
                assert(cards[cards.len() - 1]@.id == occupant_ids(cards, room)[i]);
            }
        }
    }
}

/// Where each Overlord card holds its own id, the occupant ids of a room are Overlord ids in
/// increasing index order, so none occurs twice.
pub proof fn lemma_occupant_ids_ordered(cards: Seq<CardState>, room: RoomId)
    requires
        cards.len() <= usize::MAX,
        forall|j: int|
            0 <= j < cards.len() ==> (#[trigger] cards[j])@.id == (CardId { side: Side::Overlord, index: j as usize }),
    ensures
        forall|i: int|
            0 <= i < occupant_ids(cards, room).len() ==> (#[trigger] occupant_ids(cards, room)[i]).side
                == Side::Overlord && occupant_ids(cards, room)[i].index < cards.len(),
        forall|i: int, j: int|
            0 <= i < j < occupant_ids(cards, room).len() ==> (#[trigger] occupant_ids(cards, room)[i]).index
                < (#[trigger] occupant_ids(cards, room)[j]).index,
    decreases cards.len(),
{
    if cards.len() > 0 {
        let rest = cards.drop_last();
        assert forall|j: int| 0 <= j < rest.len() implies (#[trigger] rest[j])@.id == (CardId {
            side: Side::Overlord,
            index: j as usize,
        }) by {
            assert(rest[j] == cards[j]);
        }
        lemma_occupant_ids_ordered(rest, room);
        assert(cards.last() == cards[cards.len() - 1]);
        let ids = occupant_ids(cards, room);
        let earlier = occupant_ids(rest, room);
        assert forall|i: int, j: int| 0 <= i < j < ids.len() implies (#[trigger] ids[i]).index < (
        #[trigger] ids[j]).index by {
            if occupies(cards.last()@.position, room) {
                assert(ids == earlier.push(cards.last()@.id));
            } else {
                assert(ids == earlier);
            }
            assert(ids[i] == earlier[i]);
            assert(earlier[i].index < rest.len());
            if j < earlier.len() {
                assert(ids[j] == earlier[j]);
            } else {
                assert(ids[j] == cards.last()@.id);
            }
        }
    }
}

/// In a game whose card ids are consistent, every occupant id names a card of the game.
pub proof fn lemma_occupant_ids_valid(game: GameStateView, room: RoomId)
    requires
        game.ids_consistent(),
    ensures
        forall|i: int|
            0 <= i < occupant_ids(game.overlord_cards, room).len() ==> game.has_card(
                #[trigger] occupant_ids(game.overlord_cards, room)[i],
            ),
{
    lemma_occupant_ids_in(game.overlord_cards, room);
    assert forall|i: int|
        0 <= i < occupant_ids(game.overlord_cards, room).len() implies game.has_card(
        #[trigger] occupant_ids(game.overlord_cards, room)[i],
    ) by {
        let j = choose|j: int|
            0 <= j < game.overlord_cards.len() && (#[trigger] game.overlord_cards[j])@.id
                == occupant_ids(game.overlord_cards, room)[i];
        assert(game.overlord_cards[j]@.id == CardId { side: Side::Overlord, index: j as usize });
    }
}

/// In a card list whose ids match their positions, the ids of the cards in positions of one kind
/// name distinct cards of that list, each in a position of that kind.
pub proof fn lemma_ids_in_kind(cards: Seq<CardState>, side: Side, kind: CardPositionTypes)
    requires
        cards.len() <= usize::MAX,
        forall|i: int|
            0 <= i < cards.len() ==> (#[trigger] cards[i])@.id == (CardId { side, index: i as usize }),
    ensures
        forall|k: int|
            #![trigger ids_in_kind(cards, kind)[k]]
            0 <= k < ids_in_kind(cards, kind).len() ==> ({
                let id = ids_in_kind(cards, kind)[k];
                &&& id.side == side
                &&& id.index < cards.len()
                &&& cards[id.index as int]@.position.spec_kind() == kind
            }),
        ids_in_kind(cards, kind).no_duplicates(),
    decreases cards.len(),
{
    if cards.len() > 0 {
        let earlier_cards = cards.drop_last();
        assert forall|i: int| 0 <= i < earlier_cards.len() implies (#[trigger] earlier_cards[i])@.id
            == CardId { side, index: i as usize } by {
            assert(earlier_cards[i] == cards[i]);
        }
        lemma_ids_in_kind(earlier_cards, side, kind);
        let earlier = ids_in_kind(earlier_cards, kind);
        let result = ids_in_kind(cards, kind);
        let last = cards[cards.len() - 1]@;
        assert(last.id == CardId { side, index: (cards.len() - 1) as usize });
        assert forall|k: int| 0 <= k < earlier.len() implies (#[trigger] earlier[k]).index < cards.len() - 1
            && cards[earlier[k].index as int] == earlier_cards[earlier[k].index as int]
            && earlier[k].side == side
            && cards[earlier[k].index as int]@.position.spec_kind() == kind by {
            assert(earlier_cards[earlier[k].index as int] == cards[earlier[k].index as int]);
        }
        if last.position.spec_kind() == kind {
            assert(result == earlier.push(last.id));
            assert forall|k: int|
                #![trigger ids_in_kind(cards, kind)[k]]
                0 <= k < result.len() implies ({
                let id = result[k];
                &&& id.side == side
                &&& id.index < cards.len()
                &&& cards[id.index as int]@.position.spec_kind() == kind
            }) by {
                if k < earlier.len() {
                    assert(result[k] == earlier[k]);
                    let id = earlier[k];
                    assert(id.side == side);
                    assert(id.index < cards.len() - 1);
                    assert(cards[id.index as int]@.position.spec_kind() == kind);
                } else {
                    assert(k == earlier.len());
                    assert(result[k] == last.id);
                    assert(last.id.index == cards.len() - 1);
                    assert(cards[last.id.index as int]@ == last);
                }
            }
            assert forall|a: int, b: int| 0 <= a < result.len() && 0 <= b < result.len() && a != b implies result[a]
                != result[b] by {
                if a < earlier.len() && b < earlier.len() {
                    assert(result[a] == earlier[a] && result[b] == earlier[b]);
                    assert(earlier[a] != earlier[b]);
                } else if a < earlier.len() {
                    assert(result[a] == earlier[a]);
                    assert(earlier[a].index < cards.len() - 1);
                    assert(result[b] == last.id);
                } else {
                    assert(result[b] == earlier[b]);
                    assert(earlier[b].index < cards.len() - 1);
                    assert(result[a] == last.id);
                }
            }
        } else {
            assert(result == earlier);
        }
    }
}

/// Replacing a card twice is replacing it once, with the second state.
pub proof fn lemma_with_card_twice(game: GameStateView, card_id: CardId, first: CardState, second: CardState)
    requires
        game.has_card(card_id),
    ensures
        game.with_card(card_id, first).with_card(card_id, second) == game.with_card(card_id, second),
        game.with_card(card_id, first).has_card(card_id),
{
    assert(game.with_card(card_id, first).cards(card_id.side) =~= game.cards(card_id.side).update(
        card_id.index as int,
        first,
    ));
    assert(game.with_card(card_id, first).with_card(card_id, second).cards(card_id.side) =~= game.with_card(card_id, second).cards(card_id.side));
}

/// The state of one game.
#[derive(Debug, Clone)]
pub struct GameState {
    id: String,
    overlord_cards: Vec<CardState>,
    champion_cards: Vec<CardState>,
    rng: ThreadRng,
    overlord: PlayerState,
    champion: PlayerState,
    data: GameData,
    modified: bool,
    animations: AnimationBuffer,
    updates: Vec<GameUpdate>,
    events: Vec<DelegateEvent>,
}

impl View for GameState {
    type V = GameStateView;

    closed spec fn view(&self) -> GameStateView {
        GameStateView {
            id: self.id@,
            overlord_cards: self.overlord_cards@,
            champion_cards: self.champion_cards@,
            overlord: self.overlord,
            champion: self.champion,
            data: self.data,
            modified: self.modified,
            animations: self.animations,
        }
    }
}

/// A generator of random numbers for a new game.
#[verifier::external_body]
fn fresh_rng() -> ThreadRng {
    rand::thread_rng()
}

/// Calls `IteratorRandom::choose` of the rand crate on the ids. Its documentation promises
/// `None` if and only if the iterator is empty; otherwise the result is one of its items. Which
/// item comes out depends on the generator and is not stated.
#[verifier::external_body]
fn choose_card_id(ids: Vec<CardId>, rng: &mut ThreadRng) -> (result: Option<CardId>)
    ensures
        result is None <==> ids@.len() == 0,
        result matches Some(id) ==> ids@.contains(id),
{
    ids.into_iter().choose(rng)
}

/// Calls `IteratorRandom::choose_multiple` of the rand crate on the ids. Its documentation
/// promises `amount` items, or all of them when the iterator has fewer. Its source (reservoir
/// sampling) takes each item from a distinct position of the iterator. Which items are chosen, and
/// in what order, depends on the generator and is not stated.
#[verifier::external_body]
fn choose_card_ids(ids: Vec<CardId>, amount: usize, rng: &mut ThreadRng) -> (result: Vec<CardId>)
    ensures
        result@.len() == if amount < ids@.len() {
            amount as int
        } else {
            ids@.len() as int
        },
        forall|i: int| 0 <= i < result@.len() ==> ids@.contains(#[trigger] result@[i]),
        ids@.no_duplicates() ==> result@.no_duplicates(),
{
    ids.into_iter().choose_multiple(rng, amount)
}

impl GameState {
    /// A new game: both decks are dealt face down, mulligans are yet to be decided and the
    /// Overlord will take the first turn.
    pub fn new_game(id: String, overlord_deck: Vec<CardName>, champion_deck: Vec<CardName>) -> (result: GameState)
        ensures
            result@.id == id@,
            is_new_deck(result@.overlord_cards, overlord_deck@, Side::Overlord),
            is_new_deck(result@.champion_cards, champion_deck@, Side::Champion),
            result@.overlord == PlayerState::spec_initial(),
            result@.champion == PlayerState::spec_initial(),
            result@.data == GameData::spec_initial(),
            !result@.modified,
            result@.ids_consistent(),
            result.update_log() == Seq::<GameUpdate>::empty(),
            result.event_log() == Seq::<DelegateEvent>::empty(),
    {
        GameState {
            id,
            overlord_cards: Self::make_deck(overlord_deck, Side::Overlord),
            champion_cards: Self::make_deck(champion_deck, Side::Champion),
            rng: fresh_rng(),
            overlord: PlayerState::default(),
            champion: PlayerState::default(),
            data: GameData {
                phase: GamePhase::ResolveMulligans(MulliganData { overlord: None, champion: None }),
                turn: Side::Overlord,
                turn_number: 1,
                raid: None,
            },
            modified: false,
            animations: AnimationBuffer::default(),
            updates: Vec::new(),
            events: Vec::new(),
        }
    }

    /// Create card states for a deck
    fn make_deck(deck: Vec<CardName>, side: Side) -> (result: Vec<CardState>)
        ensures
            is_new_deck(result@, deck@, side),
    {
        let mut cards: Vec<CardState> = Vec::new();
        let mut index: usize = 0;
        while index < deck.len()
            invariant
                index <= deck.len(),
                is_new_deck(cards@, deck@.subrange(0, index as int), side),
            decreases deck.len() - index,
        {
            cards.push(CardState::new(CardId::new(side, index), deck[index], CardPosition::Deck(side)));
            index += 1;
        }
        assert(deck@.subrange(0, index as int) =~= deck@);
        cards
    }

    /// The card lists of a game fit in memory.
    pub proof fn lemma_card_lists_fit(&self)
        ensures
            self@.overlord_cards.len() <= usize::MAX,
            self@.champion_cards.len() <= usize::MAX,
    {
        assert(self.overlord_cards@.len() == self.overlord_cards.len());
        assert(self.champion_cards@.len() == self.champion_cards.len());
    }

    /// Reset the value of 'modified' flags to false
    pub fn clear_modified_flags(&mut self)
        ensures
            game_call_effect(old(self)@, final(self)@, GameCall::ClearModifiedFlags),
            final(self)@ == (GameStateView { modified: false, ..old(self)@ }),
            final(self).update_log() == old(self).update_log(),
            final(self).event_log() == old(self).event_log(),
    {
        self.modified = false;
    }

    /// Whether the player or game state has been modified since the last call to
    /// [Self::clear_modified_flags]
    pub fn modified(&self) -> (result: bool)
        ensures
            result == self@.modified,
    {
        self.modified
    }

    /// ID for this game
    pub fn id(&self) -> (result: &String)
        ensures
            result@ == self@.id,
    {
        &self.id
    }

    /// All Card IDs present in this game
    pub fn card_ids(&self) -> (result: Vec<CardId>)
        ensures
            result@ == self@.all_card_ids(),
    {
        let mut result: Vec<CardId> = Vec::new();
        let mut index: usize = 0;
        while index < self.overlord_cards.len()
            invariant
                index <= self.overlord_cards.len(),
                result@ == Seq::new(
                    index as nat,
                    |i: int| CardId { side: Side::Overlord, index: i as usize },
                ),
            decreases self.overlord_cards.len() - index,
        {
            result.push(CardId::new(Side::Overlord, index));
            index += 1;
            assert(result@ =~= Seq::new(
                index as nat,
                |i: int| CardId { side: Side::Overlord, index: i as usize },
            ));
        }
        let ghost first = result@;
        let mut index: usize = 0;
        while index < self.champion_cards.len()
            invariant
                index <= self.champion_cards.len(),
                result@ == first + Seq::new(
                    index as nat,
                    |i: int| CardId { side: Side::Champion, index: i as usize },
                ),
            decreases self.champion_cards.len() - index,
        {
            result.push(CardId::new(Side::Champion, index));
            index += 1;
            assert(result@ =~= first + Seq::new(
                index as nat,
                |i: int| CardId { side: Side::Champion, index: i as usize },
            ));
        }
        assert(result@ =~= self@.all_card_ids());
        result
    }

    /// Cards for a player
    fn cards(&self, side: Side) -> (result: &Vec<CardState>)
        ensures
            result@ == self@.cards(side),
    {
        match side {
            Side::Overlord => &self.overlord_cards,
            Side::Champion => &self.champion_cards,
        }
    }

    /// Look up [CardState] for a card
    pub fn card(&self, card_id: CardId) -> (result: &CardState)
        requires
            self@.has_card(card_id),
        ensures
            result@ == self@.card(card_id),
    {
        &self.cards(card_id.side)[card_id.index]
    }

    /// Mutable version of [Self::card]
    pub fn card_mut(&mut self, card_id: CardId) -> (result: &mut CardState)
        requires
            old(self)@.has_card(card_id),
        ensures
            game_call_effect(old(self)@, final(self)@, GameCall::CardMut(card_id, *final(result))),
            result@ == old(self)@.card(card_id),
            final(self)@ == old(self)@.with_card(card_id, *final(result)),
            final(self).update_log() == old(self).update_log(),
            final(self).event_log() == old(self).event_log(),
    {
        match card_id.side {
            Side::Overlord => &mut self.overlord_cards[card_id.index],
            Side::Champion => &mut self.champion_cards[card_id.index],
        }
    }

    /// The random number generator of this game, which its view leaves out.
    pub closed spec fn generator(&self) -> ThreadRng {
        self.rng
    }

    /// The updates for the clients since the game began or since they were last taken, in the
    /// order in which they happened.
    pub closed spec fn update_log(&self) -> Seq<GameUpdate> {
        self.updates@
    }

    /// The events for the cards' delegates since they were last taken, in the order in which
    /// they happened.
    pub closed spec fn event_log(&self) -> Seq<DelegateEvent> {
        self.events@
    }

    /// The updates for the clients, in order.
    pub fn updates(&self) -> (result: &Vec<GameUpdate>)
        ensures
            result@ == self.update_log(),
    {
        &self.updates
    }

    /// Records an update for the clients.
    pub fn push_update(&mut self, update: GameUpdate)
        ensures
            final(self)@ == old(self)@,
            final(self).update_log() == old(self).update_log().push(update),
            final(self).event_log() == old(self).event_log(),
    {
        self.updates.push(update);
    }

    /// Records an event for the cards' delegates.
    pub fn push_event(&mut self, event: DelegateEvent)
        ensures
            final(self)@ == old(self)@,
            final(self).update_log() == old(self).update_log(),
            final(self).event_log() == old(self).event_log().push(event),
    {
        self.events.push(event);
    }

    /// Takes the events recorded so far, for the delegates to respond to; none remain.
    pub fn take_events(&mut self) -> (result: Vec<DelegateEvent>)
        ensures
            result@ == old(self).event_log(),
            final(self)@ == old(self)@,
            final(self).update_log() == old(self).update_log(),
            final(self).event_log() == Seq::<DelegateEvent>::empty(),
    {
        let mut taken: Vec<DelegateEvent> = Vec::new();
        std::mem::swap(&mut taken, &mut self.events);
        taken
    }

    /// Random number generator to use for this game
    pub fn rng(&self) -> (result: &ThreadRng)
        ensures
            *result == self.generator(),
    {
        &self.rng
    }

    /// State for the players in the game
    pub fn player(&self, side: Side) -> (result: &PlayerState)
        ensures
            *result == self@.player(side),
    {
        match side {
            Side::Overlord => &self.overlord,
            Side::Champion => &self.champion,
        }
    }

    /// Mutable version of [Self::player]; marks the game as modified.
    pub fn player_mut(&mut self, side: Side) -> (result: &mut PlayerState)
        ensures
            game_call_effect(old(self)@, final(self)@, GameCall::PlayerMut(side, *final(result))),
            *result == old(self)@.player(side),
            final(self)@ == (GameStateView { modified: true, ..old(self)@ }).with_player(
                side,
                *final(result),
            ),
            final(self).update_log() == old(self).update_log(),
            final(self).event_log() == old(self).event_log(),
    {
        self.modified = true;
        match side {
            Side::Overlord => &mut self.overlord,
            Side::Champion => &mut self.champion,
        }
    }

    /// Return a random card in the provided `position`, or None if there are no cards in that
    /// position.
    pub fn random_card(&mut self, position: CardPosition) -> (result: Option<CardId>)
        ensures
            game_call_effect(old(self)@, final(self)@, GameCall::Unchanged),
            final(self)@ == old(self)@,
            final(self).update_log() == old(self).update_log(),
            final(self).event_log() == old(self).event_log(),
            result matches Some(id) ==> old(self)@.has_card(id) && old(self)@.card(id).position
                == position,
            result is None <==> forall|id: CardId|
                #[trigger] old(self)@.has_card(id) ==> old(self)@.card(id).position != position,
    {
        let mut ids = self.ids_at(Side::Overlord, position);
        let mut champion_ids = self.ids_at(Side::Champion, position);
        let ghost overlord_part = ids@;
        ids.append(&mut champion_ids);
        proof {
            if ids@.len() == 0 {
                assert forall|id: CardId| #[trigger] self@.has_card(id) implies self@.card(id).position != position by {
                    let j = id.index as int;
                    match id.side {
                        Side::Overlord => assert(self@.cards(Side::Overlord)[j]@.position != position),
                        Side::Champion => assert(self@.cards(Side::Champion)[j]@.position != position),
                    }
                }
            } else {
                let id = ids@[0];
                if overlord_part.len() > 0 {
                    assert(id == overlord_part[0]);
                } else {
                    assert(id == ids@[0]);
                }
                assert(self@.has_card(id));
            }
        }
        let result = choose_card_id(ids, &mut self.rng);
        proof {
            if let Some(id) = result {
                let k = choose|k: int| 0 <= k < ids@.len() && ids@[k] == id;
                assert(ids@[k] == id);
            }
        }
        result
    }

    /// Ids of the cards of `side` that lie in `position`, in index order.
    fn ids_at(&self, side: Side, position: CardPosition) -> (result: Vec<CardId>)
        ensures
            forall|k: int|
                0 <= k < result@.len() ==> (#[trigger] result@[k]).side == side && self@.has_card(result@[k])
                    && self@.card(result@[k]).position == position,
            result@.len() == 0 <==> forall|j: int|
                0 <= j < self@.cards(side).len() ==> (#[trigger] self@.cards(side)[j])@.position != position,
    {
        let cards = self.cards(side);
        let mut result: Vec<CardId> = Vec::new();
        let mut index: usize = 0;
        while index < cards.len()
            invariant
                index <= cards.len(),
                cards@ == self@.cards(side),
                forall|k: int|
                    0 <= k < result@.len() ==> (#[trigger] result@[k]).side == side && self@.has_card(result@[k])
                        && self@.card(result@[k]).position == position,
                result@.len() == 0 <==> forall|j: int| 0 <= j < index ==> (#[trigger] cards@[j])@.position != position,
            decreases cards.len() - index,
        {
            if cards[index].position() == position {
                result.push(CardId { side, index });
            }
            index += 1;
        }
        result
    }

    /// Ids of the cards of `side` whose position is of kind `kind`, in index order.
    fn ids_in_kind(&self, side: Side, kind: CardPositionTypes) -> (result: Vec<CardId>)
        ensures
            result@ == ids_in_kind(self@.cards(side), kind),
    {
        let cards = self.cards(side);
        let mut result: Vec<CardId> = Vec::new();
        let mut index: usize = 0;
        while index < cards.len()
            invariant
                index <= cards.len(),
                cards@ == self@.cards(side),
                result@ == ids_in_kind(cards@.subrange(0, index as int), kind),
            decreases cards.len() - index,
        {
            assert(cards@.subrange(0, index + 1).drop_last() =~= cards@.subrange(0, index as int));
            if cards[index].position().kind() == kind {
                result.push(cards[index].id());
            }
            index += 1;
        }
        assert(cards@.subrange(0, index as int) =~= cards@);
        result
    }

    /// The Overlord's cards that defend `room`, in index order.
    pub fn defender_list(&self, room: RoomId) -> (result: Vec<CardId>)
        ensures
            result@ == defender_ids(self@.overlord_cards, room),
    {
        let cards = &self.overlord_cards;
        let mut result: Vec<CardId> = Vec::new();
        let mut index: usize = 0;
        while index < cards.len()
            invariant
                index <= cards.len(),
                cards@ == self@.overlord_cards,
                result@ == defender_ids(cards@.subrange(0, index as int), room),
            decreases cards.len() - index,
        {
            assert(cards@.subrange(0, index + 1).drop_last() =~= cards@.subrange(0, index as int));
            let position = cards[index].position();
            let is_defender = match position {
                CardPosition::Room(r, RoomLocation::Defender(_)) => r == room,
                _ => false,
            };
            if is_defender {
                result.push(cards[index].id());
            }
            index += 1;
        }
        assert(cards@.subrange(0, index as int) =~= cards@);
        result
    }

    /// The Overlord's cards that occupy `room`, in index order.
    pub fn occupants(&self, room: RoomId) -> (result: Vec<CardId>)
        ensures
            result@ == occupant_ids(self@.overlord_cards, room),
    {
        let cards = &self.overlord_cards;
        let mut result: Vec<CardId> = Vec::new();
        let mut index: usize = 0;
        while index < cards.len()
            invariant
                index <= cards.len(),
                cards@ == self@.overlord_cards,
                result@ == occupant_ids(cards@.subrange(0, index as int), room),
            decreases cards.len() - index,
        {
            assert(cards@.subrange(0, index + 1).drop_last() =~= cards@.subrange(0, index as int));
            if cards[index].position() == CardPosition::Room(room, RoomLocation::InRoom) {
                result.push(cards[index].id());
            }
            index += 1;
        }
        assert(cards@.subrange(0, index as int) =~= cards@);
        result
    }

    /// Chooses `amount` of `ids` at random (all of them when there are fewer). The ids chosen are
    /// distinct when `ids` are.
    pub fn choose_cards(&mut self, ids: Vec<CardId>, amount: usize) -> (result: Vec<CardId>)
        ensures
            game_call_effect(old(self)@, final(self)@, GameCall::Unchanged),
            final(self)@ == old(self)@,
            final(self).update_log() == old(self).update_log(),
            final(self).event_log() == old(self).event_log(),
            result@.len() == if amount < ids@.len() {
                amount as int
            } else {
                ids@.len() as int
            },
            forall|i: int| 0 <= i < result@.len() ==> ids@.contains(#[trigger] result@[i]),
            ids@.no_duplicates() ==> result@.no_duplicates(),
    {
        choose_card_ids(ids, amount, &mut self.rng)
    }

    /// Cards of a player which are in a hand
    pub fn hand(&self, side: Side) -> (result: Vec<CardId>)
        ensures
            result@ == ids_in_kind(self@.cards(side), CardPositionTypes::Hand),
    {
        self.ids_in_kind(side, CardPositionTypes::Hand)
    }

    /// Cards of a player which are in a deck
    pub fn deck(&self, side: Side) -> (result: Vec<CardId>)
        ensures
            result@ == ids_in_kind(self@.cards(side), CardPositionTypes::Deck),
    {
        self.ids_in_kind(side, CardPositionTypes::Deck)
    }

    /// Cards of a player which are in a discard pile
    pub fn discard_pile(&self, side: Side) -> (result: Vec<CardId>)
        ensures
            result@ == ids_in_kind(self@.cards(side), CardPositionTypes::DiscardPile),
    {
        self.ids_in_kind(side, CardPositionTypes::DiscardPile)
    }

    /// General game state
    pub fn data(&self) -> (result: &GameData)
        ensures
            *result == self@.data,
    {
        &self.data
    }

    /// Mutable version of [Self::data]; marks the game as modified.
    pub fn data_mut(&mut self) -> (result: &mut GameData)
        ensures
            game_call_effect(old(self)@, final(self)@, GameCall::DataMut(*final(result))),
            *result == old(self)@.data,
            final(self)@ == (GameStateView { modified: true, data: *final(result), ..old(self)@ }),
            final(self).update_log() == old(self).update_log(),
            final(self).event_log() == old(self).event_log(),
    {
        self.modified = true;
        &mut self.data
    }

    /// Animations to send on the next client response
    pub fn animations(&self) -> (result: &AnimationBuffer)
        ensures
            *result == self@.animations,
    {
        &self.animations
    }

    /// Mutable version of [Self::animations]
    pub fn animations_mut(&mut self) -> (result: &mut AnimationBuffer)
        ensures
            game_call_effect(old(self)@, final(self)@, GameCall::AnimationsMut(*final(result))),
            *result == old(self)@.animations,
            final(self)@ == (GameStateView { animations: *final(result), ..old(self)@ }),
            final(self).update_log() == old(self).update_log(),
            final(self).event_log() == old(self).event_log(),
    {
        &mut self.animations
    }
}

} // verus!
