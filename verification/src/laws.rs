//! Properties of the rules that span several operations.
use vstd::prelude::*;

use crate::game::{GameOverData, GamePhase, GameStateView, PlayerState};
use crate::mana::{mana_fits, raid_mana_applies, spec_get, spent_player, total_mana, ManaPurpose};
use crate::mutations::{
    lemma_leveled_schemes, lemma_points_of_nonnegative, leveled_schemes, levels_raised, points_of,
    leveled_up, room_leveled, room_schemes, scheme_scored, schemes_scored, scored, scored_ids, POINTS_TO_WIN,
};
use crate::game::occupant_ids;
use crate::primitives::RoomId;
use crate::primitives::{ManaValue, PointsValue, Side};
use crate::raid::{is_next_encounter, DefenderCost};
use crate::display::adapters::{spec_adapt_card_id, spec_adapt_side, spec_to_server_card_id};
use crate::errors::RulesError;
use crate::primitives::CardId;
use crate::protos::PlayerSide;
use crate::game::{AnimationBuffer, GameData, RaidPhase};
use crate::card_definition::TextToken;
use crate::display::rules_text::{explanation, KeywordKind, keyword_text, joined, replaced, spec_rules_text, token_text, TextIcons};
use crate::card_state::{CardData, CardPosition, CardState, CardStateView};
use crate::raid_phases::{prompted_side, prompted_with, raid_prompt};
use crate::actions::answers_prompt;
use crate::game_actions::{EncounterAction, Prompt, PromptAction};
use crate::raid_actions::{mana_paid, spec_can_take_raid_encounter_action};
use crate::raid_phases::encounter_responses;
use crate::game::defender_ids;
use crate::card_definition::{CardStats, DamageWord, Keyword, Sentence};
use crate::flags::{any_levels_up, spec_can_take_level_up_room_action};
use crate::queries::spec_in_main_phase;
use crate::test_results::{attribute_value, case_report, is_test_case, spec_report, XmlNodeView};
use crate::display::card_icons::{spec_card_icons, CardIconView};
use crate::display::assets::{spec_card_icon, CardIconType};
use crate::text::spec_decimal;
use crate::primitives::{AttackValue, HealthValue, ShieldValue};

verus! {

/// Each player's opponent's opponent is that player.
pub proof fn law_opponent_involution(side: Side)
    ensures
        side.spec_opponent().spec_opponent() == side,
        side.spec_opponent() != side,
{
}

/// Spending `amount` for any purpose lowers the mana the player can spend by exactly `amount`,
/// and leaves the opponent's state alone.
pub proof fn law_spend_lowers_total_mana(game: GameStateView, side: Side, purpose: ManaPurpose, amount: ManaValue)
    requires
        mana_fits(game, side),
        spec_get(game, side, purpose) >= amount,
    ensures
        ({
            let after = (GameStateView { modified: true, ..game }).with_player(
                side,
                spent_player(game, side, amount),
            );
            &&& total_mana(after, side) == total_mana(game, side) - amount
            &&& after.player(side.spec_opponent()) == game.player(side.spec_opponent())
            &&& mana_fits(after, side)
        }),
{
}

/// Mana reserved for the raid in progress counts for every purpose but the base mana, which
/// never exceeds the total.
pub proof fn law_raid_mana_counts_except_for_base(game: GameStateView, side: Side, purpose: ManaPurpose)
    requires
        purpose != ManaPurpose::BaseMana,
        purpose != ManaPurpose::BonusForDisplay,
    ensures
        spec_get(game, side, purpose) == spec_get(game, side, ManaPurpose::BaseMana) + spec_get(
            game,
            side,
            ManaPurpose::BonusForDisplay,
        ),
        spec_get(game, side, ManaPurpose::BaseMana) <= spec_get(game, side, purpose),
        !raid_mana_applies(game, side) ==> spec_get(game, side, purpose) == game.player(side).mana,
{
}

/// Gaining `amount` and then spending `amount` leaves the player with as much spendable mana as
/// before.
pub proof fn law_gain_then_spend_restores_total(game: GameStateView, side: Side, amount: ManaValue)
    requires
        mana_fits(game, side),
        total_mana(game, side) + amount <= u32::MAX,
    ensures
        ({
            let gained = (GameStateView { modified: true, ..game }).with_player(
                side,
                PlayerState { mana: (game.player(side).mana + amount) as u32, ..game.player(side) },
            );
            let spent = (GameStateView { modified: true, ..gained }).with_player(
                side,
                spent_player(gained, side, amount),
            );
            &&& mana_fits(gained, side)
            &&& spec_get(gained, side, ManaPurpose::AllSources) >= amount
            &&& total_mana(spent, side) == total_mana(game, side)
        }),
{
}

/// A player whose score reaches the winning total wins the game; below it, the game phase does
/// not change.
pub proof fn law_reaching_winning_score_ends_game(game: GameStateView, side: Side, amount: PointsValue)
    requires
        game.player(side).score + amount <= u32::MAX,
    ensures
        game.player(side).score + amount >= POINTS_TO_WIN ==> scored(game, side, amount).data.phase
            == GamePhase::GameOver(GameOverData { winner: side }),
        game.player(side).score + amount < POINTS_TO_WIN ==> scored(game, side, amount).data.phase
            == game.data.phase,
        scored(game, side, amount).player(side).score == game.player(side).score + amount,
{
}

/// At most one defender position is the next one to encounter.
pub proof fn law_next_encounter_is_unique(
    game: GameStateView,
    costs: Seq<DefenderCost>,
    less_than: Option<usize>,
    first: Option<usize>,
    second: Option<usize>,
)
    requires
        is_next_encounter(game, costs, less_than, first),
        is_next_encounter(game, costs, less_than, second),
    ensures
        first == second,
{
    match (first, second) {
        (Some(a), Some(b)) => {
            if a < b {
                assert(crate::raid::encounterable(game, costs, b as int));
            } else if b < a {
                assert(crate::raid::encounterable(game, costs, a as int));
            }
        },
        (Some(a), None) => {
            assert(crate::raid::encounterable(game, costs, a as int));
        },
        (None, Some(b)) => {
            assert(crate::raid::encounterable(game, costs, b as int));
        },
        (None, None) => {},
    }
}

/// A card id sent to the client and read back is the same card id.
pub proof fn law_card_id_round_trip(card_id: CardId)
    requires
        card_id.index <= u32::MAX,
    ensures
        spec_to_server_card_id(Some(spec_adapt_card_id(card_id))) == Ok::<CardId, RulesError>(card_id),
{
}

/// A side sent to the client and read back is the same side.
pub proof fn law_side_round_trip(side: Side)
    ensures
        spec_adapt_side(side) == PlayerSide::Overlord ==> side == Side::Overlord,
        spec_adapt_side(side) == PlayerSide::Champion ==> side == Side::Champion,
        spec_adapt_side(side) != PlayerSide::Unspecified,
        PlayerSide::spec_from_code(spec_adapt_side(side).spec_code()) == spec_adapt_side(side),
{
}

/// A raid phase asks one player at a time: the player who acts receives the phase's prompt, which
/// offers at least one response, while the opponent's state is left as it was.
pub proof fn law_raid_prompt_asks_one_player(
    before: GameStateView,
    after: GameStateView,
    phase: RaidPhase,
    defeating_weapons: Seq<CardId>,
    scoreable: Seq<CardId>,
)
    requires
        raid_prompt(before, phase, defeating_weapons, scoreable) matches Some((context, responses))
            ==> prompted_with(before, after, prompted_side(phase), context, responses),
        raid_prompt(before, phase, defeating_weapons, scoreable) is Some,
    ensures
        raid_prompt(before, phase, defeating_weapons, scoreable) matches Some((context, responses))
            ==> responses.len() > 0,
        after.player(prompted_side(phase)).prompt is Some,
        after.player(prompted_side(phase).spec_opponent()) == before.player(
            prompted_side(phase).spec_opponent(),
        ),
{
}

/// How one call changes a "modified" flag.
pub ghost enum FlagEffect {
    Sets,
    Clears,
    Keeps,
}

/// The flag after `effects`, starting from `initial`: set if some call set it and no later call
/// cleared it, or if it was set at the start and no call cleared it.
pub open spec fn flag_after(initial: bool, effects: Seq<FlagEffect>) -> bool {
    ||| exists|i: int|
        0 <= i < effects.len() && #[trigger] effects[i] == FlagEffect::Sets && forall|j: int|
            i < j < effects.len() ==> effects[j] != FlagEffect::Clears
    ||| initial && forall|j: int| 0 <= j < effects.len() ==> effects[j] != FlagEffect::Clears
}

/// One more call changes the flag as that call alone does.
proof fn lemma_flag_after_push(initial: bool, effects: Seq<FlagEffect>, effect: FlagEffect)
    ensures
        flag_after(initial, effects.push(effect)) == match effect {
            FlagEffect::Sets => true,
            FlagEffect::Clears => false,
            FlagEffect::Keeps => flag_after(initial, effects),
        },
{
    let longer = effects.push(effect);
    let n = effects.len() as int;
    match effect {
        FlagEffect::Sets => {
            assert(longer[n] == FlagEffect::Sets);
        },
        FlagEffect::Clears => {
            assert(longer[n] == FlagEffect::Clears);
        },
        FlagEffect::Keeps => {
            if flag_after(initial, effects) {
                if exists|i: int|
                    0 <= i < effects.len() && #[trigger] effects[i] == FlagEffect::Sets && forall|j: int|
                        i < j < effects.len() ==> effects[j] != FlagEffect::Clears {
                    let i = choose|i: int|
                        0 <= i < effects.len() && #[trigger] effects[i] == FlagEffect::Sets && forall|j: int|
                            i < j < effects.len() ==> effects[j] != FlagEffect::Clears;
                    assert(longer[i] == FlagEffect::Sets);
                    assert forall|j: int| i < j < longer.len() implies longer[j] != FlagEffect::Clears by {
                        if j < n {
                            assert(longer[j] == effects[j]);
                        }
                    }
                } else {
                    assert forall|j: int| 0 <= j < longer.len() implies longer[j] != FlagEffect::Clears by {
                        if j < n {
                            assert(longer[j] == effects[j]);
                        }
                    }
                }
            }
            if flag_after(initial, longer) {
                if exists|i: int|
                    0 <= i < longer.len() && #[trigger] longer[i] == FlagEffect::Sets && forall|j: int|
                        i < j < longer.len() ==> longer[j] != FlagEffect::Clears {
                    let i = choose|i: int|
                        0 <= i < longer.len() && #[trigger] longer[i] == FlagEffect::Sets && forall|j: int|
                            i < j < longer.len() ==> longer[j] != FlagEffect::Clears;
                    assert(i < n);
                    assert(effects[i] == FlagEffect::Sets);
                    assert forall|j: int| i < j < effects.len() implies effects[j] != FlagEffect::Clears by {
                        assert(longer[j] == effects[j]);
                    }
                } else {
                    assert forall|j: int| 0 <= j < effects.len() implies effects[j] != FlagEffect::Clears by {
                        assert(longer[j] == effects[j]);
                    }
                }
            }
        },
    }
}

/// A call on a [crate::game::GameState] that changes it, as its contract states it.
pub ghost enum GameCall {
    /// `clear_modified_flags`
    ClearModifiedFlags,
    /// `player_mut`, leaving the player in this state
    PlayerMut(Side, PlayerState),
    /// `data_mut`, leaving the data in this state
    DataMut(GameData),
    /// `card_mut`, leaving the card in this state
    CardMut(CardId, CardState),
    /// `animations_mut`, leaving the animations in this state
    AnimationsMut(AnimationBuffer),
    /// A call that leaves the game as it was: the getters, `random_card`, `choose_cards`
    Unchanged,
}

/// `after` is `before` once `call` has run.
pub open spec fn game_call_effect(before: GameStateView, after: GameStateView, call: GameCall) -> bool {
    match call {
        GameCall::ClearModifiedFlags => after == GameStateView { modified: false, ..before },
        GameCall::PlayerMut(side, player) => after == (GameStateView { modified: true, ..before }).with_player(
            side,
            player,
        ),
        GameCall::DataMut(data) => after == GameStateView { modified: true, data, ..before },
        GameCall::CardMut(card_id, card) => before.has_card(card_id) && after == before.with_card(card_id, card),
        GameCall::AnimationsMut(animations) => after == GameStateView { animations, ..before },
        GameCall::Unchanged => after == before,
    }
}

/// How a call changes the game's modified flag.
pub open spec fn game_flag_effect(call: GameCall) -> FlagEffect {
    match call {
        GameCall::ClearModifiedFlags => FlagEffect::Clears,
        GameCall::PlayerMut(_, _) => FlagEffect::Sets,
        GameCall::DataMut(_) => FlagEffect::Sets,
        _ => FlagEffect::Keeps,
    }
}

/// The game went through `states`, one call of `calls` between each two.
pub open spec fn game_calls_ran(states: Seq<GameStateView>, calls: Seq<GameCall>) -> bool {
    &&& states.len() == calls.len() + 1
    &&& forall|i: int| 0 <= i < calls.len() ==> game_call_effect(states[i], states[i + 1], #[trigger] calls[i])
}

/// A game is modified exactly when `player_mut` or `data_mut` was called on it since the last
/// `clear_modified_flags` (or since it was made, a new game being unmodified); `card_mut`,
/// `animations_mut` and the getters leave the flag as it was.
pub proof fn law_game_modified_flag(states: Seq<GameStateView>, calls: Seq<GameCall>)
    requires
        game_calls_ran(states, calls),
    ensures
        states.last().modified == flag_after(states[0].modified, calls.map_values(|c: GameCall| game_flag_effect(c))),
    decreases calls.len(),
{
    let effects = calls.map_values(|c: GameCall| game_flag_effect(c));
    if calls.len() == 0 {
        assert(states.last() == states[0]);
    } else {
        let n = calls.len() - 1;
        let earlier_states = states.drop_last();
        let earlier_calls = calls.drop_last();
        assert forall|i: int| 0 <= i < earlier_calls.len() implies game_call_effect(
            earlier_states[i],
            earlier_states[i + 1],
            #[trigger] earlier_calls[i],
        ) by {
            assert(game_call_effect(states[i], states[i + 1], calls[i]));
        }
        law_game_modified_flag(earlier_states, earlier_calls);
        assert(effects =~= earlier_calls.map_values(|c: GameCall| game_flag_effect(c)).push(game_flag_effect(calls[n])));
        lemma_flag_after_push(states[0].modified, earlier_calls.map_values(|c: GameCall| game_flag_effect(c)), game_flag_effect(calls[n]));
        assert(game_call_effect(states[n], states[n + 1], calls[n]));
        assert(earlier_states.last() == states[n]);
        match calls[n] {
            GameCall::CardMut(card_id, card) => {
                assert(states[n + 1].modified == states[n].modified);
            },
            _ => {},
        }
    }
}

/// A call on a [CardState] that changes it, as its contract states it.
pub ghost enum CardCall {
    /// `clear_modified_flags`
    ClearModifiedFlags,
    /// `move_to`
    MoveTo(CardPosition),
    /// `data_mut`, leaving the data in this state
    DataMut(CardData),
    /// `turn_face_up`
    TurnFaceUp,
    /// `turn_face_down`
    TurnFaceDown,
    /// `set_revealed_to`
    SetRevealedTo(Side, bool),
    /// A getter, which leaves the card as it was
    Unchanged,
}

/// `after` is `before` once `call` has run.
pub open spec fn card_call_effect(before: CardStateView, after: CardStateView, call: CardCall) -> bool {
    match call {
        CardCall::ClearModifiedFlags => after == CardStateView {
            position_modified: false,
            data_modified: false,
            ..before
        },
        CardCall::MoveTo(position) => after == CardStateView { position, position_modified: true, ..before },
        CardCall::DataMut(data) => after == CardStateView { data, data_modified: true, ..before },
        CardCall::TurnFaceUp => after == CardStateView {
            face_up: true,
            revealed_to_overlord: true,
            revealed_to_champion: true,
            ..before
        },
        CardCall::TurnFaceDown => after == CardStateView { face_up: false, ..before },
        CardCall::SetRevealedTo(side, revealed) => after == match side {
            Side::Overlord => CardStateView { revealed_to_overlord: revealed, ..before },
            Side::Champion => CardStateView { revealed_to_champion: revealed, ..before },
        },
        CardCall::Unchanged => after == before,
    }
}

/// How a call changes a card's position-modified flag.
pub open spec fn position_flag_effect(call: CardCall) -> FlagEffect {
    match call {
        CardCall::ClearModifiedFlags => FlagEffect::Clears,
        CardCall::MoveTo(_) => FlagEffect::Sets,
        _ => FlagEffect::Keeps,
    }
}

/// How a call changes a card's data-modified flag.
pub open spec fn data_flag_effect(call: CardCall) -> FlagEffect {
    match call {
        CardCall::ClearModifiedFlags => FlagEffect::Clears,
        CardCall::DataMut(_) => FlagEffect::Sets,
        _ => FlagEffect::Keeps,
    }
}

/// The card went through `states`, one call of `calls` between each two.
pub open spec fn card_calls_ran(states: Seq<CardStateView>, calls: Seq<CardCall>) -> bool {
    &&& states.len() == calls.len() + 1
    &&& forall|i: int| 0 <= i < calls.len() ==> card_call_effect(states[i], states[i + 1], #[trigger] calls[i])
}

/// A card's position is marked modified exactly when `move_to` was called on it since the last
/// `clear_modified_flags` (or since it was made, a new card being unmarked), and its data exactly
/// when `data_mut` was; no other call changes either mark.
pub proof fn law_card_modified_flags(states: Seq<CardStateView>, calls: Seq<CardCall>)
    requires
        card_calls_ran(states, calls),
    ensures
        states.last().position_modified == flag_after(
            states[0].position_modified,
            calls.map_values(|c: CardCall| position_flag_effect(c)),
        ),
        states.last().data_modified == flag_after(
            states[0].data_modified,
            calls.map_values(|c: CardCall| data_flag_effect(c)),
        ),
    decreases calls.len(),
{
    if calls.len() == 0 {
        assert(states.last() == states[0]);
    } else {
        let n = calls.len() - 1;
        let earlier_states = states.drop_last();
        let earlier_calls = calls.drop_last();
        assert forall|i: int| 0 <= i < earlier_calls.len() implies card_call_effect(
            earlier_states[i],
            earlier_states[i + 1],
            #[trigger] earlier_calls[i],
        ) by {
            assert(card_call_effect(states[i], states[i + 1], calls[i]));
        }
        law_card_modified_flags(earlier_states, earlier_calls);
        assert(calls.map_values(|c: CardCall| position_flag_effect(c)) =~= earlier_calls.map_values(
            |c: CardCall| position_flag_effect(c),
        ).push(position_flag_effect(calls[n])));
        assert(calls.map_values(|c: CardCall| data_flag_effect(c)) =~= earlier_calls.map_values(
            |c: CardCall| data_flag_effect(c),
        ).push(data_flag_effect(calls[n])));
        lemma_flag_after_push(
            states[0].position_modified,
            earlier_calls.map_values(|c: CardCall| position_flag_effect(c)),
            position_flag_effect(calls[n]),
        );
        lemma_flag_after_push(
            states[0].data_modified,
            earlier_calls.map_values(|c: CardCall| data_flag_effect(c)),
            data_flag_effect(calls[n]),
        );
        assert(card_call_effect(states[n], states[n + 1], calls[n]));
        assert(earlier_states.last() == states[n]);
    }
}

/// Text without the character `c` is left as it is by replacing a space followed by `c` with `c`.
proof fn lemma_replace_absent(text: Seq<char>, c: char, to: Seq<char>)
    requires
        !text.contains(c),
    ensures
        replaced(text, seq![' ', c], to) == text,
    decreases text.len(),
{
    let from = seq![' ', c];
    if text.len() >= 2 {
        let rest = text.subrange(1, text.len() as int);
        if text.subrange(0, 2) == from {
            assert(text[1] == text.subrange(0, 2)[1]);
        }
        assert forall|i: int| 0 <= i < rest.len() implies rest[i] != c by {
            assert(rest[i] == text[i + 1]);
        }
        lemma_replace_absent(rest, c, to);
        assert(text =~= seq![text[0]] + rest);
    }
}

/// The rules text of tokens none of which reads with `c` holds no `c`.
proof fn lemma_joined_lacks(tokens: Seq<TextToken>, icons: TextIcons, c: char)
    requires
        c != ' ',
        forall|i: int| 0 <= i < tokens.len() ==> !token_text(#[trigger] tokens[i], icons).contains(c),
    ensures
        !joined(tokens, icons).contains(c),
    decreases tokens.len(),
{
    if tokens.len() > 1 {
        let earlier = tokens.subrange(0, tokens.len() - 1);
        assert forall|i: int| 0 <= i < earlier.len() implies !token_text(#[trigger] earlier[i], icons).contains(c) by {
            assert(earlier[i] == tokens[i]);
        }
        lemma_joined_lacks(earlier, icons, c);
        let a = joined(earlier, icons);
        let b = token_text(tokens[tokens.len() - 1], icons);
        assert(!b.contains(c));
        let whole = a + " "@ + b;
        assert(" "@ =~= seq![' ']) by {
            reveal_strlit(" ");
        }
        if whole.contains(c) {
            let k = choose|k: int| 0 <= k < whole.len() && whole[k] == c;
            if k < a.len() {
                assert(a[k] == c);
            } else if k == a.len() {
                assert(whole[k] == ' ');
            } else {
                assert(b[k - a.len() - 1] == c);
            }
        }
    } else if tokens.len() == 1 {
        assert(!token_text(tokens[0], icons).contains(c));
    }
}

/// Joining two non-empty token lists puts one space between their joined texts.
proof fn lemma_joined_concat(x: Seq<TextToken>, y: Seq<TextToken>, icons: TextIcons)
    requires
        x.len() > 0,
        y.len() > 0,
    ensures
        joined(x + y, icons) == joined(x, icons) + " "@ + joined(y, icons),
    decreases y.len(),
{
    let xy = x + y;
    let n = xy.len();
    assert(xy[n - 1] == y[y.len() - 1]);
    if y.len() == 1 {
        assert(xy.subrange(0, n - 1) =~= x);
    } else {
        let shorter = y.subrange(0, y.len() - 1);
        assert(xy.subrange(0, n - 1) =~= x + shorter);
        lemma_joined_concat(x, shorter, icons);
        assert(joined(xy, icons) =~= joined(x, icons) + " "@ + joined(y, icons));
    }
}

/// The rules text of two non-empty token lists, one after the other, is the rules text of the
/// first, a space, and the rules text of the second, where no token reads with a full stop or a
/// comma (which would take the space before them away).
pub proof fn law_rules_text_concatenation(x: Seq<TextToken>, y: Seq<TextToken>, icons: TextIcons)
    requires
        x.len() > 0,
        y.len() > 0,
        forall|i: int|
            0 <= i < x.len() ==> !token_text(#[trigger] x[i], icons).contains('.') && !token_text(
                x[i],
                icons,
            ).contains(','),
        forall|i: int|
            0 <= i < y.len() ==> !token_text(#[trigger] y[i], icons).contains('.') && !token_text(
                y[i],
                icons,
            ).contains(','),
    ensures
        spec_rules_text(x + y, icons) == spec_rules_text(x, icons) + " "@ + spec_rules_text(y, icons),
{
    reveal_strlit(" .");
    reveal_strlit(" ,");
    reveal_strlit(".");
    reveal_strlit(",");
    let xy = x + y;
    assert forall|i: int| 0 <= i < xy.len() implies !token_text(#[trigger] xy[i], icons).contains('.') && !token_text(
        xy[i],
        icons,
    ).contains(',') by {
        if i < x.len() {
            assert(xy[i] == x[i]);
        } else {
            assert(xy[i] == y[i - x.len()]);
        }
    }
    assert forall|i: int| 0 <= i < xy.len() implies !token_text(#[trigger] xy[i], icons).contains('.') by {}
    assert forall|i: int| 0 <= i < xy.len() implies !token_text(#[trigger] xy[i], icons).contains(',') by {}
    assert(" ."@ =~= seq![' ', '.']);
    assert(" ,"@ =~= seq![' ', ',']);
    lemma_joined_lacks(x, icons, '.');
    lemma_joined_lacks(x, icons, ',');
    lemma_joined_lacks(y, icons, '.');
    lemma_joined_lacks(y, icons, ',');
    lemma_joined_lacks(xy, icons, '.');
    lemma_joined_lacks(xy, icons, ',');
    lemma_punctuation_absent(joined(x, icons));
    lemma_punctuation_absent(joined(y, icons));
    lemma_punctuation_absent(joined(xy, icons));
    lemma_joined_concat(x, y, icons);
}

/// Text with neither a full stop nor a comma is its own punctuated form.
proof fn lemma_punctuation_absent(text: Seq<char>)
    requires
        !text.contains('.'),
        !text.contains(','),
    ensures
        replaced(replaced(text, " ."@, "."@), " ,"@, ","@) == text,
{
    reveal_strlit(" .");
    reveal_strlit(" ,");
    assert(" ."@ =~= seq![' ', '.']);
    assert(" ,"@ =~= seq![' ', ',']);
    lemma_replace_absent(text, '.', "."@);
    lemma_replace_absent(text, ',', ","@);
}

/// A prompt answered is withdrawn: asking a player who had no prompt to choose among
/// `responses`, then taking one of those responses from them, leaves the game as it was but for
/// its modified flag; and no second response is taken until they are asked again.
pub proof fn law_prompt_answered_once(
    game: GameStateView,
    side: Side,
    prompt: Prompt,
    action: PromptAction,
    second: PromptAction,
)
    requires
        game.player(side).prompt is None,
        prompt.responses@.contains(action),
    ensures
        ({
            let asked = (GameStateView { modified: true, ..game }).with_player(
                side,
                PlayerState { prompt: Some(prompt), ..game.player(side) },
            );
            let answered = (GameStateView { modified: true, ..asked }).with_player(
                side,
                PlayerState { prompt: None, ..asked.player(side) },
            );
            &&& answers_prompt(asked, side, action)
            &&& answered == (GameStateView { modified: true, ..game })
            &&& !answers_prompt(answered, side, second)
        }),
{
    let asked = (GameStateView { modified: true, ..game }).with_player(
        side,
        PlayerState { prompt: Some(prompt), ..game.player(side) },
    );
    let answered = (GameStateView { modified: true, ..asked }).with_player(
        side,
        PlayerState { prompt: None, ..asked.player(side) },
    );
    assert(answered.player(side) == game.player(side));
    match side {
        Side::Overlord => assert(answered == (GameStateView { modified: true, ..game })),
        Side::Champion => assert(answered == (GameStateView { modified: true, ..game })),
    }
}

/// A weapon is only ever used against the defender being encountered: wherever the Champion may
/// use a weapon on `target`, a raid is at an encounter, `target` is the raided room's defender
/// at the encounter's position, and the weapon can defeat it.
pub proof fn law_weapon_targets_encountered_defender(
    game: GameStateView,
    side: Side,
    weapon: CardId,
    target: CardId,
    can_defeat: bool,
)
    requires
        spec_can_take_raid_encounter_action(
            game,
            side,
            EncounterAction::UseWeaponAbility(weapon, target),
            can_defeat,
        ),
    ensures
        side == Side::Champion,
        game.data.raid matches Some(raid) && raid.phase matches RaidPhase::Encounter(position) && {
            let defenders = defender_ids(game.overlord_cards, raid.target);
            &&& position < defenders.len()
            &&& defenders[position as int] == target
        },
        can_defeat,
{
}

/// A room may be leveled up whenever any card in it can level up, whichever card that is and
/// wherever it stands among the room's cards, as long as the Overlord is in its main phase with
/// mana; and only then.
pub proof fn law_level_up_allowed_when_any_card_levels(
    game: GameStateView,
    side: Side,
    room_stats: Seq<CardStats>,
    k: int,
)
    ensures
        0 <= k < room_stats.len() && room_stats[k].can_level_up && side == Side::Overlord
            && game.player(side).mana > 0 && spec_in_main_phase(game, side)
            ==> spec_can_take_level_up_room_action(game, side, room_stats),
        spec_can_take_level_up_room_action(game, side, room_stats) ==> {
            &&& exists|j: int| 0 <= j < room_stats.len() && (#[trigger] room_stats[j]).can_level_up
            &&& side == Side::Overlord
            &&& game.player(side).mana > 0
            &&& spec_in_main_phase(game, side)
        },
{
    if 0 <= k < room_stats.len() && room_stats[k].can_level_up {
        assert(any_levels_up(room_stats));
    }
}

/// Whether the test cases before position `i` of `nodes` were read: none lacks an attribute.
pub open spec fn cases_read_before(nodes: Seq<XmlNodeView>, i: int) -> bool {
    forall|j: int| 0 <= j < i && is_test_case(#[trigger] nodes[j]) ==> case_report(nodes[j]) is Ok
}

/// The node at position `i` of `nodes` is a test case whose result is not "Passed".
pub open spec fn case_failed_at(nodes: Seq<XmlNodeView>, i: int) -> bool {
    &&& is_test_case(nodes[i])
    &&& attribute_value(nodes[i].attributes, "result"@) matches Some(result)
    &&& result != "Passed"@
    &&& case_report(nodes[i]) is Ok
}

/// A report has failed exactly when one of the test cases read into it has a result other than
/// "Passed": a failed case keeps the report failed whatever follows it. Reading stops exactly
/// at the first test case that lacks an attribute.
pub proof fn law_report_fails_on_any_failed_case(nodes: Seq<XmlNodeView>)
    ensures
        spec_report(nodes).1 <==> exists|i: int|
            0 <= i < nodes.len() && cases_read_before(nodes, i) && #[trigger] case_failed_at(nodes, i),
        spec_report(nodes).2 is None <==> cases_read_before(nodes, nodes.len() as int),
    decreases nodes.len(),
{
    if nodes.len() > 0 {
        let rest = nodes.drop_last();
        let last = nodes.len() - 1;
        law_report_fails_on_any_failed_case(rest);
        assert forall|i: int| 0 <= i <= rest.len() implies cases_read_before(rest, i) == cases_read_before(nodes, i) by {
            if cases_read_before(rest, i) {
                assert forall|j: int| 0 <= j < i && is_test_case(#[trigger] nodes[j]) implies case_report(nodes[j]) is Ok by {
                    assert(rest[j] == nodes[j]);
                }
            }
            if cases_read_before(nodes, i) {
                assert forall|j: int| 0 <= j < i && is_test_case(#[trigger] rest[j]) implies case_report(rest[j]) is Ok by {
                    assert(rest[j] == nodes[j]);
                }
            }
        }
        assert forall|i: int| 0 <= i < rest.len() implies case_failed_at(rest, i) == case_failed_at(nodes, i) by {
            assert(rest[i] == nodes[i]);
        }
        assert(nodes.last() == nodes[last]);
        let (lines, failed, missing) = spec_report(rest);
        // the last node read or not
        if cases_read_before(nodes, nodes.len() as int) {
            assert(cases_read_before(nodes, last));
        }
        if missing is None && is_test_case(nodes[last]) && case_report(nodes[last]) is Ok {
            assert(cases_read_before(nodes, nodes.len() as int)) by {
                assert forall|j: int| 0 <= j < nodes.len() && is_test_case(#[trigger] nodes[j]) implies case_report(nodes[j]) is Ok by {
                    if j < last {
                        assert(cases_read_before(nodes, last));
                    }
                }
            }
        }
        if missing is None && !is_test_case(nodes[last]) {
            assert(cases_read_before(nodes, nodes.len() as int)) by {
                assert forall|j: int| 0 <= j < nodes.len() && is_test_case(#[trigger] nodes[j]) implies case_report(nodes[j]) is Ok by {
                    if j < last {
                        assert(cases_read_before(nodes, last));
                    }
                }
            }
        }
        if spec_report(nodes).1 {
            if failed {
                let i = choose|i: int| 0 <= i < rest.len() && cases_read_before(rest, i) && #[trigger] case_failed_at(rest, i);
                assert(case_failed_at(nodes, i));
            } else {
                assert(case_failed_at(nodes, last));
            }
        }
        if exists|i: int| 0 <= i < nodes.len() && cases_read_before(nodes, i) && #[trigger] case_failed_at(nodes, i) {
            let i = choose|i: int| 0 <= i < nodes.len() && cases_read_before(nodes, i) && #[trigger] case_failed_at(nodes, i);
            if i < last {
                assert(case_failed_at(rest, i));
            } else {
                assert(cases_read_before(rest, rest.len() as int));
            }
        }
    }
}

/// A card in play shows in its arena corner the mana stored on it; with no stored mana, it shows
/// its level, where it has been leveled up; and otherwise nothing.
pub proof fn law_arena_icon_shows_stored_mana_or_level(
    card: CardStateView,
    revealed: bool,
    mana_cost: Option<ManaValue>,
    shield: Option<ShieldValue>,
    attack: Option<AttackValue>,
    health: Option<HealthValue>,
)
    ensures
        ({
            let arena = spec_card_icons(card, revealed, mana_cost, shield, attack, health).arena_icon;
            &&& card.data.stored_mana > 0 ==> arena == Some(
                CardIconView {
                    icon_type: CardIconType::Mana,
                    background: spec_card_icon(CardIconType::Mana),
                    text: spec_decimal(card.data.stored_mana as nat),
                },
            )
            &&& card.data.stored_mana == 0 && card.data.card_level > 0 ==> arena == Some(
                CardIconView {
                    icon_type: CardIconType::LevelCounter,
                    background: spec_card_icon(CardIconType::LevelCounter),
                    text: spec_decimal(card.data.card_level as nat),
                },
            )
            &&& card.data.stored_mana == 0 && card.data.card_level == 0 ==> arena is None
        }),
{
}

/// `text` holds `name` at some position.
pub open spec fn contains_word(text: Seq<char>, name: Seq<char>) -> bool {
    exists|i: int| 0 <= i && i + name.len() <= text.len() && #[trigger] text.subrange(i, i + name.len()) == name
}

/// The name that a keyword is known by, capitalised as the keyword is at its place in a
/// sentence.
pub open spec fn keyword_name(keyword: Keyword) -> Seq<char> {
    match keyword {
        Keyword::Play => "Play"@,
        Keyword::Dawn => "Dawn"@,
        Keyword::Dusk => "Dusk"@,
        Keyword::Score => "Score"@,
        Keyword::Combat => "Combat"@,
        Keyword::Encounter => "Encounter"@,
        Keyword::Unveil => "Unveil"@,
        Keyword::SuccessfulRaid => "Successful Raid"@,
        Keyword::Store(Sentence::Start, _) => "Store"@,
        Keyword::Store(Sentence::Internal, _) => "store"@,
        Keyword::Take(Sentence::Start, _) => "Take"@,
        Keyword::Take(Sentence::Internal, _) => "take"@,
        Keyword::DealDamage(DamageWord::DealStart, _, _) => "Deal"@,
        Keyword::DealDamage(DamageWord::DealInternal, _, _) => "deal"@,
        Keyword::DealDamage(DamageWord::TakeStart, _, _) => "Take"@,
        Keyword::DealDamage(DamageWord::TakeInternal, _, _) => "take"@,
        Keyword::InnerRoom(Sentence::Start) => "Inner room"@,
        Keyword::InnerRoom(Sentence::Internal) => "inner room"@,
        Keyword::Breach(_) => "Breach"@,
        Keyword::LevelUp => "Level Up"@,
        Keyword::Trap => "Trap"@,
        Keyword::Construct => "Construct"@,
    }
}

proof fn lemma_contains_at(text: Seq<char>, name: Seq<char>, i: int)
    requires
        0 <= i,
        i + name.len() <= text.len(),
        text.subrange(i, i + name.len()) =~= name,
    ensures
        contains_word(text, name),
{
}

/// Every keyword reads with its own name, whatever the icons: the text of a keyword holds the
/// name it is known by.
pub proof fn law_keyword_reads_its_name(keyword: Keyword, icons: TextIcons)
    ensures
        contains_word(keyword_text(keyword, icons), keyword_name(keyword)),
{
    let text = keyword_text(keyword, icons);
    let name = keyword_name(keyword);
    let t: int = icons.trigger@.len() as int;
    reveal_strlit("<b>\u{f0e7}Play:</b>");
    reveal_strlit("<b>\u{f0e7}Dawn:</b>");
    reveal_strlit("<b>\u{f0e7}Dusk:</b>");
    reveal_strlit("Play");
    reveal_strlit("Dawn");
    reveal_strlit("Dusk");
    reveal_strlit("<b>");
    reveal_strlit("</b>");
    reveal_strlit("Score:</b>");
    reveal_strlit("Score");
    reveal_strlit("Combat:</b>");
    reveal_strlit("Combat");
    reveal_strlit("Encounter:</b>");
    reveal_strlit("Encounter");
    reveal_strlit("<b>Unveil</b>");
    reveal_strlit("Unveil");
    reveal_strlit("Successful Raid:</b>");
    reveal_strlit("Successful Raid");
    reveal_strlit("<b>Breach</b>");
    reveal_strlit("Breach");
    reveal_strlit("<b>Level Up</b>");
    reveal_strlit("Level Up");
    reveal_strlit("Trap:</b>");
    reveal_strlit("Trap");
    reveal_strlit("<b>Construct</b>");
    reveal_strlit("Construct");
    match keyword {
        Keyword::Play | Keyword::Dawn | Keyword::Dusk => lemma_contains_at(text, name, 4),
        Keyword::Score | Keyword::Combat | Keyword::Encounter | Keyword::SuccessfulRaid | Keyword::Trap => {
            lemma_contains_at(text, name, 3 + t)
        },
        Keyword::Store(_, _) | Keyword::Unveil | Keyword::Breach(_) | Keyword::LevelUp | Keyword::Construct => {
            lemma_contains_at(text, name, 3)
        },
        Keyword::Take(_, _) | Keyword::DealDamage(_, _, _) | Keyword::InnerRoom(_) => lemma_contains_at(text, name, 0),
    }
}

/// The name `other` stands nowhere in the text of the turn trigger `keyword` (one of Play, Dawn
/// and Dusk), where it differs from that keyword's own name.
proof fn lemma_turn_trigger_lacks(keyword: Keyword, icons: TextIcons, other: Seq<char>)
    requires
        keyword == Keyword::Play || keyword == Keyword::Dawn || keyword == Keyword::Dusk,
        other == "Play"@ || other == "Dawn"@ || other == "Dusk"@,
        other != keyword_name(keyword),
    ensures
        !contains_word(keyword_text(keyword, icons), other),
{
    let text = keyword_text(keyword, icons);
    reveal_strlit("<b>\u{f0e7}Play:</b>");
    reveal_strlit("<b>\u{f0e7}Dawn:</b>");
    reveal_strlit("<b>\u{f0e7}Dusk:</b>");
    reveal_strlit("Play");
    reveal_strlit("Dawn");
    reveal_strlit("Dusk");
    assert(text.len() == 13);
    assert forall|i: int| 0 <= i && i + other.len() <= text.len() implies #[trigger] text.subrange(
        i,
        i + other.len(),
    ) != other by {
        let part = text.subrange(i, i + 4);
        if i == 4 {
            assert(part[0] != other[0] || part[1] != other[1]);
        } else if i == 0 {
            assert(part[0] != other[0]);
        } else if i == 1 {
            assert(part[0] != other[0]);
        } else if i == 2 {
            assert(part[0] != other[0]);
        } else if i == 3 {
            assert(part[0] != other[0]);
        } else if i == 5 {
            assert(part[0] != other[0]);
        } else if i == 6 {
            assert(part[0] != other[0]);
        } else if i == 7 {
            assert(part[0] != other[0]);
        } else if i == 8 {
            assert(part[0] != other[0]);
        } else {
            assert(i == 9);
            assert(part[0] != other[0]);
        }
    }
}

/// The turn triggers are told apart: the text of each of Play, Dawn and Dusk holds its own
/// name and neither of the two others.
pub proof fn law_turn_triggers_told_apart(keyword: Keyword, icons: TextIcons)
    requires
        keyword == Keyword::Play || keyword == Keyword::Dawn || keyword == Keyword::Dusk,
    ensures
        contains_word(keyword_text(keyword, icons), keyword_name(keyword)),
        keyword != Keyword::Play ==> !contains_word(keyword_text(keyword, icons), "Play"@),
        keyword != Keyword::Dawn ==> !contains_word(keyword_text(keyword, icons), "Dawn"@),
        keyword != Keyword::Dusk ==> !contains_word(keyword_text(keyword, icons), "Dusk"@),
{
    law_keyword_reads_its_name(keyword, icons);
    reveal_strlit("Play");
    reveal_strlit("Dawn");
    reveal_strlit("Dusk");
    assert("Play"@ != "Dawn"@) by {
        assert("Play"@[0] != "Dawn"@[0]);
    }
    assert("Play"@ != "Dusk"@) by {
        assert("Play"@[0] != "Dusk"@[0]);
    }
    assert("Dawn"@ != "Dusk"@) by {
        assert("Dawn"@[1] != "Dusk"@[1]);
    }
    if keyword != Keyword::Play {
        lemma_turn_trigger_lacks(keyword, icons, "Play"@);
    }
    if keyword != Keyword::Dawn {
        lemma_turn_trigger_lacks(keyword, icons, "Dawn"@);
    }
    if keyword != Keyword::Dusk {
        lemma_turn_trigger_lacks(keyword, icons, "Dusk"@);
    }
}

/// The corners of a card other than its arena corner: a card hidden from the viewer shows none
/// of them; a revealed card shows its mana cost top left, its shield bottom left, and its attack
/// bottom right, or its health where it has no attack, each where it has one; the top right
/// corner stays empty.
pub proof fn law_corner_icons(
    card: CardStateView,
    revealed: bool,
    mana_cost: Option<ManaValue>,
    shield: Option<ShieldValue>,
    attack: Option<AttackValue>,
    health: Option<HealthValue>,
)
    ensures
        ({
            let icons = spec_card_icons(card, revealed, mana_cost, shield, attack, health);
            let shown = |icon_type: CardIconType, value: Option<u32>| match value {
                Some(v) => Some(
                    CardIconView {
                        icon_type,
                        background: spec_card_icon(icon_type),
                        text: spec_decimal(v as nat),
                    },
                ),
                None => None::<CardIconView>,
            };
            &&& icons.top_right_icon is None
            &&& !revealed ==> icons.top_left_icon is None && icons.bottom_left_icon is None
                && icons.bottom_right_icon is None
            &&& revealed ==> icons.top_left_icon == shown(CardIconType::Mana, mana_cost)
            &&& revealed ==> icons.bottom_left_icon == shown(CardIconType::Shield, shield)
            &&& revealed && attack is Some ==> icons.bottom_right_icon == shown(CardIconType::Attack, attack)
            &&& revealed && attack is None ==> icons.bottom_right_icon == shown(CardIconType::Health, health)
        }),
{
}

/// Whatever the action, the Champion acts in an encounter only while a raid is at an
/// encounter with a defender that the raided room has at that position.
pub proof fn law_encounter_actions_need_an_encounter(
    game: GameStateView,
    side: Side,
    action: EncounterAction,
    can_defeat: bool,
)
    requires
        spec_can_take_raid_encounter_action(game, side, action, can_defeat),
    ensures
        side == Side::Champion,
        game.data.raid matches Some(raid) && raid.phase matches RaidPhase::Encounter(position)
            && position < defender_ids(game.overlord_cards, raid.target).len(),
{
}

/// How many of `nodes` are test cases.
pub open spec fn test_case_count(nodes: Seq<XmlNodeView>) -> nat
    decreases nodes.len(),
{
    if nodes.len() == 0 {
        0
    } else {
        test_case_count(nodes.drop_last()) + if is_test_case(nodes.last()) {
            1nat
        } else {
            0nat
        }
    }
}

/// A report read to the end has one line for each test case, and none for other nodes; a
/// report whose reading stopped has no more lines than there are test cases.
pub proof fn law_report_has_a_line_per_test_case(nodes: Seq<XmlNodeView>)
    ensures
        spec_report(nodes).2 is None ==> spec_report(nodes).0.len() == test_case_count(nodes),
        spec_report(nodes).0.len() <= test_case_count(nodes),
    decreases nodes.len(),
{
    if nodes.len() > 0 {
        law_report_has_a_line_per_test_case(nodes.drop_last());
    }
}

/// Among distinct cards `ids`, leveling up scores a card exactly when its stats let it level up,
/// it is a scheme, and one more level brings it to the scheme's level requirement.
proof fn lemma_scored_exactly_when_reaching(cards: Seq<CardState>, ids: Seq<CardId>, stats: Seq<CardStats>)
    requires
        ids.len() == stats.len(),
        ids.no_duplicates(),
    ensures
        forall|k: int|
            0 <= k < ids.len() ==> (scored_ids(leveled_schemes(cards, ids, stats)).contains(#[trigger] ids[k]) <==> {
                &&& stats[k].can_level_up
                &&& stats[k].scheme_points matches Some(points)
                &&& cards[ids[k].index as int]@.data.card_level + 1 >= points.level_requirement
            }),
    decreases ids.len(),
{
    if ids.len() > 0 {
        let n = ids.len() - 1;
        let rest = ids.drop_last();
        let rest_stats = stats.subrange(0, n);
        assert(rest.no_duplicates()) by {
            assert forall|a: int, b: int| 0 <= a < b < rest.len() implies rest[a] != rest[b] by {
                assert(rest[a] == ids[a] && rest[b] == ids[b]);
            }
        }
        lemma_scored_exactly_when_reaching(cards, rest, rest_stats);
        lemma_leveled_schemes(cards, rest, rest_stats);
        let earlier = leveled_schemes(cards, rest, rest_stats);
        let all = leveled_schemes(cards, ids, stats);
        assert(!scored_ids(earlier).contains(ids[n])) by {
            if scored_ids(earlier).contains(ids[n]) {
                let j = choose|j: int| 0 <= j < scored_ids(earlier).len() && scored_ids(earlier)[j] == ids[n];
                assert(rest.contains(earlier[j].0));
                let m = choose|m: int| 0 <= m < rest.len() && rest[m] == earlier[j].0;
                assert(ids[m] == rest[m]);
            }
        }
        assert forall|k: int| 0 <= k < ids.len() implies (scored_ids(all).contains(#[trigger] ids[k]) <==> {
            &&& stats[k].can_level_up
            &&& stats[k].scheme_points matches Some(points)
            &&& cards[ids[k].index as int]@.data.card_level + 1 >= points.level_requirement
        }) by {
            if all == earlier {
                assert(scored_ids(all) == scored_ids(earlier));
            } else {
                assert(all == earlier.push((ids[n], stats[n].scheme_points->0.points)));
                assert(scored_ids(all) =~= scored_ids(earlier).push(ids[n]));
            }
            if k < n {
                assert(rest[k] == ids[k]);
                assert(rest_stats[k] == stats[k]);
                assert(ids[k] != ids[n]);
                if scored_ids(all).contains(ids[k]) {
                    let j = choose|j: int| 0 <= j < scored_ids(all).len() && scored_ids(all)[j] == ids[k];
                    if all != earlier {
                        assert(j < scored_ids(earlier).len());
                        assert(scored_ids(earlier)[j] == ids[k]);
                    }
                }
                if scored_ids(earlier).contains(ids[k]) {
                    let j = choose|j: int| 0 <= j < scored_ids(earlier).len() && scored_ids(earlier)[j] == ids[k];
                    if all != earlier {
                        assert(scored_ids(all)[j] == ids[k]);
                    }
                }
            } else {
                if all != earlier {
                    assert(scored_ids(all)[scored_ids(all).len() - 1] == ids[n]);
                } else {
                    assert(!scored_ids(all).contains(ids[n]));
                }
            }
        }
    }
}

/// What leveling up a room does to each card: an occupant that cannot level up is untouched;
/// one that can is one level higher, in its place, unless that level reaches the level
/// requirement of its scheme, in which case it is face up in the Overlord's score zone; cards
/// outside the room are untouched. The Overlord's score never falls, and where no occupant is
/// scored, neither the score nor the game's data change.
pub proof fn law_level_up_room_effect(
    before: GameStateView,
    after: GameStateView,
    room: RoomId,
    stats: Seq<CardStats>,
)
    requires
        before.ids_consistent(),
        before.overlord_cards.len() <= usize::MAX,
        stats.len() == occupant_ids(before.overlord_cards, room).len(),
        forall|k: int|
            0 <= k < stats.len() && (#[trigger] stats[k]).can_level_up ==> before.card(
                occupant_ids(before.overlord_cards, room)[k],
            ).data.card_level < u32::MAX,
        before.overlord.score + points_of(room_schemes(before, room, stats)) <= u32::MAX,
        room_leveled(before, after, room, stats),
    ensures
        forall|k: int|
            0 <= k < stats.len() ==> {
                let id = #[trigger] occupant_ids(before.overlord_cards, room)[k];
                let card = before.card(id);
                let reaches = stats[k].can_level_up && (stats[k].scheme_points matches Some(points)
                    && card.data.card_level + 1 >= points.level_requirement);
                &&& !stats[k].can_level_up ==> after.card(id) == card
                &&& stats[k].can_level_up && !reaches ==> after.card(id).data.card_level
                    == card.data.card_level + 1 && after.card(id).position == card.position
                &&& reaches ==> after.card(id).position == CardPosition::Scored(Side::Overlord)
                    && after.card(id).face_up
            },
        forall|id: CardId|
            #[trigger] before.has_card(id) && !occupant_ids(before.overlord_cards, room).contains(id)
                ==> after.card(id) == before.card(id),
        after.overlord.score >= before.overlord.score,
        (forall|k: int|
            0 <= k < stats.len() ==> !(#[trigger] stats[k]).can_level_up || !(stats[k].scheme_points matches Some(
                points,
            ) && before.card(occupant_ids(before.overlord_cards, room)[k]).data.card_level + 1
                >= points.level_requirement)) ==> after.overlord.score == before.overlord.score && after.data
            == before.data,
{
    let ids = occupant_ids(before.overlord_cards, room);
    let leveled = choose|leveled: GameStateView|
        #![trigger levels_raised(before, leveled, ids, stats)]
        levels_raised(before, leveled, ids, stats) && schemes_scored(leveled, after, room_schemes(before, room, stats));
    let scored = room_schemes(before, room, stats);
    crate::game::lemma_occupant_ids_ordered(before.overlord_cards, room);
    crate::game::lemma_occupant_ids_valid(before, room);
    assert(ids.no_duplicates()) by {
        assert forall|a: int, b: int| 0 <= a < b < ids.len() implies ids[a] != ids[b] by {
            assert(ids[a].index < ids[b].index);
        }
    }
    lemma_scored_exactly_when_reaching(before.overlord_cards, ids, stats);
    lemma_points_of_nonnegative(scored);
    assert forall|k: int| 0 <= k < stats.len() implies {
        let id = #[trigger] occupant_ids(before.overlord_cards, room)[k];
        let card = before.card(id);
        let reaches = stats[k].can_level_up && (stats[k].scheme_points matches Some(points)
            && card.data.card_level + 1 >= points.level_requirement);
        &&& !stats[k].can_level_up ==> after.card(id) == card
        &&& stats[k].can_level_up && !reaches ==> after.card(id).data.card_level == card.data.card_level + 1
            && after.card(id).position == card.position
        &&& reaches ==> after.card(id).position == CardPosition::Scored(Side::Overlord) && after.card(id).face_up
    } by {
        let id = ids[k];
        let card = before.card(id);
        assert(card == before.overlord_cards[id.index as int]@);
        assert(leveled.has_card(id));
        assert(leveled.card(id) == if stats[k].can_level_up { leveled_up(card) } else { card });
        let reaches = stats[k].can_level_up && (stats[k].scheme_points matches Some(points)
            && card.data.card_level + 1 >= points.level_requirement);
        assert(scored_ids(scored).contains(id) == reaches);
        if reaches {
            let j = choose|j: int| 0 <= j < scored_ids(scored).len() && scored_ids(scored)[j] == id;
            assert(scored[j].0 == id);
            assert(after.card(scored[j].0) == scheme_scored(leveled.card(scored[j].0)));
        } else {
            assert(after.card(id) == leveled.card(id));
        }
    }
    assert forall|id: CardId| #[trigger] before.has_card(id) && !ids.contains(id) implies after.card(id) == before.card(id) by {
        assert(leveled.card(id) == before.card(id));
        assert(leveled.has_card(id));
        if scored_ids(scored).contains(id) {
            let j = choose|j: int| 0 <= j < scored_ids(scored).len() && scored_ids(scored)[j] == id;
            crate::mutations::lemma_leveled_schemes(before.overlord_cards, ids, stats);
            assert(ids.contains(scored[j].0));
        }
    }
    if forall|k: int|
        0 <= k < stats.len() ==> !(#[trigger] stats[k]).can_level_up || !(stats[k].scheme_points matches Some(
            points,
        ) && before.card(ids[k]).data.card_level + 1 >= points.level_requirement) {
        if scored.len() > 0 {
            crate::mutations::lemma_leveled_schemes(before.overlord_cards, ids, stats);
            assert(ids.contains(scored[0].0));
            let m = choose|m: int| 0 <= m < ids.len() && ids[m] == scored[0].0;
            assert(scored_ids(scored)[0] == ids[m]);
            assert(before.card(ids[m]) == before.overlord_cards[ids[m].index as int]@);
            assert(!(#[trigger] stats[m]).can_level_up || !(stats[m].scheme_points matches Some(points)
                && before.card(ids[m]).data.card_level + 1 >= points.level_requirement));
        }
        assert(points_of(scored) == 0);
    }
}

/// The name that the explanation of a keyword kind gives it.
pub open spec fn kind_name(kind: KeywordKind) -> Seq<char> {
    match kind {
        KeywordKind::Play => "Play"@,
        KeywordKind::Dawn => "Dawn"@,
        KeywordKind::Dusk => "Dusk"@,
        KeywordKind::Score => "Score"@,
        KeywordKind::Combat => "Combat"@,
        KeywordKind::Encounter => "Encounter"@,
        KeywordKind::Unveil => "Unveil"@,
        KeywordKind::SuccessfulRaid => "Successful Raid"@,
        KeywordKind::Store => "Store"@,
        KeywordKind::DealDamage => "Damage"@,
        KeywordKind::InnerRoom => "Inner Room"@,
        KeywordKind::Breach => "Breach"@,
        KeywordKind::LevelUp => "Level Up"@,
        KeywordKind::Trap => "Trap"@,
        KeywordKind::Construct => "Construct"@,
    }
}

/// Every keyword explanation opens with the name of its own kind, in bold, followed by a colon.
pub proof fn law_explanation_names_its_kind(kind: KeywordKind, icons: TextIcons)
    ensures
        ({
            let heading = "<b>"@ + kind_name(kind) + ":</b>"@;
            &&& heading.len() <= explanation(kind, icons).len()
            &&& explanation(kind, icons).subrange(0, heading.len() as int) == heading
        }),
{
    reveal_strlit("<b>Play:</b> Triggers when this card enters the arena.");
    reveal_strlit("<b>Dawn:</b> Triggers at the start of the Champion's turn.");
    reveal_strlit("<b>Dusk:</b> Triggers at the start of the Overlord's turn.");
    reveal_strlit("<b>Score:</b> Triggers when the Overlord scores this card.");
    reveal_strlit("<b>Combat:</b> Triggers if this minion is not defeated during a raid.");
    reveal_strlit("<b>Encounter:</b> Triggers when this minion is approached during a raid.");
    reveal_strlit("<b>Unveil:</b> Pay cost and turn face up (if able)");
    reveal_strlit("<b>Successful Raid:</b> Triggers after the access phase of a raid.");
    reveal_strlit("<b>Store:</b> Place ");
    reveal_strlit("<b>Damage:</b> Causes the Champion to discard cards at random.");
    reveal_strlit("<b>Inner Room:</b> The Sanctum, Vault or Crypts.");
    reveal_strlit("<b>Breach:</b> Allows this weapon to bypass some amount of Shield.");
    reveal_strlit("<b>Level Up:</b> This card gets level counters when its room is leveled up.");
    reveal_strlit("<b>Trap:</b> Triggers when this card is accessed during a raid.");
    reveal_strlit("<b>Construct:</b> Goes to discard pile when defeated. Damage with any weapon.");
    reveal_strlit("Play");
    reveal_strlit("Dawn");
    reveal_strlit("Dusk");
    reveal_strlit("Score");
    reveal_strlit("Combat");
    reveal_strlit("Encounter");
    reveal_strlit("Unveil");
    reveal_strlit("Successful Raid");
    reveal_strlit("Store");
    reveal_strlit("Damage");
    reveal_strlit("Inner Room");
    reveal_strlit("Breach");
    reveal_strlit("Level Up");
    reveal_strlit("Trap");
    reveal_strlit("Construct");
    reveal_strlit("<b>");
    reveal_strlit(":</b>");
    let heading = "<b>"@ + kind_name(kind) + ":</b>"@;
    assert(explanation(kind, icons).subrange(0, heading.len() as int) =~= heading);
}

/// Defeating a defender with a weapon costs the Champion exactly the weapon's cost, and
/// nothing else: the opponent, the cards and the game's data stay as they were.
pub proof fn law_weapon_payment_is_exact(game: GameStateView, side: Side, cost: ManaValue)
    requires
        cost <= game.player(side).mana,
    ensures
        mana_paid(game, side, cost).player(side).mana + cost == game.player(side).mana,
        mana_paid(game, side, cost).player(side.spec_opponent()) == game.player(side.spec_opponent()),
        mana_paid(game, side, cost).overlord_cards == game.overlord_cards,
        mana_paid(game, side, cost).champion_cards == game.champion_cards,
        mana_paid(game, side, cost).data == game.data,
{
}

/// The Champion encountering `defender` is offered each of `weapons` against that defender, in
/// order, and then going on without a weapon; nothing else.
pub proof fn law_encounter_offers_each_weapon(defender: CardId, weapons: Seq<CardId>)
    ensures
        encounter_responses(defender, weapons).len() == weapons.len() + 1,
        forall|i: int|
            0 <= i < weapons.len() ==> #[trigger] encounter_responses(defender, weapons)[i]
                == PromptAction::EncounterAction(EncounterAction::UseWeaponAbility(weapons[i], defender)),
        encounter_responses(defender, weapons)[weapons.len() as int] == PromptAction::EncounterAction(
            EncounterAction::NoWeapon,
        ),
{
}

} // verus!
