//! The raid state machine: which defender is encountered next, and what each step offers.
use vstd::prelude::*;

use crate::errors::RulesError;
use crate::game::{
    defender_ids, DelegateEvent, GameObjectId, GameState, GameStateView, GameUpdate, RaidPhase,
};
use crate::mana::spent_player;
use crate::mutations::{
    end_raid, end_turn_checked, next_turn_number, raid_ended, spend_action_points, spent_actions,
    turn_ends,
};
use crate::game_actions::{
    AccessPhaseAction, CardPromptAction, ContinueAction, EncounterAction, PromptAction,
    PromptContext, RoomActivationAction,
};
use crate::mana::{self, mana_fits, spec_get, ManaPurpose};
use crate::primitives::{ActionCount, CardId, ManaValue, Side};

verus! {

/// What the card rules say of the cost of turning a card (such as a defender) face up: the mana
/// it costs (the result of the mana cost query, `None` when it has no mana cost) and, when its
/// definition has a custom cost, whether that cost can be paid now.
#[derive(PartialEq, Eq, Structural, Hash, Debug, Copy, Clone)]
pub struct DefenderCost {
    pub mana: Option<ManaValue>,
    pub custom_cost_payable: Option<bool>,
}

/// How a raid ended.
#[derive(PartialEq, Eq, Structural, Hash, Debug, Copy, Clone)]
pub enum RaidOutcome {
    Success,
    Failure,
}

/// Where the raid goes after a player's choice.
#[derive(PartialEq, Eq, Structural, Hash, Debug, Copy, Clone)]
pub enum RaidTransition {
    /// The raid enters this phase
    Enter(RaidPhase),
    /// The raid ends with this outcome
    End(RaidOutcome),
    /// The raid is over already
    Done,
}

/// How the current phase of a raid is shown.
#[derive(Debug, Clone)]
pub enum RaidDisplayState {
    Nothing,
    Defenders(Vec<CardId>),
    Access,
}

/// The Overlord can summon the defender `defender_id` now: the room is active, the defender is
/// face down and every cost of it can be paid.
pub open spec fn spec_can_summon(game: GameStateView, defender_id: CardId, cost: DefenderCost) -> bool {
    &&& game.data.raid->0.room_active
    &&& !game.card(defender_id).face_up
    &&& cost.mana matches Some(m) ==> m <= spec_get(
        game,
        Side::Overlord,
        ManaPurpose::PayForCard(defender_id),
    )
    &&& cost.custom_cost_payable matches Some(payable) ==> payable
}

/// Whether the Overlord can summon a defender during the current raid.
pub fn can_summon_defender(game: &GameState, defender_id: CardId, cost: DefenderCost) -> (result:
    Result<bool, RulesError>)
    requires
        game@.has_card(defender_id),
        mana_fits(game@, Side::Overlord),
    ensures
        game@.data.raid is None ==> result == Err::<bool, RulesError>(RulesError::NoActiveRaid),
        game@.data.raid is Some ==> result == Ok::<bool, RulesError>(
            spec_can_summon(game@, defender_id, cost),
        ),
{
    let raid = match game.data().raid {
        Some(raid) => raid,
        None => return Err(RulesError::NoActiveRaid),
    };
    let mut can_summon = raid.room_active && game.card(defender_id).is_face_down();

    if let Some(cost) = cost.mana {
        can_summon = can_summon && cost <= mana::get(
            game,
            Side::Overlord,
            ManaPurpose::PayForCard(defender_id),
        );
    }

    if let Some(payable) = cost.custom_cost_payable {
        can_summon = can_summon && payable;
    }

    Ok(can_summon)
}

/// The defenders of the raided room.
pub open spec fn raid_defenders(game: GameStateView) -> Seq<CardId> {
    defender_ids(game.overlord_cards, game.data.raid->0.target)
}

/// The Champion can encounter the defender at position `index`: it is face up, or the Overlord
/// can summon it.
pub open spec fn encounterable(game: GameStateView, costs: Seq<DefenderCost>, index: int) -> bool {
    let defender_id = raid_defenders(game)[index];
    game.card(defender_id).face_up || spec_can_summon(game, defender_id, costs[index])
}

/// The positions below `less_than` (all positions when it is `None`) are candidates.
pub open spec fn in_range(less_than: Option<usize>, index: int) -> bool {
    match less_than {
        Some(bound) => index < bound,
        None => true,
    }
}

/// `result` is the last position that is in range and encounterable, or `None` when no position
/// is.
pub open spec fn is_next_encounter(
    game: GameStateView,
    costs: Seq<DefenderCost>,
    less_than: Option<usize>,
    result: Option<usize>,
) -> bool {
    let count = raid_defenders(game).len();
    match result {
        Some(index) => {
            &&& index < count
            &&& in_range(less_than, index as int)
            &&& encounterable(game, costs, index as int)
            &&& forall|j: int|
                index < j < count && in_range(less_than, j) ==> !#[trigger] encounterable(
                    game,
                    costs,
                    j,
                )
        },
        None => forall|j: int|
            0 <= j < count && in_range(less_than, j) ==> !#[trigger] encounterable(game, costs, j),
    }
}

/// The raid is in progress and the rules have described the costs of every defender of the
/// raided room, in the order of [GameState::defender_list].
pub open spec fn costs_describe_defenders(game: GameStateView, costs: Seq<DefenderCost>) -> bool {
    game.data.raid is Some ==> costs.len() == raid_defenders(game).len()
}

/// Finds the next defender to encounter: the last one, below `less_than`, that is face up or
/// that the Overlord can summon.
pub fn next_encounter(game: &GameState, less_than: Option<usize>, costs: &Vec<DefenderCost>) -> (result:
    Result<Option<usize>, RulesError>)
    requires
        game@.ids_consistent(),
        mana_fits(game@, Side::Overlord),
        costs_describe_defenders(game@, costs@),
    ensures
        game@.data.raid is None ==> result == Err::<Option<usize>, RulesError>(RulesError::NoActiveRaid),
        game@.data.raid is Some ==> result is Ok && is_next_encounter(game@, costs@, less_than, result->Ok_0),
{
    let target = match game.data().raid {
        Some(raid) => raid.target,
        None => return Err(RulesError::NoActiveRaid),
    };
    let defenders = game.defender_list(target);
    proof {
        crate::game::lemma_defender_ids_valid(game@, target);
    }
    let mut remaining: usize = defenders.len();
    while remaining > 0
        invariant
            remaining <= defenders.len(),
            game@.data.raid is Some,
            game@.data.raid->0.target == target,
            defenders@ == raid_defenders(game@),
            costs@.len() == defenders@.len(),
            mana_fits(game@, Side::Overlord),
            forall|i: int| 0 <= i < defenders.len() ==> game@.has_card(#[trigger] defenders@[i]),
            forall|j: int|
                remaining <= j < defenders.len() && in_range(less_than, j) ==> !#[trigger] encounterable(
                    game@,
                    costs@,
                    j,
                ),
        decreases remaining,
    {
        let index = remaining - 1;
        let below = match less_than {
            Some(bound) => index < bound,
            None => true,
        };
        if below {
            let defender_id = defenders[index];
            let can_encounter = if game.card(defender_id).is_face_up() {
                true
            } else {
                match can_summon_defender(game, defender_id, costs[index]) {
                    Ok(b) => b,
                    Err(e) => return Err(e),
                }
            };
            if can_encounter {
                return Ok(Some(index));
            }
        }
        remaining = index;
    }
    Ok(None)
}

/// The Overlord decides whether to activate the raided room.
#[derive(PartialEq, Eq, Structural, Hash, Debug, Copy, Clone)]
pub struct ActivateState {}

impl ActivateState {
    pub fn unwrap(action: PromptAction) -> (result: Result<RoomActivationAction, RulesError>)
        ensures
            action matches PromptAction::ActivateRoomAction(a) ==> result == Ok::<
                RoomActivationAction,
                RulesError,
            >(a),
            !(action is ActivateRoomAction) ==> result == Err::<RoomActivationAction, RulesError>(
                RulesError::IllegalAction,
            ),
    {
        match action {
            PromptAction::ActivateRoomAction(action) => Ok(action),
            _ => Err(RulesError::IllegalAction),
        }
    }

    pub fn wrap(action: RoomActivationAction) -> (result: PromptAction)
        ensures
            result == PromptAction::ActivateRoomAction(action),
    {
        PromptAction::ActivateRoomAction(action)
    }

    /// The Overlord may activate the room or pass.
    pub fn actions(self) -> (result: Vec<RoomActivationAction>)
        ensures
            result@ == seq![RoomActivationAction::Activate, RoomActivationAction::Pass],
    {
        vec![RoomActivationAction::Activate, RoomActivationAction::Pass]
    }

    pub fn active_side(self) -> (result: Side)
        ensures
            result == Side::Overlord,
    {
        Side::Overlord
    }

    pub fn prompt_context(self) -> (result: Option<PromptContext>)
        ensures
            result == Some(PromptContext::ActivateRoom),
    {
        Some(PromptContext::ActivateRoom)
    }

    /// Records whether the room is active, then moves on to the next defender that can be
    /// encountered, or to the access phase when there is none.
    pub fn handle_action(
        self,
        game: &mut GameState,
        action: RoomActivationAction,
        costs: &Vec<DefenderCost>,
    ) -> (result: Result<RaidTransition, RulesError>)
        requires
            old(game)@.ids_consistent(),
            mana_fits(old(game)@, Side::Overlord),
            costs_describe_defenders(old(game)@, costs@),
        ensures
            old(game)@.data.raid is None ==> result == Err::<RaidTransition, RulesError>(
                RulesError::NoActiveRaid,
            ) && final(game)@ == old(game)@,
            old(game)@.data.raid is Some ==> {
                let raid = old(game)@.data.raid->0;
                let activated = GameStateView {
                    modified: true,
                    data: crate::game::GameData {
                        raid: Some(
                            crate::game::RaidState {
                                room_active: action == RoomActivationAction::Activate,
                                ..raid
                            },
                        ),
                        ..old(game)@.data
                    },
                    ..old(game)@
                };
                &&& final(game)@ == activated
                &&& result matches Ok(RaidTransition::Enter(phase)) && match phase {
                    RaidPhase::Encounter(index) => is_next_encounter(activated, costs@, None, Some(index)),
                    RaidPhase::Access => is_next_encounter(activated, costs@, None, None),
                    _ => false,
                }
            },
    {
        let raid = match game.data().raid {
            Some(raid) => raid,
            None => return Err(RulesError::NoActiveRaid),
        };
        let data = game.data_mut();
        data.raid = Some(crate::game::RaidState { room_active: action == RoomActivationAction::Activate, ..raid });
        match next_encounter(game, None, costs) {
            Ok(Some(index)) => Ok(RaidTransition::Enter(RaidPhase::Encounter(index))),
            Ok(None) => Ok(RaidTransition::Enter(RaidPhase::Access)),
            Err(e) => Err(e),
        }
    }
}

/// The Champion decides whether to go on with the raid after an encounter.
#[derive(PartialEq, Eq, Structural, Hash, Debug, Copy, Clone)]
pub struct ContinueState {}

impl ContinueState {
    pub fn unwrap(action: PromptAction) -> (result: Result<ContinueAction, RulesError>)
        ensures
            action matches PromptAction::ContinueAction(a) ==> result == Ok::<ContinueAction, RulesError>(a),
            !(action is ContinueAction) ==> result == Err::<ContinueAction, RulesError>(
                RulesError::IllegalAction,
            ),
    {
        match action {
            PromptAction::ContinueAction(action) => Ok(action),
            _ => Err(RulesError::IllegalAction),
        }
    }

    pub fn wrap(action: ContinueAction) -> (result: PromptAction)
        ensures
            result == PromptAction::ContinueAction(action),
    {
        PromptAction::ContinueAction(action)
    }

    /// The Champion may advance or retreat.
    pub fn actions(self) -> (result: Vec<ContinueAction>)
        ensures
            result@ == seq![ContinueAction::Advance, ContinueAction::Retreat],
    {
        vec![ContinueAction::Advance, ContinueAction::Retreat]
    }

    pub fn active_side(self) -> (result: Side)
        ensures
            result == Side::Champion,
    {
        Side::Champion
    }

    pub fn prompt_context(self) -> (result: Option<PromptContext>)
        ensures
            result == Some(PromptContext::RaidAdvance),
    {
        Some(PromptContext::RaidAdvance)
    }

    /// Advancing encounters the defender that the raid stands before; retreating ends the raid
    /// in failure.
    pub fn handle_action(self, game: &GameState, action: ContinueAction) -> (result: Result<
        RaidTransition,
        RulesError,
    >)
        ensures
            action == ContinueAction::Retreat ==> result == Ok::<RaidTransition, RulesError>(
                RaidTransition::End(RaidOutcome::Failure),
            ),
            action == ContinueAction::Advance ==> match game@.data.raid {
                Some(raid) => match raid.phase {
                    RaidPhase::Continue(index) => result == Ok::<RaidTransition, RulesError>(
                        RaidTransition::Enter(RaidPhase::Encounter(index)),
                    ),
                    _ => result == Err::<RaidTransition, RulesError>(RulesError::IllegalAction),
                },
                None => result == Err::<RaidTransition, RulesError>(RulesError::NoActiveRaid),
            },
    {
        match action {
            ContinueAction::Advance => match game.data().raid {
                Some(raid) => match raid.phase {
                    RaidPhase::Continue(index) => Ok(RaidTransition::Enter(RaidPhase::Encounter(index))),
                    _ => Err(RulesError::IllegalAction),
                },
                None => Err(RulesError::NoActiveRaid),
            },
            ContinueAction::Retreat => Ok(RaidTransition::End(RaidOutcome::Failure)),
        }
    }

    /// Shows the defenders from the first one up to the one the raid stands before.
    pub fn display_state(self, game: &GameState) -> (result: Result<RaidDisplayState, RulesError>)
        requires
            game@.data.raid matches Some(raid) && (raid.phase matches RaidPhase::Continue(index)
                && index < raid_defenders(game@).len()),
        ensures
            result matches Ok(RaidDisplayState::Defenders(shown)) && ({
                let index = game@.data.raid->0.phase->Continue_0;
                shown@ == raid_defenders(game@).subrange(0, index + 1)
            }),
    {
        let (target, index) = match game.data().raid {
            Some(raid) => match raid.phase {
                RaidPhase::Continue(index) => (raid.target, index),
                _ => return Err(RulesError::IllegalAction),
            },
            None => return Err(RulesError::NoActiveRaid),
        };
        let defenders = game.defender_list(target);
        let mut shown: Vec<CardId> = Vec::new();
        let mut i: usize = 0;
        while i <= index
            invariant
                index < defenders.len(),
                i <= index + 1,
                shown@ == defenders@.subrange(0, i as int),
            decreases index + 1 - i,
        {
            shown.push(defenders[i]);
            i += 1;
            assert(shown@ =~= defenders@.subrange(0, i as int));
        }
        Ok(RaidDisplayState::Defenders(shown))
    }
}

/// The Champion encounters a defender.
#[derive(PartialEq, Eq, Structural, Hash, Debug, Copy, Clone)]
pub struct EncounterState {}

/// The actions that a minion's combat prompt offers: each action that the rules returned for it,
/// or [EncounterAction::NoWeapon] when they returned none.
pub open spec fn spec_minion_combat_actions(query: Seq<Option<CardPromptAction>>) -> Seq<EncounterAction>
    decreases query.len(),
{
    if query.len() == 0 {
        Seq::empty()
    } else {
        let earlier = spec_minion_combat_actions(query.drop_last());
        match query.last() {
            Some(action) => earlier.push(EncounterAction::CardAction(action)),
            None => earlier,
        }
    }
}

/// The combat part of an encounter prompt: the minion's combat actions, or
/// [EncounterAction::NoWeapon] alone when it has none.
pub open spec fn combat_prompt(query: Seq<Option<CardPromptAction>>) -> Seq<EncounterAction> {
    if spec_minion_combat_actions(query).len() == 0 {
        seq![EncounterAction::NoWeapon]
    } else {
        spec_minion_combat_actions(query)
    }
}

/// Turns the result of the minion combat actions query into encounter actions.
pub fn minion_combat_actions(query: &Vec<Option<CardPromptAction>>) -> (result: Vec<EncounterAction>)
    ensures
        result@ == combat_prompt(query@),
{
    let mut result: Vec<EncounterAction> = Vec::new();
    let mut i: usize = 0;
    while i < query.len()
        invariant
            i <= query.len(),
            result@ == spec_minion_combat_actions(query@.subrange(0, i as int)),
        decreases query.len() - i,
    {
        assert(query@.subrange(0, i + 1).drop_last() =~= query@.subrange(0, i as int));
        if let Some(action) = query[i] {
            result.push(EncounterAction::CardAction(action));
        }
        i += 1;
    }
    assert(query@.subrange(0, i as int) =~= query@);
    if result.len() == 0 {
        vec![EncounterAction::NoWeapon]
    } else {
        result
    }
}

/// The encounter actions offered against `defender_id`: one for each weapon in
/// `defeating_weapons`, then the minion's combat actions.
pub open spec fn spec_encounter_actions(
    defender_id: CardId,
    defeating_weapons: Seq<CardId>,
    combat: Seq<EncounterAction>,
) -> Seq<EncounterAction> {
    defeating_weapons.map_values(|w: CardId| EncounterAction::UseWeaponAbility(w, defender_id)) + combat
}

/// `result` is where a raid goes after its encounter in `game`: nowhere once the raid is over;
/// otherwise on before the next defender that can be encountered, or to the access phase (a
/// position above 100 being a request to jump to that position less 999).
pub open spec fn encounter_transition(
    game: GameStateView,
    costs: Seq<DefenderCost>,
    result: Result<RaidTransition, RulesError>,
) -> bool {
    &&& game.data.raid is None ==> result == Ok::<RaidTransition, RulesError>(RaidTransition::Done)
    &&& game.data.raid matches Some(raid) ==> match raid.phase {
        RaidPhase::Encounter(index) => if index > 100 {
            result == Ok::<RaidTransition, RulesError>(
                RaidTransition::Enter(RaidPhase::Continue((index - 999) as usize)),
            )
        } else {
            result matches Ok(RaidTransition::Enter(phase)) && match phase {
                RaidPhase::Continue(next) => is_next_encounter(game, costs, Some(index), Some(next)),
                RaidPhase::Access => is_next_encounter(game, costs, Some(index), None),
                _ => false,
            }
        },
        _ => result == Err::<RaidTransition, RulesError>(RulesError::IllegalAction),
    }
}

impl EncounterState {
    pub fn unwrap(action: PromptAction) -> (result: Result<EncounterAction, RulesError>)
        ensures
            action matches PromptAction::EncounterAction(a) ==> result == Ok::<EncounterAction, RulesError>(a),
            !(action is EncounterAction) ==> result == Err::<EncounterAction, RulesError>(
                RulesError::IllegalAction,
            ),
    {
        match action {
            PromptAction::EncounterAction(action) => Ok(action),
            _ => Err(RulesError::IllegalAction),
        }
    }

    pub fn wrap(action: EncounterAction) -> (result: PromptAction)
        ensures
            result == PromptAction::EncounterAction(action),
    {
        PromptAction::EncounterAction(action)
    }

    pub fn active_side(self) -> (result: Side)
        ensures
            result == Side::Champion,
    {
        Side::Champion
    }

    /// The actions against the defender: use one of `defeating_weapons` (the Champion's weapons
    /// that can defeat it), or respond to its combat prompt (`combat_query`, the result of the
    /// minion combat actions query).
    pub fn actions(
        self,
        defender_id: CardId,
        defeating_weapons: &Vec<CardId>,
        combat_query: &Vec<Option<CardPromptAction>>,
    ) -> (result: Vec<EncounterAction>)
        ensures
            result@ == spec_encounter_actions(defender_id, defeating_weapons@, combat_prompt(combat_query@)),
    {
        let mut result: Vec<EncounterAction> = Vec::new();
        let mut i: usize = 0;
        while i < defeating_weapons.len()
            invariant
                i <= defeating_weapons.len(),
                result@ == defeating_weapons@.subrange(0, i as int).map_values(
                    |w: CardId| EncounterAction::UseWeaponAbility(w, defender_id),
                ),
            decreases defeating_weapons.len() - i,
        {
            result.push(EncounterAction::UseWeaponAbility(defeating_weapons[i], defender_id));
            i += 1;
            assert(result@ =~= defeating_weapons@.subrange(0, i as int).map_values(
                |w: CardId| EncounterAction::UseWeaponAbility(w, defender_id),
            ));
        }
        assert(defeating_weapons@.subrange(0, i as int) =~= defeating_weapons@);
        let weapons = result;
        let combat = minion_combat_actions(combat_query);
        let mut result = weapons;
        let ghost prefix = result@;
        let mut j: usize = 0;
        while j < combat.len()
            invariant
                j <= combat.len(),
                result@ == prefix + combat@.subrange(0, j as int),
            decreases combat.len() - j,
        {
            result.push(combat[j]);
            j += 1;
            assert(result@ =~= prefix + combat@.subrange(0, j as int));
        }
        assert(combat@.subrange(0, j as int) =~= combat@);
        result
    }

    /// After an encounter: the raid goes on before the next defender that can be encountered,
    /// or reaches the access phase. An encounter position above 100 is a request to jump: the
    /// raid continues at that position less 999.
    pub fn next_phase(self, game: &GameState, costs: &Vec<DefenderCost>) -> (result: Result<
        RaidTransition,
        RulesError,
    >)
        requires
            game@.ids_consistent(),
            mana_fits(game@, Side::Overlord),
            costs_describe_defenders(game@, costs@),
            game@.data.raid matches Some(raid) ==> (raid.phase matches RaidPhase::Encounter(index)
                ==> (index <= 100 || index >= 999)),
        ensures
            encounter_transition(game@, costs@, result),
    {
        let encounter = match game.data().raid {
            Some(raid) => match raid.phase {
                RaidPhase::Encounter(index) => index,
                _ => return Err(RulesError::IllegalAction),
            },
            None => return Ok(RaidTransition::Done),
        };
        if encounter > 100 {
            Ok(RaidTransition::Enter(RaidPhase::Continue(encounter - 999)))
        } else {
            match next_encounter(game, Some(encounter), costs) {
                Ok(Some(index)) => Ok(RaidTransition::Enter(RaidPhase::Continue(index))),
                Ok(None) => Ok(RaidTransition::Enter(RaidPhase::Access)),
                Err(e) => Err(e),
            }
        }
    }
}

/// The defender that the raid encounters: an error when no raid is in progress, when the raid is
/// not in an encounter, or when the raided room has no defender at that position.
pub open spec fn spec_raid_defender(game: GameStateView) -> Result<CardId, RulesError> {
    match game.data.raid {
        None => Err(RulesError::NoActiveRaid),
        Some(raid) => match raid.phase {
            RaidPhase::Encounter(index) => if index < raid_defenders(game).len() {
                Ok(raid_defenders(game)[index as int])
            } else {
                Err(RulesError::DefenderNotFound)
            },
            _ => Err(RulesError::IllegalAction),
        },
    }
}

/// The defender that the raid encounters.
pub fn raid_defender(game: &GameState) -> (result: Result<CardId, RulesError>)
    ensures
        result == spec_raid_defender(game@),
{
    let raid = match game.data().raid {
        Some(raid) => raid,
        None => return Err(RulesError::NoActiveRaid),
    };
    let index = match raid.phase {
        RaidPhase::Encounter(index) => index,
        _ => return Err(RulesError::IllegalAction),
    };
    let defenders = game.defender_list(raid.target);
    if index < defenders.len() {
        Ok(defenders[index])
    } else {
        Err(RulesError::DefenderNotFound)
    }
}

/// `game` once `side` has spent `amount` mana.
pub open spec fn mana_spent(game: GameStateView, side: Side, amount: ManaValue) -> GameStateView {
    (GameStateView { modified: true, ..game }).with_player(side, spent_player(game, side, amount))
}

/// Spending mana leaves a player's spendable mana representable.
proof fn lemma_spent_fits(game: GameStateView, side: Side, spender: Side, amount: ManaValue)
    requires
        mana_fits(game, side),
        mana::spec_get(game, spender, ManaPurpose::AllSources) >= amount,
    ensures
        mana_fits(mana_spent(game, spender, amount), side),
{
}

/// Whether the encounter action is a response to a card's prompt that deals damage, which this
/// library does not carry out.
pub open spec fn deals_damage(action: EncounterAction) -> bool {
    action matches EncounterAction::CardAction(card_action) && (card_action is TakeDamage
        || card_action is TakeDamageEndRaid)
}

impl EncounterState {
    /// The Champion acts against the defender being encountered.
    ///
    /// With a weapon, the Champion pays the mana it costs to defeat the minion (`cost_to_defeat`,
    /// `None` when it cannot), the clients are shown the weapon striking the minion, and the weapon
    /// use and the minion's defeat are raised as events. Otherwise the minion strikes the
    /// Champion and its combat ability fires; answering the minion's prompt then takes effect:
    /// a player loses mana or action points, or the raid ends in failure (the Overlord starting
    /// its turn with `next_actions` action points when that ends the Champion's turn). Unless the
    /// raid is over, it then goes on as [encounter_transition] says, `costs` describing the
    /// defenders.
    pub fn handle_action(
        self,
        game: &mut GameState,
        action: EncounterAction,
        cost_to_defeat: Option<ManaValue>,
        costs: &Vec<DefenderCost>,
        next_actions: ActionCount,
    ) -> (result: Result<RaidTransition, RulesError>)
        requires
            old(game)@.ids_consistent(),
            mana_fits(old(game)@, Side::Overlord),
            mana_fits(old(game)@, Side::Champion),
            costs_describe_defenders(old(game)@, costs@),
            old(game)@.data.raid matches Some(raid) ==> (raid.phase matches RaidPhase::Encounter(index)
                ==> (index <= 100 || index >= 999)),
            !deals_damage(action),
            action matches EncounterAction::CardAction(CardPromptAction::LoseActions(side, amount))
                ==> old(game)@.player(side).actions >= amount,
            action == EncounterAction::CardAction(CardPromptAction::EndRaid) ==> (turn_ends(
                raid_ended(old(game)@),
                Side::Champion,
            ) ==> next_turn_number(raid_ended(old(game)@), Side::Champion) <= u32::MAX),
        ensures
            final(game)@.ids_consistent(),
            match action {
                EncounterAction::UseWeaponAbility(source, target) => match cost_to_defeat {
                    None => result == Err::<RaidTransition, RulesError>(RulesError::IllegalAction)
                        && final(game)@ == old(game)@ && final(game).update_log() == old(game).update_log()
                        && final(game).event_log() == old(game).event_log(),
                    Some(cost) => if mana::spec_get(old(game)@, Side::Champion, ManaPurpose::UseWeapon(source)) < cost {
                        &&& result == Err::<RaidTransition, RulesError>(RulesError::InsufficientMana)
                        &&& final(game)@ == old(game)@
                        &&& final(game).update_log() == old(game).update_log()
                        &&& final(game).event_log() == old(game).event_log()
                    } else {
                        let paid = mana_spent(old(game)@, Side::Champion, cost);
                        &&& final(game)@ == paid
                        &&& final(game).update_log() == old(game).update_log().push(
                            GameUpdate::TargetedInteraction(GameObjectId::Card(source), GameObjectId::Card(target)),
                        )
                        &&& old(game)@.data.raid is None ==> result == Err::<RaidTransition, RulesError>(
                            RulesError::NoActiveRaid,
                        ) && final(game).event_log() == old(game).event_log()
                        &&& old(game)@.data.raid is Some ==> final(game).event_log() == old(game).event_log().push(
                            DelegateEvent::UsedWeapon(old(game)@.data.raid->0.raid_id, source, target, cost),
                        ).push(DelegateEvent::MinionDefeated(target)) && encounter_transition(paid, costs@, result)
                    },
                },
                _ => match spec_raid_defender(old(game)@) {
                    Err(e) => result == Err::<RaidTransition, RulesError>(e) && final(game)@ == old(game)@
                        && final(game).update_log() == old(game).update_log()
                        && final(game).event_log() == old(game).event_log(),
                    Ok(defender) => {
                        let updates = old(game).update_log().push(
                            GameUpdate::TargetedInteraction(
                                GameObjectId::Card(defender),
                                GameObjectId::Identity(Side::Champion),
                            ),
                        );
                        let events = old(game).event_log().push(DelegateEvent::MinionCombatAbility(defender));
                        match action {
                            EncounterAction::CardAction(CardPromptAction::LoseMana(side, amount)) => {
                                &&& final(game).update_log() == updates
                                &&& final(game).event_log() == events
                                &&& if mana::spec_get(old(game)@, side, ManaPurpose::PayForTriggeredAbility) < amount {
                                    result == Err::<RaidTransition, RulesError>(RulesError::InsufficientMana)
                                        && final(game)@ == old(game)@
                                } else {
                                    final(game)@ == mana_spent(old(game)@, side, amount) && encounter_transition(
                                        final(game)@,
                                        costs@,
                                        result,
                                    )
                                }
                            },
                            EncounterAction::CardAction(CardPromptAction::LoseActions(side, amount)) => {
                                &&& final(game).update_log() == updates
                                &&& final(game).event_log() == events
                                &&& final(game)@ == spent_actions(old(game)@, side, amount)
                                &&& encounter_transition(final(game)@, costs@, result)
                            },
                            EncounterAction::CardAction(CardPromptAction::EndRaid) => {
                                &&& result == Ok::<RaidTransition, RulesError>(RaidTransition::Done)
                                &&& exists|drawn: Option<Vec<CardId>>|
                                    end_turn_checked(raid_ended(old(game)@), final(game)@, Side::Champion, next_actions, drawn)
                            },
                            _ => {
                                &&& final(game)@ == old(game)@
                                &&& final(game).update_log() == updates
                                &&& final(game).event_log() == events
                                &&& encounter_transition(old(game)@, costs@, result)
                            },
                        }
                    },
                },
            },
    {
        match action {
            EncounterAction::UseWeaponAbility(source, target) => {
                let cost = match cost_to_defeat {
                    Some(cost) => cost,
                    None => return Err(RulesError::IllegalAction),
                };
                match mana::spend(game, Side::Champion, ManaPurpose::UseWeapon(source), cost) {
                    Ok(()) => {},
                    Err(e) => return Err(e),
                }
                proof {
                    lemma_spent_fits(old(game)@, Side::Overlord, Side::Champion, cost);
                }
                game.push_update(
                    GameUpdate::TargetedInteraction(GameObjectId::Card(source), GameObjectId::Card(target)),
                );
                let raid_id = match game.data().raid {
                    Some(raid) => raid.raid_id,
                    None => return Err(RulesError::NoActiveRaid),
                };
                game.push_event(DelegateEvent::UsedWeapon(raid_id, source, target, cost));
                game.push_event(DelegateEvent::MinionDefeated(target));
                assert(game@.cards(Side::Overlord) == old(game)@.cards(Side::Overlord));
                assert(game@.cards(Side::Champion) == old(game)@.cards(Side::Champion));
                self.next_phase(game, costs)
            },
            EncounterAction::NoWeapon | EncounterAction::CardAction(_) => {
                let defender = match raid_defender(game) {
                    Ok(defender) => defender,
                    Err(e) => return Err(e),
                };
                game.push_update(
                    GameUpdate::TargetedInteraction(
                        GameObjectId::Card(defender),
                        GameObjectId::Identity(Side::Champion),
                    ),
                );
                game.push_event(DelegateEvent::MinionCombatAbility(defender));
                match action {
                    EncounterAction::CardAction(CardPromptAction::LoseMana(side, amount)) => {
                        match mana::spend(game, side, ManaPurpose::PayForTriggeredAbility, amount) {
                            Ok(()) => {},
                            Err(e) => return Err(e),
                        }
                        proof {
                            lemma_spent_fits(old(game)@, Side::Overlord, side, amount);
                        }
                    },
                    EncounterAction::CardAction(CardPromptAction::LoseActions(side, amount)) => {
                        spend_action_points(game, side, amount);
                    },
                    EncounterAction::CardAction(CardPromptAction::EndRaid) => {
                        let drawn = end_raid(game, RaidOutcome::Failure, next_actions);
                        assert(end_turn_checked(raid_ended(old(game)@), game@, Side::Champion, next_actions, drawn));
                        return Ok(RaidTransition::Done);
                    },
                    _ => {},
                }
                assert(game@.cards(Side::Overlord) == old(game)@.cards(Side::Overlord));
                assert(game@.cards(Side::Champion) == old(game)@.cards(Side::Champion));
                self.next_phase(game, costs)
            },
        }
    }
}

/// The Champion accesses the cards of the raided room.
#[derive(PartialEq, Eq, Structural, Hash, Debug, Copy, Clone)]
pub struct AccessPhase {}

impl AccessPhase {
    pub fn unwrap(action: PromptAction) -> (result: Result<AccessPhaseAction, RulesError>)
        ensures
            action matches PromptAction::AccessPhaseAction(a) ==> result == Ok::<AccessPhaseAction, RulesError>(a),
            !(action is AccessPhaseAction) ==> result == Err::<AccessPhaseAction, RulesError>(
                RulesError::IllegalAction,
            ),
    {
        match action {
            PromptAction::AccessPhaseAction(action) => Ok(action),
            _ => Err(RulesError::IllegalAction),
        }
    }

    pub fn wrap(action: AccessPhaseAction) -> (result: PromptAction)
        ensures
            result == PromptAction::AccessPhaseAction(action),
    {
        PromptAction::AccessPhaseAction(action)
    }

    pub fn active_side(self) -> (result: Side)
        ensures
            result == Side::Champion,
    {
        Side::Champion
    }

    pub fn display_state(self) -> (result: RaidDisplayState)
        ensures
            result is Access,
    {
        RaidDisplayState::Access
    }
}

} // verus!
