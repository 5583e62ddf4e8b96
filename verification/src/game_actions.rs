//! The choices that players are offered.
use vstd::prelude::*;

use crate::game::MulliganDecision;
use crate::primitives::{AbilityId, ActionCount, CardId, ManaValue, Side};

verus! {

/// Responses to an ability's prompt.
#[derive(PartialEq, Eq, Structural, Hash, Debug, Copy, Clone)]
pub enum CardPromptAction {
    /// `side` loses this much mana
    LoseMana(Side, ManaValue),
    /// `side` loses this many action points
    LoseActions(Side, ActionCount),
    /// The raid ends in failure
    EndRaid,
    /// The Champion takes this much damage from the ability
    TakeDamage(AbilityId, u32),
    /// The Champion takes this much damage from the ability and the raid ends in failure
    TakeDamageEndRaid(AbilityId, u32),
}

/// The Overlord's choice at the start of a raid.
#[derive(PartialEq, Eq, Structural, Hash, Debug, Copy, Clone)]
pub enum RoomActivationAction {
    Activate,
    Pass,
}

/// The Champion's choice after an encounter.
#[derive(PartialEq, Eq, Structural, Hash, Debug, Copy, Clone)]
pub enum ContinueAction {
    Advance,
    Retreat,
}

/// The Champion's choice when encountering a minion.
#[derive(PartialEq, Eq, Structural, Hash, Debug, Copy, Clone)]
pub enum EncounterAction {
    /// Defeat the target with this weapon
    UseWeaponAbility(CardId, CardId),
    /// Use no weapon: the minion's combat abilities trigger
    NoWeapon,
    /// Respond to the minion's prompt
    CardAction(CardPromptAction),
}

/// The Champion's choices once the cards of a room are accessed.
#[derive(PartialEq, Eq, Structural, Hash, Debug, Copy, Clone)]
pub enum AccessPhaseAction {
    ScoreCard(CardId),
    EndRaid,
}

/// A response to a prompt that a player has been shown.
#[derive(PartialEq, Eq, Structural, Hash, Debug, Copy, Clone)]
pub enum PromptAction {
    MulliganDecision(MulliganDecision),
    ActivateRoomAction(RoomActivationAction),
    EncounterAction(EncounterAction),
    ContinueAction(ContinueAction),
    AccessPhaseAction(AccessPhaseAction),
    CardAction(CardPromptAction),
}

/// Why a choice is being offered.
#[derive(PartialEq, Eq, Structural, Hash, Debug, Copy, Clone)]
pub enum PromptContext {
    ActivateRoom,
    RaidAdvance,
}

/// A choice offered to a player: the responses they may give.
#[derive(Debug, Clone)]
pub struct Prompt {
    pub context: Option<PromptContext>,
    pub responses: Vec<PromptAction>,
}

} // verus!
