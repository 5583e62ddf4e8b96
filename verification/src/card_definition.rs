//! Static data describing cards: costs, stats, rules text tokens.
use vstd::prelude::*;

use crate::primitives::{
    ActionCount, AttackValue, CardSubtype, HealthValue, LevelValue, ManaValue, PointsValue,
    ShieldValue,
};

verus! {

/// Whether a word starts a sentence, and so is capitalised.
#[derive(PartialEq, Eq, Structural, Hash, Debug, Copy, Clone)]
pub enum Sentence {
    Start,
    Internal,
}

/// How damage is worded: dealt or taken, at the start of a sentence or inside one.
#[derive(PartialEq, Eq, Structural, Hash, Debug, Copy, Clone)]
pub enum DamageWord {
    DealStart,
    DealInternal,
    TakeStart,
    TakeInternal,
}

/// A keyword of rules text, shown in bold or with an icon.
#[derive(Debug, Clone)]
pub enum Keyword {
    Play,
    Dawn,
    Dusk,
    Score,
    Combat,
    Encounter,
    Unveil,
    SuccessfulRaid,
    /// Store this much mana on the card
    Store(Sentence, ManaValue),
    /// Take this much stored mana from the card
    Take(Sentence, ManaValue),
    /// Deal (or take) this much damage of a type, named as it is shown
    DealDamage(DamageWord, u32, String),
    InnerRoom(Sentence),
    /// Bypass this much shield
    Breach(u32),
    LevelUp,
    Trap,
    Construct,
}

#[derive(PartialEq, Eq, Structural, Hash, Debug, Copy, Clone)]
pub enum NumericOperator {
    Plain,
    Add,
}

/// One piece of a card's rules text.
#[derive(Debug)]
pub enum TextToken {
    Literal(String),
    Number(NumericOperator, u32),
    Mana(ManaValue),
    Actions(ActionCount),
    Keyword(Keyword),
    Reminder(String),
    Cost(Vec<TextToken>),
}

#[derive(PartialEq, Eq, Structural, Hash, Debug, Copy, Clone)]
pub struct Cost {
    pub mana: ManaValue,
    pub actions: ActionCount,
}

#[derive(PartialEq, Eq, Structural, Hash, Debug, Copy, Clone)]
pub struct AttackBoost {
    pub cost: ManaValue,
    pub bonus: AttackValue,
}

/// What scoring a scheme takes and gives.
#[derive(PartialEq, Eq, Structural, Hash, Debug, Copy, Clone)]
pub struct SchemePoints {
    /// The level at which the scheme is scored
    pub level_requirement: LevelValue,
    /// The points that scoring it gives
    pub points: PointsValue,
}

#[derive(PartialEq, Eq, Structural, Hash, Debug, Copy, Clone)]
pub struct CardStats {
    /// Damage required to destroy this card
    pub health: Option<HealthValue>,
    /// Mana cost required in order to attack this card
    pub shield: Option<ShieldValue>,
    /// Base damage dealt by this card during an encounter
    pub base_attack: Option<AttackValue>,
    /// An increase in base attack damage for a fixed cost which an ability can apply to this card
    pub attack_boost: Option<AttackBoost>,
    /// An amount of mana which an ability can store in this card
    pub store_mana: Option<ManaValue>,
    /// Whether the card's level goes up when its room is leveled up
    pub can_level_up: bool,
    /// The level and points of a scheme
    pub scheme_points: Option<SchemePoints>,
}

impl Default for CardStats {
    fn default() -> (result: CardStats)
        ensures
            result == (CardStats {
                health: None,
                shield: None,
                base_attack: None,
                attack_boost: None,
                store_mana: None,
                can_level_up: false,
                scheme_points: None,
            }),
    {
        CardStats {
            health: None,
            shield: None,
            base_attack: None,
            attack_boost: None,
            store_mana: None,
            can_level_up: false,
            scheme_points: None,
        }
    }
}

#[derive(PartialEq, Eq, Structural, Hash, Debug, Copy, Clone)]
pub enum AbilityType {
    /// Standard abilities function at all times without requiring activation.
    Standard,
    /// Encounter abilities can be activated by the Champion during a raid encounter, typically
    /// in order to increase a Weapon's attack.
    Encounter,
    /// Activated abilities have an associated cost in order to be used.
    Activated(Cost),
}

#[derive(Debug, Clone)]
pub struct CardConfig {
    pub stats: CardStats,
    pub subtypes: Vec<CardSubtype>,
}

impl Default for CardConfig {
    fn default() -> (result: CardConfig)
        ensures
            result.stats == (CardStats {
                health: None,
                shield: None,
                base_attack: None,
                attack_boost: None,
                store_mana: None,
                can_level_up: false,
                scheme_points: None,
            }),
            result.subtypes@ == Seq::<CardSubtype>::empty(),
    {
        CardConfig { stats: CardStats::default(), subtypes: Vec::new() }
    }
}

} // verus!
