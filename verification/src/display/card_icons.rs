//! The numbers shown in the corners of a card.
use vstd::prelude::*;

use crate::card_state::{CardState, CardStateView};
use crate::display::assets::{card_icon, spec_card_icon, CardIconType};
use crate::primitives::{AttackValue, HealthValue, ManaValue, ShieldValue, SpriteAddress};
use crate::text::{decimal, spec_decimal};

verus! {

/// An icon shown on a card: a background of type `icon_type` with a number over it. The scale of
/// the background follows from its type.
#[derive(Debug, Clone)]
pub struct CardIcon {
    pub icon_type: CardIconType,
    pub background: SpriteAddress,
    pub text: String,
}

pub ghost struct CardIconView {
    pub icon_type: CardIconType,
    pub background: Seq<char>,
    pub text: Seq<char>,
}

impl View for CardIcon {
    type V = CardIconView;

    open spec fn view(&self) -> CardIconView {
        CardIconView { icon_type: self.icon_type, background: self.background.0@, text: self.text@ }
    }
}

/// The icons of a card, by corner.
#[derive(Debug, Clone)]
pub struct CardIcons {
    pub top_left_icon: Option<CardIcon>,
    pub top_right_icon: Option<CardIcon>,
    pub bottom_right_icon: Option<CardIcon>,
    pub bottom_left_icon: Option<CardIcon>,
    pub arena_icon: Option<CardIcon>,
}

pub ghost struct CardIconsView {
    pub top_left_icon: Option<CardIconView>,
    pub top_right_icon: Option<CardIconView>,
    pub bottom_right_icon: Option<CardIconView>,
    pub bottom_left_icon: Option<CardIconView>,
    pub arena_icon: Option<CardIconView>,
}

pub open spec fn icon_view(icon: Option<CardIcon>) -> Option<CardIconView> {
    match icon {
        Some(i) => Some(i@),
        None => None,
    }
}

impl View for CardIcons {
    type V = CardIconsView;

    open spec fn view(&self) -> CardIconsView {
        CardIconsView {
            top_left_icon: icon_view(self.top_left_icon),
            top_right_icon: icon_view(self.top_right_icon),
            bottom_right_icon: icon_view(self.bottom_right_icon),
            bottom_left_icon: icon_view(self.bottom_left_icon),
            arena_icon: icon_view(self.arena_icon),
        }
    }
}

/// The icon of type `icon_type` showing `value`.
pub open spec fn spec_icon(icon_type: CardIconType, value: nat) -> CardIconView {
    CardIconView { icon_type, background: spec_card_icon(icon_type), text: spec_decimal(value) }
}

/// The icon of type `icon_type` showing `value`, if there is a value.
pub open spec fn spec_icon_of(icon_type: CardIconType, value: Option<u32>) -> Option<CardIconView> {
    match value {
        Some(v) => Some(spec_icon(icon_type, v as nat)),
        None => None,
    }
}

/// The icons of `card`. In play it shows its stored mana, or else its level, when it has some.
/// Only a card revealed to the viewer shows its mana cost (top left), its shield (bottom left) and
/// its attack, or else its health (bottom right); `mana_cost`, `shield`, `attack` and `health`
/// are the current values of those that the card's definition has.
pub open spec fn spec_card_icons(
    card: CardStateView,
    revealed: bool,
    mana_cost: Option<ManaValue>,
    shield: Option<ShieldValue>,
    attack: Option<AttackValue>,
    health: Option<HealthValue>,
) -> CardIconsView {
    CardIconsView {
        top_left_icon: if revealed { spec_icon_of(CardIconType::Mana, mana_cost) } else { None },
        top_right_icon: None,
        bottom_right_icon: if !revealed {
            None
        } else if attack is Some {
            spec_icon_of(CardIconType::Attack, attack)
        } else {
            spec_icon_of(CardIconType::Health, health)
        },
        bottom_left_icon: if revealed { spec_icon_of(CardIconType::Shield, shield) } else { None },
        arena_icon: if card.data.stored_mana > 0 {
            Some(spec_icon(CardIconType::Mana, card.data.stored_mana as nat))
        } else if card.data.card_level > 0 {
            Some(spec_icon(CardIconType::LevelCounter, card.data.card_level as nat))
        } else {
            None
        },
    }
}

/// The icon of type `icon_type` showing `value`.
pub fn card_icon_for(icon_type: CardIconType, value: u32) -> (result: CardIcon)
    ensures
        result@ == spec_icon(icon_type, value as nat),
{
    CardIcon { icon_type, background: card_icon(icon_type), text: decimal(value) }
}

/// The icon of type `icon_type` showing `value`, if there is a value.
fn icon_of(icon_type: CardIconType, value: Option<u32>) -> (result: Option<CardIcon>)
    ensures
        icon_view(result) == spec_icon_of(icon_type, value),
{
    match value {
        Some(v) => Some(card_icon_for(icon_type, v)),
        None => None,
    }
}

/// Builds the icons of `card`, which is `revealed` to the viewer or not.
pub fn card_icons(
    card: &CardState,
    revealed: bool,
    mana_cost: Option<ManaValue>,
    shield: Option<ShieldValue>,
    attack: Option<AttackValue>,
    health: Option<HealthValue>,
) -> (result: CardIcons)
    ensures
        result@ == spec_card_icons(card@, revealed, mana_cost, shield, attack, health),
{
    let mut icons = CardIcons {
        top_left_icon: None,
        top_right_icon: None,
        bottom_right_icon: None,
        bottom_left_icon: None,
        arena_icon: None,
    };
    let data = card.data();
    if data.card_level > 0 {
        icons.arena_icon = Some(card_icon_for(CardIconType::LevelCounter, data.card_level));
    }
    if data.stored_mana > 0 {
        icons.arena_icon = Some(card_icon_for(CardIconType::Mana, data.stored_mana));
    }
    if revealed {
        icons.top_left_icon = icon_of(CardIconType::Mana, mana_cost);
        icons.bottom_left_icon = icon_of(CardIconType::Shield, shield);
        icons.bottom_right_icon = if attack.is_some() {
            icon_of(CardIconType::Attack, attack)
        } else {
            icon_of(CardIconType::Health, health)
        };
    }
    icons
}

} // verus!
