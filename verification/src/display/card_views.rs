//! How the client shows the card that stands for an ability.
use vstd::prelude::*;
use vstd::string::StringExecFns;

use crate::display::adapters::{adapt_card_id, spec_adapt_card_id, to_player_name};
use crate::display::assets::{ability_card_frame, spec_ability_card_frame, title_background};
use crate::display::card_icons::{card_icon_for, spec_icon, CardIcons};
use crate::display::assets::CardIconType;
use crate::card_definition::AbilityType;
use crate::game::GameState;
use crate::primitives::{AbilityId, ManaValue, Side, SpriteAddress};
use crate::protos::{CardIdentifier, PlayerName};

verus! {

/// The shape in which the client draws a card.
#[derive(PartialEq, Eq, Structural, Hash, Debug, Copy, Clone)]
pub enum CardPrefab {
    Standard,
    TokenCard,
}

/// What a player who can see a card is shown of it.
#[derive(Debug, Clone)]
pub struct RevealedCardView {
    pub card_frame: Option<SpriteAddress>,
    pub title_background: Option<SpriteAddress>,
    pub jewel: Option<SpriteAddress>,
    pub image: Option<SpriteAddress>,
    pub title: Option<String>,
    pub rules_text: Option<String>,
    /// Whether the card can be played now; it needs no target
    pub can_play: bool,
    /// The card into which the card goes when released
    pub release_into_card: Option<CardIdentifier>,
}

/// A card as the client shows it.
#[derive(Debug, Clone)]
pub struct CardView {
    pub card_id: Option<CardIdentifier>,
    pub prefab: CardPrefab,
    pub revealed_to_viewer: bool,
    pub is_face_up: bool,
    pub card_icons: Option<CardIcons>,
    pub arena_frame: Option<SpriteAddress>,
    pub owning_player: PlayerName,
    pub revealed_card: Option<RevealedCardView>,
}

/// How the protocol names the card that stands for an ability: the card, and the ability's
/// position on it.
pub open spec fn spec_adapt_ability_id(ability_id: AbilityId) -> CardIdentifier {
    CardIdentifier { ability_id: Some(ability_id.index.0 as u32), ..spec_adapt_card_id(ability_id.card_id) }
}

/// How the protocol names the card that stands for an ability.
pub fn adapt_ability_id(ability_id: AbilityId) -> (result: CardIdentifier)
    requires
        ability_id.card_id.index <= u32::MAX,
        ability_id.index.0 <= u32::MAX,
    ensures
        result == spec_adapt_ability_id(ability_id),
{
    let card = adapt_card_id(ability_id.card_id);
    CardIdentifier { ability_id: Some(ability_id.index.0 as u32), ..card }
}

/// The mana that an ability of type `ability_type` costs to activate, if it is activated.
pub open spec fn ability_mana_cost(ability_type: AbilityType) -> Option<ManaValue> {
    match ability_type {
        AbilityType::Activated(cost) => Some(cost.mana),
        _ => None,
    }
}

/// The card that stands for the ability `ability_id`, of type `ability_type`, as the player
/// `user_side` sees it: a token card titled "Use" and the card's name (`displayed_name`) with the
/// card's `image` and the ability's `rules_text`. An activated ability shows its mana cost in the
/// top left corner. The card can be played when `check_can_play` asks for the check and the
/// rules allow activating the ability now (`allowed`). Released, it goes into the card that has
/// the ability.
pub fn ability_card_view(
    game: &GameState,
    ability_id: AbilityId,
    user_side: Side,
    ability_type: AbilityType,
    check_can_play: bool,
    allowed: bool,
    rules_text: String,
    image: SpriteAddress,
    displayed_name: &str,
) -> (result: CardView)
    requires
        game@.has_card(ability_id.card_id),
        ability_id.card_id.index <= u32::MAX,
        ability_id.index.0 <= u32::MAX,
    ensures
        result.card_id == Some(spec_adapt_ability_id(ability_id)),
        result.prefab == CardPrefab::TokenCard,
        result.revealed_to_viewer,
        !result.is_face_up,
        match ability_mana_cost(ability_type) {
            Some(mana) => result.card_icons matches Some(icons) && icons@.top_left_icon == Some(
                spec_icon(CardIconType::Mana, mana as nat),
            ) && icons@.top_right_icon is None && icons@.bottom_left_icon is None
                && icons@.bottom_right_icon is None && icons@.arena_icon is None,
            None => result.card_icons is None,
        },
        result.arena_frame is None,
        result.owning_player == if ability_id.card_id.side == user_side {
            PlayerName::User
        } else {
            PlayerName::Opponent
        },
        result.revealed_card matches Some(revealed) && {
            &&& revealed.card_frame matches Some(frame) && frame.0@ == spec_ability_card_frame(
                ability_id.card_id.side,
            )
            &&& revealed.title_background matches Some(background) && background.0@
                == "LittleSweetDaemon/TCG_Card_Design/Custom/Title/BlackWhiteFaceTape"@
            &&& revealed.jewel is None
            &&& revealed.image == Some(image)
            &&& revealed.title matches Some(title) && title@ == "Use "@ + displayed_name@
            &&& revealed.rules_text == Some(rules_text)
            &&& revealed.can_play == (check_can_play && allowed)
            &&& revealed.release_into_card == Some(spec_adapt_card_id(ability_id.card_id))
        },
{
    let side = ability_id.card_id.side;
    let mana_cost = match ability_type {
        AbilityType::Activated(cost) => Some(cost.mana),
        _ => None,
    };
    let can_play = if check_can_play {
        allowed
    } else {
        false
    };
    let icons = match mana_cost {
        Some(mana) => Some(CardIcons {
            top_left_icon: Some(card_icon_for(CardIconType::Mana, mana)),
            top_right_icon: None,
            bottom_right_icon: None,
            bottom_left_icon: None,
            arena_icon: None,
        }),
        None => None,
    };
    let mut title = String::from_str("Use ");
    title.append(displayed_name);
    CardView {
        card_id: Some(adapt_ability_id(ability_id)),
        prefab: CardPrefab::TokenCard,
        revealed_to_viewer: true,
        is_face_up: false,
        card_icons: icons,
        arena_frame: None,
        owning_player: to_player_name(side, user_side),
        revealed_card: Some(
            RevealedCardView {
                card_frame: Some(ability_card_frame(side)),
                title_background: Some(title_background(None)),
                jewel: None,
                image: Some(image),
                title: Some(title),
                rules_text: Some(rules_text),
                can_play,
                release_into_card: Some(adapt_card_id(ability_id.card_id)),
            },
        ),
    }
}

} // verus!
