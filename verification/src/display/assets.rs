//! Addresses of the images that cards are drawn with.
use vstd::prelude::*;
use vstd::string::StringExecFns;

use crate::primitives::{Faction, Rarity, School, Side, SpriteAddress};

verus! {

/// The icons that can be shown on a card.
#[derive(PartialEq, Eq, Structural, Hash, Debug, Copy, Clone)]
pub enum CardIconType {
    LevelCounter,
    Mana,
    Health,
    Attack,
    Shield,
    LevelRequirement,
    Points,
}

pub open spec fn spec_card_icon(icon_type: CardIconType) -> Seq<char> {
    match icon_type {
        CardIconType::LevelCounter => "LittleSweetDaemon/TCG_Card_Elemental_Design/Number_Icons/Number_Icons_Color_3"@,
        CardIconType::Mana => "LittleSweetDaemon/TCG_Card_Fantasy_Design/Icons/Icon_Mana_Color_01"@,
        CardIconType::Health => "LittleSweetDaemon/TCG_Card_Elemental_Design/Heart_Icons/Heart_Icons_Color_5"@,
        CardIconType::Attack => "LittleSweetDaemon/TCG_Card_Elemental_Design/Attack_Icons/Attack_Icons_Color_4"@,
        CardIconType::Shield => "LittleSweetDaemon/TCG_Card_Elemental_Design/Number_Icons/Number_Icons_Color_6"@,
        CardIconType::LevelRequirement => "LittleSweetDaemon/TCG_Card_Elemental_Design/Number_Back/Number_Back_Color_3"@,
        CardIconType::Points => "LittleSweetDaemon/TCG_Card_Elemental_Design/Card_Color_07/Back_Card_Color_07/Back_Card_Color_07_Logo_Crystal"@,
    }
}

/// The background image of a card icon.
pub fn card_icon(icon_type: CardIconType) -> (result: SpriteAddress)
    ensures
        result.0@ == spec_card_icon(icon_type),
{
    SpriteAddress(match icon_type {
        CardIconType::LevelCounter => String::from_str("LittleSweetDaemon/TCG_Card_Elemental_Design/Number_Icons/Number_Icons_Color_3"),
        CardIconType::Mana => String::from_str("LittleSweetDaemon/TCG_Card_Fantasy_Design/Icons/Icon_Mana_Color_01"),
        CardIconType::Health => String::from_str("LittleSweetDaemon/TCG_Card_Elemental_Design/Heart_Icons/Heart_Icons_Color_5"),
        CardIconType::Attack => String::from_str("LittleSweetDaemon/TCG_Card_Elemental_Design/Attack_Icons/Attack_Icons_Color_4"),
        CardIconType::Shield => String::from_str("LittleSweetDaemon/TCG_Card_Elemental_Design/Number_Icons/Number_Icons_Color_6"),
        CardIconType::LevelRequirement => String::from_str("LittleSweetDaemon/TCG_Card_Elemental_Design/Number_Back/Number_Back_Color_3"),
        CardIconType::Points => String::from_str("LittleSweetDaemon/TCG_Card_Elemental_Design/Card_Color_07/Back_Card_Color_07/Back_Card_Color_07_Logo_Crystal"),
    })
}

pub open spec fn spec_identity_card_frame_string(side: Side) -> Seq<char> {
    match side {
        Side::Overlord => "SpriteWay/Icons/Fantasy Player Frames/50002"@,
        Side::Champion => "SpriteWay/Icons/Fantasy Player Frames/50003"@,
    }
}

/// The address of the frame of a player's identity card.
pub fn identity_card_frame_string(side: Side) -> (result: String)
    ensures
        result@ == spec_identity_card_frame_string(side),
{
    match side {
        Side::Overlord => String::from_str("SpriteWay/Icons/Fantasy Player Frames/50002"),
        Side::Champion => String::from_str("SpriteWay/Icons/Fantasy Player Frames/50003"),
    }
}

/// The frame of a player's identity card.
pub fn identity_card_frame(side: Side) -> (result: SpriteAddress)
    ensures
        result.0@ == spec_identity_card_frame_string(side),
{
    SpriteAddress(identity_card_frame_string(side))
}

pub open spec fn spec_card_back(school: School) -> Seq<char> {
    match school {
        School::Time => "LittleSweetDaemon/TCG_Card_Fantasy_Design/Backs/Back_Steampunk_Style_Color_1"@,
        School::Shadow => "LittleSweetDaemon/TCG_Card_Fantasy_Design/Backs/Back_Daemon_Style_Color_1"@,
        School::Nature => "LittleSweetDaemon/TCG_Card_Fantasy_Design/Backs/Back_Elf_Style_Color_1"@,
    }
}

/// The back of a card of `school`.
pub fn card_back(school: School) -> (result: SpriteAddress)
    ensures
        result.0@ == spec_card_back(school),
{
    SpriteAddress(match school {
        School::Time => String::from_str("LittleSweetDaemon/TCG_Card_Fantasy_Design/Backs/Back_Steampunk_Style_Color_1"),
        School::Shadow => String::from_str("LittleSweetDaemon/TCG_Card_Fantasy_Design/Backs/Back_Daemon_Style_Color_1"),
        School::Nature => String::from_str("LittleSweetDaemon/TCG_Card_Fantasy_Design/Backs/Back_Elf_Style_Color_1"),
    })
}

pub open spec fn spec_card_frame(school: School) -> Seq<char> {
    match school {
        School::Time => "LittleSweetDaemon/TCG_Card_Fantasy_Design/Cards/Card_Steampunk_Style_Color_1"@,
        School::Shadow => "LittleSweetDaemon/TCG_Card_Fantasy_Design/Cards/Card_Daemon_Style_Color_1"@,
        School::Nature => "LittleSweetDaemon/TCG_Card_Fantasy_Design/Cards/Card_Elf_Style_Color_1"@,
    }
}

/// The front frame of a card of `school`.
pub fn card_frame(school: School) -> (result: SpriteAddress)
    ensures
        result.0@ == spec_card_frame(school),
{
    SpriteAddress(match school {
        School::Time => String::from_str("LittleSweetDaemon/TCG_Card_Fantasy_Design/Cards/Card_Steampunk_Style_Color_1"),
        School::Shadow => String::from_str("LittleSweetDaemon/TCG_Card_Fantasy_Design/Cards/Card_Daemon_Style_Color_1"),
        School::Nature => String::from_str("LittleSweetDaemon/TCG_Card_Fantasy_Design/Cards/Card_Elf_Style_Color_1"),
    })
}

pub open spec fn spec_ability_card_frame(side: Side) -> Seq<char> {
    match side {
        Side::Overlord => "LittleSweetDaemon/TCG_Card_Design/Custom/OverlordFront"@,
        Side::Champion => "LittleSweetDaemon/TCG_Card_Design/Custom/ChampionFront"@,
    }
}

/// The frame of an ability card of `side`.
pub fn ability_card_frame(side: Side) -> (result: SpriteAddress)
    ensures
        result.0@ == spec_ability_card_frame(side),
{
    SpriteAddress(match side {
        Side::Overlord => String::from_str("LittleSweetDaemon/TCG_Card_Design/Custom/OverlordFront"),
        Side::Champion => String::from_str("LittleSweetDaemon/TCG_Card_Design/Custom/ChampionFront"),
    })
}

pub open spec fn spec_jewel(rarity: Rarity) -> Seq<char> {
    match rarity {
        Rarity::Common => "LittleSweetDaemon/TCG_Card_Fantasy_Design/Jewels/Jewel_Elf_Color_01"@,
        Rarity::Uncommon => "LittleSweetDaemon/TCG_Card_Fantasy_Design/Jewels/Jewel_Steampunk_Color_01"@,
        Rarity::Rare => "LittleSweetDaemon/TCG_Card_Fantasy_Design/Jewels/Jewel_Elf_Color_02"@,
        Rarity::Epic => "LittleSweetDaemon/TCG_Card_Fantasy_Design/Jewels/Jewel_Steampunk_Color_02"@,
    }
}

/// The jewel that shows the rarity of a card.
pub fn jewel(rarity: Rarity) -> (result: SpriteAddress)
    ensures
        result.0@ == spec_jewel(rarity),
{
    SpriteAddress(match rarity {
        Rarity::Common => String::from_str("LittleSweetDaemon/TCG_Card_Fantasy_Design/Jewels/Jewel_Elf_Color_01"),
        Rarity::Uncommon => String::from_str("LittleSweetDaemon/TCG_Card_Fantasy_Design/Jewels/Jewel_Steampunk_Color_01"),
        Rarity::Rare => String::from_str("LittleSweetDaemon/TCG_Card_Fantasy_Design/Jewels/Jewel_Elf_Color_02"),
        Rarity::Epic => String::from_str("LittleSweetDaemon/TCG_Card_Fantasy_Design/Jewels/Jewel_Steampunk_Color_02"),
    })
}

/// The background of a card's title, the same for every faction.
pub fn title_background(faction: Option<Faction>) -> (result: SpriteAddress)
    ensures
        result.0@ == "LittleSweetDaemon/TCG_Card_Design/Custom/Title/BlackWhiteFaceTape"@,
{
    SpriteAddress(String::from_str("LittleSweetDaemon/TCG_Card_Design/Custom/Title/BlackWhiteFaceTape"))
}

} // verus!
