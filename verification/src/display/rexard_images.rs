//! Addresses of the Rexard icon images.
use vstd::prelude::*;
use vstd::string::StringExecFns;

use crate::primitives::SpriteAddress;
use crate::text::{decimal, spec_decimal};

verus! {

/// The address of image `name` from `pack`.
pub open spec fn spec_get(pack: RexardPack, name: Seq<char>) -> Seq<char> {
    "Rexard/"@ + pack.spec_path() + "/"@ + name + ".png"@
}

/// The sprite of image `name` from `pack`.
pub fn get(pack: RexardPack, name: &str) -> (result: SpriteAddress)
    ensures
        result.0@ == spec_get(pack, name@),
{
    let mut address = String::from_str("Rexard/");
    address.append(pack.path().as_str());
    address.append("/");
    address.append(name);
    address.append(".png");
    SpriteAddress(address)
}

/// The address of weapon image `name`.
pub open spec fn spec_weapon(weapon_type: RexardWeaponType, name: Seq<char>) -> Seq<char> {
    "Rexard/FantasyIconsMegaPack/WeaponsIcons/WeaponsIcons_png/black/"@ + weapon_type.spec_path()
        + "/"@ + name + ".png"@
}

/// The sprite of weapon image `name`.
pub fn weapon(weapon_type: RexardWeaponType, name: &str) -> (result: SpriteAddress)
    ensures
        result.0@ == spec_weapon(weapon_type, name@),
{
    let mut address = String::from_str("Rexard/FantasyIconsMegaPack/WeaponsIcons/WeaponsIcons_png/black/");
    address.append(weapon_type.path().as_str());
    address.append("/");
    address.append(name);
    address.append(".png");
    SpriteAddress(address)
}

/// The address of armor image `name`.
pub open spec fn spec_artifact(armor_type: RexardArtifactType, name: Seq<char>) -> Seq<char> {
    "Rexard/FantasyIconsMegaPack/ArmorIcons/ArmorIcons_png/black/"@ + armor_type.spec_path()
        + "/"@ + name + ".png"@
}

/// The sprite of armor image `name`.
pub fn artifact(armor_type: RexardArtifactType, name: &str) -> (result: SpriteAddress)
    ensures
        result.0@ == spec_artifact(armor_type, name@),
{
    let mut address = String::from_str("Rexard/FantasyIconsMegaPack/ArmorIcons/ArmorIcons_png/black/");
    address.append(armor_type.path().as_str());
    address.append("/");
    address.append(name);
    address.append(".png");
    SpriteAddress(address)
}

/// The address of spell book image `name` on page `page`.
pub open spec fn spec_spell(page: u32, name: Seq<char>) -> Seq<char> {
    "Rexard/SpellBookMegapack/SpellBookPage0"@ + spec_decimal(page as nat) + "/"@ + name + ".png"@
}

/// The sprite of spell book image `name` on page `page`.
pub fn spell(page: u32, name: &str) -> (result: SpriteAddress)
    ensures
        result.0@ == spec_spell(page, name@),
{
    let mut address = String::from_str("Rexard/SpellBookMegapack/SpellBookPage0");
    address.append(decimal(page).as_str());
    address.append("/");
    address.append(name);
    address.append(".png");
    SpriteAddress(address)
}

/// Packs of Rexard images.
#[derive(PartialEq, Eq, Structural, Hash, Debug, Copy, Clone)]
pub enum RexardPack {
    MonstersAvatars,
    MagicItems,
    JeweleryRings,
    JeweleryNecklaces,
    MiningIcons,
    LootIcons,
}

impl RexardPack {
    pub open spec fn spec_path(self) -> Seq<char> {
        match self {
            RexardPack::MonstersAvatars => "MonstersAvatarIcons/png"@,
            RexardPack::MagicItems => "FantasyIconsMegaPack/MagicItems/MagicItems_png/bg"@,
            RexardPack::JeweleryRings => "FairytaleIconsMegapack/JewelryIcons/bg/rings"@,
            RexardPack::JeweleryNecklaces => "FairytaleIconsMegapack/JewelryIcons/bg/necklaces"@,
            RexardPack::MiningIcons => "FairytaleIconsMegapack/MiningIcons/MiningIcons_bg"@,
            RexardPack::LootIcons => "FantasyIconsMegaPack/LootIcons/LootIcons_png/black"@,
        }
    }

    /// The directory of this kind of image within its pack.
    pub fn path(&self) -> (result: String)
        ensures
            result@ == self.spec_path(),
    {
        match self {
            RexardPack::MonstersAvatars => String::from_str("MonstersAvatarIcons/png"),
            RexardPack::MagicItems => String::from_str("FantasyIconsMegaPack/MagicItems/MagicItems_png/bg"),
            RexardPack::JeweleryRings => String::from_str("FairytaleIconsMegapack/JewelryIcons/bg/rings"),
            RexardPack::JeweleryNecklaces => String::from_str("FairytaleIconsMegapack/JewelryIcons/bg/necklaces"),
            RexardPack::MiningIcons => String::from_str("FairytaleIconsMegapack/MiningIcons/MiningIcons_bg"),
            RexardPack::LootIcons => String::from_str("FantasyIconsMegaPack/LootIcons/LootIcons_png/black"),
        }
    }
}

/// Kinds of weapon images.
#[derive(PartialEq, Eq, Structural, Hash, Debug, Copy, Clone)]
pub enum RexardWeaponType {
    Ammunition,
    Axes,
    Bows,
    BrassKnuckles,
    Clubs,
    Crossbows,
    Daggers,
    Guns,
    Hammers,
    Polearms,
    Staves,
    Swords,
    ThrowingWeapons,
}

impl RexardWeaponType {
    pub open spec fn spec_path(self) -> Seq<char> {
        match self {
            RexardWeaponType::Ammunition => "ammunition"@,
            RexardWeaponType::Axes => "axes"@,
            RexardWeaponType::Bows => "bows"@,
            RexardWeaponType::BrassKnuckles => "brass_knuckles"@,
            RexardWeaponType::Clubs => "clubs"@,
            RexardWeaponType::Crossbows => "crossbows"@,
            RexardWeaponType::Daggers => "daggers"@,
            RexardWeaponType::Guns => "guns"@,
            RexardWeaponType::Hammers => "hammers"@,
            RexardWeaponType::Polearms => "polearms"@,
            RexardWeaponType::Staves => "staves"@,
            RexardWeaponType::Swords => "swords"@,
            RexardWeaponType::ThrowingWeapons => "throwing_weapons"@,
        }
    }

    /// The directory of this kind of image within its pack.
    pub fn path(&self) -> (result: String)
        ensures
            result@ == self.spec_path(),
    {
        match self {
            RexardWeaponType::Ammunition => String::from_str("ammunition"),
            RexardWeaponType::Axes => String::from_str("axes"),
            RexardWeaponType::Bows => String::from_str("bows"),
            RexardWeaponType::BrassKnuckles => String::from_str("brass_knuckles"),
            RexardWeaponType::Clubs => String::from_str("clubs"),
            RexardWeaponType::Crossbows => String::from_str("crossbows"),
            RexardWeaponType::Daggers => String::from_str("daggers"),
            RexardWeaponType::Guns => String::from_str("guns"),
            RexardWeaponType::Hammers => String::from_str("hammers"),
            RexardWeaponType::Polearms => String::from_str("polearms"),
            RexardWeaponType::Staves => String::from_str("staves"),
            RexardWeaponType::Swords => String::from_str("swords"),
            RexardWeaponType::ThrowingWeapons => String::from_str("throwing_weapons"),
        }
    }
}

/// Kinds of armor images.
#[derive(PartialEq, Eq, Structural, Hash, Debug, Copy, Clone)]
pub enum RexardArtifactType {
    Addons,
    Armor,
    Belts,
    Boots,
    Bracers,
    Cloaks,
    Gloves,
    Helmets,
    Necklace,
    Pants,
    Rings,
    Shoulders,
}

impl RexardArtifactType {
    pub open spec fn spec_path(self) -> Seq<char> {
        match self {
            RexardArtifactType::Addons => "addons"@,
            RexardArtifactType::Armor => "armor"@,
            RexardArtifactType::Belts => "belts"@,
            RexardArtifactType::Boots => "boots"@,
            RexardArtifactType::Bracers => "bracers"@,
            RexardArtifactType::Cloaks => "cloaks"@,
            RexardArtifactType::Gloves => "gloves"@,
            RexardArtifactType::Helmets => "helmets"@,
            RexardArtifactType::Necklace => "necklace"@,
            RexardArtifactType::Pants => "pants"@,
            RexardArtifactType::Rings => "rings"@,
            RexardArtifactType::Shoulders => "shoulders"@,
        }
    }

    /// The directory of this kind of image within its pack.
    pub fn path(&self) -> (result: String)
        ensures
            result@ == self.spec_path(),
    {
        match self {
            RexardArtifactType::Addons => String::from_str("addons"),
            RexardArtifactType::Armor => String::from_str("armor"),
            RexardArtifactType::Belts => String::from_str("belts"),
            RexardArtifactType::Boots => String::from_str("boots"),
            RexardArtifactType::Bracers => String::from_str("bracers"),
            RexardArtifactType::Cloaks => String::from_str("cloaks"),
            RexardArtifactType::Gloves => String::from_str("gloves"),
            RexardArtifactType::Helmets => String::from_str("helmets"),
            RexardArtifactType::Necklace => String::from_str("necklace"),
            RexardArtifactType::Pants => String::from_str("pants"),
            RexardArtifactType::Rings => String::from_str("rings"),
            RexardArtifactType::Shoulders => String::from_str("shoulders"),
        }
    }
}

} // verus!
