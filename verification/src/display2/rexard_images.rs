//! Addresses of the Rexard icon images.
use vstd::prelude::*;
use vstd::string::StringExecFns;

use crate::primitives::SpriteAddress;

verus! {

/// The address of image `name` from `pack`.
pub open spec fn spec_get(pack: RexardPack, name: Seq<char>) -> Seq<char> {
    "Rexard/"@ + pack.spec_path() + "/"@ + name
}

/// The sprite of image `name` from `pack`.
pub fn get(pack: RexardPack, name: &str) -> (result: SpriteAddress)
    ensures
        result.0@ == spec_get(pack, name@),
{
    let mut address = String::from_str("Rexard/");
    address.append(pack.path().as_str());
    address.append("/");
    address.append(name);
    SpriteAddress(address)
}

/// The address of weapon image `name`.
pub open spec fn spec_get_weapon(weapon_type: RexardWeaponType, name: Seq<char>) -> Seq<char> {
    "Rexard/FantasyIconsMegaPack/WeaponsIcons/WeaponsIcons_png/black/"@ + weapon_type.spec_path()
        + "/"@ + name
}

/// The sprite of weapon image `name`.
pub fn get_weapon(weapon_type: RexardWeaponType, name: &str) -> (result: SpriteAddress)
    ensures
        result.0@ == spec_get_weapon(weapon_type, name@),
{
    let mut address = String::from_str("Rexard/FantasyIconsMegaPack/WeaponsIcons/WeaponsIcons_png/black/");
    address.append(weapon_type.path().as_str());
    address.append("/");
    address.append(name);
    SpriteAddress(address)
}

/// Packs of Rexard images.
#[derive(PartialEq, Eq, Structural, Hash, Debug, Copy, Clone)]
pub enum RexardPack {
    MonstersAvatars,
}

impl RexardPack {
    pub open spec fn spec_path(self) -> Seq<char> {
        match self {
            RexardPack::MonstersAvatars => "MonstersAvatarIcons/png"@,
        }
    }

    /// The directory of this kind of image within its pack.
    pub fn path(&self) -> (result: String)
        ensures
            result@ == self.spec_path(),
    {
        match self {
            RexardPack::MonstersAvatars => String::from_str("MonstersAvatarIcons/png"),
        }
    }
}

/// Kinds of weapon images.
#[derive(PartialEq, Eq, Structural, Hash, Debug, Copy, Clone)]
pub enum RexardWeaponType {
    Ammunition,
    Axes,
    Bows,
    BrassKnuckles,
    Clubs,
    Crossbows,
    Daggers,
    Guns,
    Hammers,
    Polearms,
    Staves,
    Swords,
    ThrowingWeapons,
}

impl RexardWeaponType {
    pub open spec fn spec_path(self) -> Seq<char> {
        match self {
            RexardWeaponType::Ammunition => "ammunition"@,
            RexardWeaponType::Axes => "axes"@,
            RexardWeaponType::Bows => "bows"@,
            RexardWeaponType::BrassKnuckles => "brass_knuckles"@,
            RexardWeaponType::Clubs => "clubs"@,
            RexardWeaponType::Crossbows => "crossbows"@,
            RexardWeaponType::Daggers => "daggers"@,
            RexardWeaponType::Guns => "guns"@,
            RexardWeaponType::Hammers => "hammers"@,
            RexardWeaponType::Polearms => "polearms"@,
            RexardWeaponType::Staves => "staves"@,
            RexardWeaponType::Swords => "swords"@,
            RexardWeaponType::ThrowingWeapons => "throwing_weapons"@,
        }
    }

    /// The directory of this kind of image within its pack.
    pub fn path(&self) -> (result: String)
        ensures
            result@ == self.spec_path(),
    {
        match self {
            RexardWeaponType::Ammunition => String::from_str("ammunition"),
            RexardWeaponType::Axes => String::from_str("axes"),
            RexardWeaponType::Bows => String::from_str("bows"),
            RexardWeaponType::BrassKnuckles => String::from_str("brass_knuckles"),
            RexardWeaponType::Clubs => String::from_str("clubs"),
            RexardWeaponType::Crossbows => String::from_str("crossbows"),
            RexardWeaponType::Daggers => String::from_str("daggers"),
            RexardWeaponType::Guns => String::from_str("guns"),
            RexardWeaponType::Hammers => String::from_str("hammers"),
            RexardWeaponType::Polearms => String::from_str("polearms"),
            RexardWeaponType::Staves => String::from_str("staves"),
            RexardWeaponType::Swords => String::from_str("swords"),
            RexardWeaponType::ThrowingWeapons => String::from_str("throwing_weapons"),
        }
    }
}

} // verus!
