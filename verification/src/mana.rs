//! Mana: how much a player can spend, and spending, gaining and losing it.
use vstd::prelude::*;

use crate::errors::RulesError;
use crate::game::{GameState, GameStateView, PlayerState, SpecificRaidMana};
use crate::primitives::{AbilityId, CardId, ManaValue, RaidId, RoomId, Side};

verus! {

/// What mana is being asked for. Raid-specific mana counts toward every purpose except
/// [ManaPurpose::BaseMana].
#[derive(PartialEq, Eq, Structural, Hash, Debug, Clone, Copy)]
pub enum ManaPurpose {
    BaseMana,
    BonusForDisplay,
    PayForCard(CardId),
    DestroyCard(CardId),
    UseWeapon(CardId),
    ActivateAbility(AbilityId),
    LevelUpRoom(RoomId),
    PayForTriggeredAbility,
    AllSources,
}

/// The player holds mana reserved for the raid now in progress.
pub open spec fn raid_mana_applies(game: GameStateView, side: Side) -> bool {
    &&& game.data.raid is Some
    &&& game.player(side).specific_raid_mana is Some
    &&& game.data.raid->0.raid_id == game.player(side).specific_raid_mana->0.raid_id
}

/// Mana that the player may spend now, for any purpose but [ManaPurpose::BaseMana].
pub open spec fn total_mana(game: GameStateView, side: Side) -> int {
    game.player(side).mana + if raid_mana_applies(game, side) {
        game.player(side).specific_raid_mana->0.mana as int
    } else {
        0int
    }
}

/// The player's available mana can be represented as a [ManaValue].
pub open spec fn mana_fits(game: GameStateView, side: Side) -> bool {
    total_mana(game, side) <= u32::MAX
}

/// The mana available to `side` for `purpose`.
pub open spec fn spec_get(game: GameStateView, side: Side, purpose: ManaPurpose) -> int {
    match purpose {
        ManaPurpose::BaseMana => game.player(side).mana as int,
        ManaPurpose::BonusForDisplay => total_mana(game, side) - game.player(side).mana,
        _ => total_mana(game, side),
    }
}

/// The player's state after `amount` is spent, raid-specific mana first.
pub open spec fn spent_player(game: GameStateView, side: Side, amount: ManaValue) -> PlayerState {
    let player = game.player(side);
    if raid_mana_applies(game, side) {
        let raid_mana = player.specific_raid_mana->0;
        if raid_mana.mana >= amount {
            PlayerState {
                specific_raid_mana: Some(
                    SpecificRaidMana { mana: (raid_mana.mana - amount) as u32, ..raid_mana },
                ),
                ..player
            }
        } else {
            PlayerState {
                mana: (player.mana - (amount - raid_mana.mana)) as u32,
                specific_raid_mana: Some(SpecificRaidMana { mana: 0, ..raid_mana }),
                ..player
            }
        }
    } else {
        PlayerState { mana: (player.mana - amount) as u32, ..player }
    }
}

/// Returns the amount of mana `side` can spend for `purpose`.
pub fn get(game: &GameState, side: Side, purpose: ManaPurpose) -> (result: ManaValue)
    requires
        mana_fits(game@, side),
    ensures
        result == spec_get(game@, side, purpose),
{
    let base_mana = game.player(side).mana;
    let mut result = game.player(side).mana;
    match (&game.data().raid, &game.player(side).specific_raid_mana) {
        (Some(raid_data), Some(raid_mana)) if raid_data.raid_id == raid_mana.raid_id => {
            result += raid_mana.mana;
        },
        _ => {},
    }

    match purpose {
        ManaPurpose::BaseMana => base_mana,
        ManaPurpose::BonusForDisplay => result - base_mana,
        _ => result,
    }
}

/// Spends `amount` of the player's mana, raid-specific mana first. Fails, changing nothing,
/// when less than `amount` is available for `purpose`.
pub fn spend(game: &mut GameState, side: Side, purpose: ManaPurpose, amount: ManaValue) -> (result:
    Result<(), RulesError>)
    requires
        mana_fits(old(game)@, side),
    ensures
        final(game).update_log() == old(game).update_log(),
        final(game).event_log() == old(game).event_log(),
        result is Ok <==> spec_get(old(game)@, side, purpose) >= amount,
        result is Err ==> result == Err::<(), RulesError>(RulesError::InsufficientMana)
            && final(game)@ == old(game)@,
        result is Ok ==> final(game)@ == (GameStateView { modified: true, ..old(game)@ }).with_player(
            side,
            spent_player(old(game)@, side, amount),
        ),
{
    if get(game, side, purpose) < amount {
        return Err(RulesError::InsufficientMana);
    }
    let mut to_spend = amount;
    let applies = match (&game.data().raid, &game.player(side).specific_raid_mana) {
        (Some(raid_data), Some(raid_mana)) => raid_data.raid_id == raid_mana.raid_id,
        _ => false,
    };
    if applies {
        let player = game.player_mut(side);
        match &mut player.specific_raid_mana {
            Some(raid_mana) => {
                to_spend = try_spend(&mut raid_mana.mana, to_spend);
            },
            None => {},
        }
    }
    let player = game.player_mut(side);
    player.mana = player.mana - to_spend;
    Ok(())
}

/// Spends as much as it can of `amount`: all of it, or all the mana available for `purpose`.
pub fn lose_upto(game: &mut GameState, side: Side, purpose: ManaPurpose, amount: ManaValue)
    requires
        mana_fits(old(game)@, side),
    ensures
        final(game).update_log() == old(game).update_log(),
        final(game).event_log() == old(game).event_log(),
        ({
            let lost = if spec_get(old(game)@, side, purpose) < amount {
                spec_get(old(game)@, side, purpose) as u32
            } else {
                amount
            };
            final(game)@ == (GameStateView { modified: true, ..old(game)@ }).with_player(
                side,
                spent_player(old(game)@, side, lost),
            )
        }),
{
    let available = get(game, side, purpose);
    let lost = if available < amount {
        available
    } else {
        amount
    };
    let result = spend(game, side, purpose, lost);
    assert(result is Ok);
}

/// Adds `amount` to the player's general mana.
pub fn gain(game: &mut GameState, side: Side, amount: ManaValue)
    requires
        old(game)@.player(side).mana + amount <= u32::MAX,
    ensures
        final(game).update_log() == old(game).update_log(),
        final(game).event_log() == old(game).event_log(),
        final(game)@ == (GameStateView { modified: true, ..old(game)@ }).with_player(
            side,
            PlayerState { mana: (old(game)@.player(side).mana + amount) as u32, ..old(game)@.player(side) },
        ),
{
    let player = game.player_mut(side);
    player.mana = player.mana + amount;
}

/// Sets the player's general mana to `amount`.
pub fn set(game: &mut GameState, side: Side, amount: ManaValue)
    ensures
        final(game).update_log() == old(game).update_log(),
        final(game).event_log() == old(game).event_log(),
        final(game)@ == (GameStateView { modified: true, ..old(game)@ }).with_player(
            side,
            PlayerState { mana: amount, ..old(game)@.player(side) },
        ),
{
    let player = game.player_mut(side);
    player.mana = amount;
}

/// The raid-specific mana of a player after `amount` is added for raid `raid_id`: added to what
/// the player already holds for that raid, or replacing what it holds for another raid.
pub open spec fn added_raid_mana(player: PlayerState, raid_id: RaidId, amount: ManaValue) -> Option<
    SpecificRaidMana,
> {
    match player.specific_raid_mana {
        Some(raid_mana) if raid_mana.raid_id == raid_id => Some(
            SpecificRaidMana { raid_id, mana: (raid_mana.mana + amount) as u32 },
        ),
        _ => Some(SpecificRaidMana { raid_id, mana: amount }),
    }
}

/// Gives the player `amount` of mana that can only be spent during raid `raid_id`.
pub fn add_raid_specific_mana(game: &mut GameState, side: Side, raid_id: RaidId, amount: ManaValue)
    requires
        old(game)@.player(side).specific_raid_mana is Some
            && old(game)@.player(side).specific_raid_mana->0.raid_id == raid_id
            ==> old(game)@.player(side).specific_raid_mana->0.mana + amount <= u32::MAX,
    ensures
        final(game).update_log() == old(game).update_log(),
        final(game).event_log() == old(game).event_log(),
        final(game)@ == (GameStateView { modified: true, ..old(game)@ }).with_player(
            side,
            PlayerState {
                specific_raid_mana: added_raid_mana(old(game)@.player(side), raid_id, amount),
                ..old(game)@.player(side)
            },
        ),
{
    let player = game.player_mut(side);
    player.specific_raid_mana = match player.specific_raid_mana {
        Some(raid_mana) if raid_mana.raid_id == raid_id => Some(
            SpecificRaidMana { raid_id, mana: raid_mana.mana + amount },
        ),
        _ => Some(SpecificRaidMana { raid_id, mana: amount }),
    };
}

/// Takes up to `amount` from `source` and returns the part of `amount` it could not cover.
fn try_spend(source: &mut ManaValue, amount: ManaValue) -> (remaining: ManaValue)
    ensures
        *old(source) >= amount ==> *final(source) == *old(source) - amount && remaining == 0,
        *old(source) < amount ==> *final(source) == 0 && remaining == amount - *old(source),
{
    if *source >= amount {
        *source = *source - amount;
        0
    } else {
        let result = amount - *source;
        *source = 0;
        result
    }
}

} // verus!
