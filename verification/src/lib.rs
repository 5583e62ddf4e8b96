//! A verified model of the Spelldawn card game rules engine.
pub mod primitives;
pub mod card_state;
pub mod card_definition;
pub mod delegates;
pub mod events;
pub mod game;
pub mod errors;
pub mod mana;
pub mod game_actions;
pub mod queries;
pub mod mutations;
pub mod flags;
pub mod raid;
pub mod raid_phases;
pub mod raid_actions;
pub mod helpers;
pub mod diff;
pub mod text;
pub mod display;
pub mod display2;
pub mod laws;
pub mod actions;
pub mod protos;
pub mod test_results;
