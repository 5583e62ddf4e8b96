pub mod adapters;
pub mod assets;
pub mod card_icons;
pub mod card_views;
pub mod prompts;
pub mod rexard_images;
pub mod rules_text;
