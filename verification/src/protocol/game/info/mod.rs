//! Game information sent to players: player info updates and registries.

pub mod player;
pub mod player_action;
pub mod registry;
pub mod registry_data;
pub mod stats;
