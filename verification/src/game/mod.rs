//! Game-side data structures: players and world storage.

pub mod player;
pub mod world;
