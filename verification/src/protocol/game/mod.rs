//! Game data as it travels in packets.

pub mod effects;
pub mod entity;
pub mod info;
pub mod player;
pub mod world;
