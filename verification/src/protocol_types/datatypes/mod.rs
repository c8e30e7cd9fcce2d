//! Data types shared by many packets.

pub mod game_types;
pub mod nbt;
pub mod nbt_fields;
