//! Protocol data types, their wire formats, and the packets built from them.

pub mod game;
pub mod packets;
pub mod serialization;
