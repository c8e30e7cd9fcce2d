//! Sandstone: a Minecraft: Java Edition protocol library whose wire formats are specified
//! and proved with Verus.

pub mod game;
pub mod network;
pub mod packets;
pub mod protocol;
pub mod protocol_types;
pub mod util;
