//! Effects that play in the world.

pub mod sound;
