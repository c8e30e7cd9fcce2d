//! Small bit containers.

pub mod bitfield;
pub mod bitset;
