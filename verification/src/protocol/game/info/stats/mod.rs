//! Statistics and advancements.

pub mod advancement;
