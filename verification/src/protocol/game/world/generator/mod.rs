//! World generators.

pub mod superflat;
