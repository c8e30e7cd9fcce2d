//! World storage formats.

pub mod chunk;
