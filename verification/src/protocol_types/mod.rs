//! Data types shared by many packets.

pub mod datatypes;
