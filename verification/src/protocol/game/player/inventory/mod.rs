//! Inventories: slots and the components of the items in them.

pub mod component_types;
pub mod components;
pub mod slots;
