//! The default handlers of the status exchange.

pub mod status_handler;
