//! Screens that the server opens on the client.

pub mod dialog;
