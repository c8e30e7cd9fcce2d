//! The first generation of packet definitions: connection states and directions, and the
//! decisions of the default status, ping and handshake handlers.

pub mod packet_definer;
pub mod status;
