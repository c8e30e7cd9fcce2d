//! The decisions of the default status, ping and handshake handlers. Receiving and sending the
//! packets is left to the connection; these say which states the exchange may run in and where
//! it goes next.

use crate::network::network_error::{NetworkErrKind, NetworkError};
use crate::packets::packet_definer::PacketState;
use crate::protocol::serialization::var_int::VarInt;
use vstd::prelude::*;

verus! {

/// The default server-list status handler.
pub struct DefaultStatusHandler;

/// The default ping handler.
pub struct DefaultPingHandler;

/// The default handshake handler.
pub struct DefaultHandshakeHandler;

impl DefaultStatusHandler {
    /// A status exchange runs only in the status state; in any other it is refused.
    pub fn check_state(state: PacketState) -> (r: Result<(), NetworkError>)
        ensures
            state == PacketState::STATUS ==> r is Ok,
            state != PacketState::STATUS ==> (r matches Err(e) && e.kind() == NetworkErrKind::InvalidPacketState),
    {
        if state != PacketState::STATUS {
            return Err(NetworkError::InvalidPacketState);
        }
        Ok(())
    }
}

impl DefaultPingHandler {
    /// A ping runs only in the status state; in any other it is refused.
    pub fn check_state(state: PacketState) -> (r: Result<(), NetworkError>)
        ensures
            state == PacketState::STATUS ==> r is Ok,
            state != PacketState::STATUS ==> (r matches Err(e) && e.kind() == NetworkErrKind::InvalidPacketState),
    {
        if state != PacketState::STATUS {
            return Err(NetworkError::InvalidPacketState);
        }
        Ok(())
    }
}

/// The message of the error, formatted by std's `format!`; nothing is claimed of its text.
#[verifier::external_body]
fn invalid_next_state_message(next_state: i32) -> String {
    format!("Invalid next state detected, got \"{}\"", next_state)
}

impl DefaultHandshakeHandler {
    /// The state a connection moves to after a handshake received in `state` asks for
    /// `next_state`: a handshake outside the handshaking state is refused, 1 leads to status, 2 to
    /// login, and any other request is refused.
    pub fn next_state(state: PacketState, next_state: VarInt) -> (r: Result<PacketState, NetworkError>)
        ensures
            state != PacketState::HANDSHAKING ==> (r matches Err(e) && e.kind() == NetworkErrKind::InvalidPacketState),
            state == PacketState::HANDSHAKING && next_state.0 == 1 ==> r == Ok::<PacketState, NetworkError>(PacketState::STATUS),
            state == PacketState::HANDSHAKING && next_state.0 == 2 ==> r == Ok::<PacketState, NetworkError>(PacketState::LOGIN),
            state == PacketState::HANDSHAKING && next_state.0 != 1 && next_state.0 != 2
                ==> (r matches Err(e) && e.kind() == NetworkErrKind::InvalidNextState),
    {
        if state != PacketState::HANDSHAKING {
            return Err(NetworkError::InvalidPacketState);
        }
        if next_state.0 == 1 {
            Ok(PacketState::STATUS)
        } else if next_state.0 == 2 {
            Ok(PacketState::LOGIN)
        } else {
            Err(NetworkError::InvalidNextState(invalid_next_state_message(next_state.0)))
        }
    }
}

} // verus!
