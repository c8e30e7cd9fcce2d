//! The states a connection goes through and the directions packets travel in.

use vstd::prelude::*;

verus! {

/// Defines the DESTINATION of the packet. So a packet that is C -> S would be `PacketDirection::SERVER`.
///
/// In the context of initiating a connection, this is the type of client that is being created.
/// So if you are creating a client that connects to a server, you would use `PacketDirection::CLIENT`.
#[derive(Debug, Clone, PartialEq, Eq, Structural, Hash, Copy)]
pub enum PacketDirection {
    SERVER,
    CLIENT,
}

/// Used to help discern the type of packet being received. Note that different states could have
/// packets with the same ids.
#[derive(Debug, Clone, PartialEq, Eq, Structural, Hash, Copy)]
pub enum PacketState {
    STATUS,
    HANDSHAKING,
    LOGIN,
    CONFIGURATION,
    PLAY,
    TRANSFER,
}

/// The state a handshake's next-state id asks for: 1 for status, 2 for login, 3 for transfer.
pub open spec fn spec_state_from_id(id: u8) -> Option<PacketState> {
    if id == 1 {
        Some(PacketState::STATUS)
    } else if id == 2 {
        Some(PacketState::LOGIN)
    } else if id == 3 {
        Some(PacketState::TRANSFER)
    } else {
        None
    }
}

/// The id a handshake uses for a state; only status, login and transfer have one.
pub open spec fn spec_state_id(state: PacketState) -> Option<u8> {
    match state {
        PacketState::STATUS => Some(1u8),
        PacketState::LOGIN => Some(2u8),
        PacketState::TRANSFER => Some(3u8),
        _ => None,
    }
}

impl PacketState {
    /// Converts an u8 to a PacketState. Returns None if the id is unknown.
    pub fn from_id(id: u8) -> (r: Option<PacketState>)
        ensures
            r == spec_state_from_id(id),
            id == 1 ==> r == Some(PacketState::STATUS),
            id == 2 ==> r == Some(PacketState::LOGIN),
            id == 3 ==> r == Some(PacketState::TRANSFER),
            id < 1 || id > 3 ==> r is None,
    {
        match id {
            1 => Some(PacketState::STATUS),
            2 => Some(PacketState::LOGIN),
            3 => Some(PacketState::TRANSFER),
            _ => None,
        }
    }

    /// Gets the ID of the packet state. Returns None if the state is unknown.
    pub fn get_id(&self) -> (r: Option<u8>)
        ensures
            r == spec_state_id(*self),
            *self == PacketState::STATUS ==> r == Some(1u8),
            *self == PacketState::LOGIN ==> r == Some(2u8),
            *self == PacketState::TRANSFER ==> r == Some(3u8),
            *self != PacketState::STATUS && *self != PacketState::LOGIN && *self != PacketState::TRANSFER ==> r is None,
    {
        match self {
            PacketState::STATUS => Some(1),
            PacketState::LOGIN => Some(2),
            PacketState::TRANSFER => Some(3),
            _ => None,
        }
    }
}

/// A state with an id is the state that id names, and an id that names a state is that state's
/// id.
pub proof fn lemma_state_id_round_trip(state: PacketState, id: u8)
    ensures
        spec_state_id(state) matches Some(i) ==> spec_state_from_id(i) == Some(state),
        spec_state_from_id(id) matches Some(s) ==> spec_state_id(s) == Some(id),
{
}

/// The handshake's next-state ids: 1 for status, 2 for login and 3 for transfer. Every other id names no state, and every
/// other state has no id.
pub proof fn lemma_handshake_state_ids(id: u8, state: PacketState)
    ensures
        spec_state_from_id(1) == Some(PacketState::STATUS),
        spec_state_from_id(2) == Some(PacketState::LOGIN),
        spec_state_from_id(3) == Some(PacketState::TRANSFER),
        (id < 1 || id > 3) ==> spec_state_from_id(id) is None,
        spec_state_id(PacketState::STATUS) == Some(1u8),
        spec_state_id(PacketState::LOGIN) == Some(2u8),
        spec_state_id(PacketState::TRANSFER) == Some(3u8),
        state != PacketState::STATUS && state != PacketState::LOGIN && state != PacketState::TRANSFER ==> spec_state_id(state) is None,
{
}

} // verus!
