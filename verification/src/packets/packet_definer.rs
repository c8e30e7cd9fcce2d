//! Key enums and traits used to describe packets.

use vstd::prelude::*;

verus! {

/// Defines the DESTINATION of the packet. So a packet that is C -> S would be `PacketDirection::SERVER`
#[derive(Debug, Clone, PartialEq, Eq, Structural, Hash, Copy)]
pub enum PacketDirection {
    SERVER,
    CLIENT,
    BIDIRECTIONAL,
}

/// Used to help discern the type of packet being received. Note that different states could have
/// packets with the same ids.
#[derive(Debug, Clone, PartialEq, Eq, Structural, Hash, Copy)]
pub enum PacketState {
    STATUS,
    HANDSHAKING,
    LOGIN,
    CONFIGURATION,
    PLAY,
}

/// The state a handshake's next-state id asks for: 1 for status, 2 for login.
pub open spec fn spec_state_from_id(id: u8) -> Option<PacketState> {
    if id == 1 {
        Some(PacketState::STATUS)
    } else if id == 2 {
        Some(PacketState::LOGIN)
    } else {
        None
    }
}

/// The id a handshake uses for a state; only status and login have one.
pub open spec fn spec_state_id(state: PacketState) -> Option<u8> {
    match state {
        PacketState::STATUS => Some(1u8),
        PacketState::LOGIN => Some(2u8),
        _ => None,
    }
}

impl PacketState {
    pub fn from_id(id: u8) -> (r: Option<PacketState>)
        ensures
            r == spec_state_from_id(id),
            id == 1 ==> r == Some(PacketState::STATUS),
            id == 2 ==> r == Some(PacketState::LOGIN),
            id < 1 || id > 2 ==> r is None,
    {
        match id {
            1 => Some(PacketState::STATUS),
            2 => Some(PacketState::LOGIN),
            _ => None,
        }
    }

    pub fn get_id(&self) -> (r: Option<u8>)
        ensures
            r == spec_state_id(*self),
            *self == PacketState::STATUS ==> r == Some(1u8),
            *self == PacketState::LOGIN ==> r == Some(2u8),
            *self != PacketState::STATUS && *self != PacketState::LOGIN ==> r is None,
    {
        match self {
            PacketState::STATUS => Some(1),
            PacketState::LOGIN => Some(2),
            _ => None,
        }
    }
}

/// A state with an id is the state that id names, and an id that names a state is that state's
/// id.
pub proof fn lemma_state_id_round_trip(state: PacketState, id: u8)
    ensures
        spec_state_id(state) matches Some(i) ==> spec_state_from_id(i) == Some(state),
        spec_state_from_id(id) matches Some(s) ==> spec_state_id(s) == Some(id),
{
}

/// What a packet type tells about itself: its id and the state it is sent in.
pub trait PacketTrait {
    fn packet_id() -> u8;

    fn state() -> PacketState;
}

/// The handshake's next-state ids: 1 for status, 2 for login. Every other id names no state, and every
/// other state has no id.
pub proof fn lemma_handshake_state_ids(id: u8, state: PacketState)
    ensures
        spec_state_from_id(1) == Some(PacketState::STATUS),
        spec_state_from_id(2) == Some(PacketState::LOGIN),
        (id < 1 || id > 2) ==> spec_state_from_id(id) is None,
        spec_state_id(PacketState::STATUS) == Some(1u8),
        spec_state_id(PacketState::LOGIN) == Some(2u8),
        state != PacketState::STATUS && state != PacketState::LOGIN ==> spec_state_id(state) is None,
{
}

} // verus!
