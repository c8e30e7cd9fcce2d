use sandstone::packets::packet_definer::PacketState as OldPacketState;
use sandstone::packets::status::status_handler::{DefaultHandshakeHandler, DefaultPingHandler, DefaultStatusHandler};
use sandstone::network::network_error::NetworkError;
use sandstone::protocol::game::world::chunk::{LightArray, PackedXZ};
use sandstone::protocol::packets::packet_definer::PacketState;
use sandstone::protocol::serialization::var_int::VarInt;
use sandstone::protocol::serialization::{McDeserialize, McDeserializer, McSerialize, McSerializer, SerializingErr};
use sandstone::protocol_types::datatypes::game_types::Position;

#[test]
fn varint_encodings() {
    let mut s = McSerializer::new();
    VarInt(0).mc_serialize(&mut s).unwrap();
    VarInt(300).mc_serialize(&mut s).unwrap();
    VarInt(-1).mc_serialize(&mut s).unwrap();
    assert_eq!(s.as_bytes(), &[0x00, 0xAC, 0x02, 0xFF, 0xFF, 0xFF, 0xFF, 0x0F]);
    let mut d = McDeserializer::new(s.as_bytes());
    assert_eq!(VarInt::mc_deserialize(&mut d).unwrap(), VarInt(0));
    assert_eq!(VarInt::mc_deserialize(&mut d).unwrap(), VarInt(300));
    assert_eq!(VarInt::mc_deserialize(&mut d).unwrap(), VarInt(-1));
    assert!(d.is_at_end());
}

#[test]
fn varint_too_long_is_refused() {
    let bytes = [0x80u8, 0x80, 0x80, 0x80, 0x80, 0x01];
    let mut d = McDeserializer::new(&bytes);
    assert!(VarInt::mc_deserialize(&mut d).is_err());
}

#[test]
fn varint_from_i32() {
    let v: VarInt = 7.into();
    assert_eq!(v, VarInt(7));
}

#[test]
fn position_packs_and_unpacks() {
    let p = Position::new(1, 2, 3);
    let packed = p.pack();
    assert_eq!(packed, (1u64 << 38) | (3u64 << 12) | 2);
    assert_eq!(Position::unpack(packed), p);
    let q = Position::new(-1, -2, -3);
    assert_eq!(Position::unpack(q.pack()), q);
}

#[test]
fn handshake_next_states() {
    assert_eq!(DefaultHandshakeHandler::next_state(OldPacketState::HANDSHAKING, VarInt(1)).unwrap(), OldPacketState::STATUS);
    assert_eq!(DefaultHandshakeHandler::next_state(OldPacketState::HANDSHAKING, VarInt(2)).unwrap(), OldPacketState::LOGIN);
    assert!(matches!(
        DefaultHandshakeHandler::next_state(OldPacketState::HANDSHAKING, VarInt(5)),
        Err(NetworkError::InvalidNextState(_))
    ));
    assert!(matches!(
        DefaultHandshakeHandler::next_state(OldPacketState::STATUS, VarInt(1)),
        Err(NetworkError::InvalidPacketState)
    ));
}

#[test]
fn status_and_ping_only_in_status_state() {
    assert!(DefaultStatusHandler::check_state(OldPacketState::STATUS).is_ok());
    assert!(matches!(DefaultStatusHandler::check_state(OldPacketState::LOGIN), Err(NetworkError::InvalidPacketState)));
    assert!(DefaultPingHandler::check_state(OldPacketState::STATUS).is_ok());
    assert!(matches!(DefaultPingHandler::check_state(OldPacketState::PLAY), Err(NetworkError::InvalidPacketState)));
}

#[test]
fn packet_state_ids() {
    assert_eq!(PacketState::from_id(1), Some(PacketState::STATUS));
    assert_eq!(PacketState::from_id(2), Some(PacketState::LOGIN));
    assert_eq!(PacketState::from_id(3), Some(PacketState::TRANSFER));
    assert_eq!(PacketState::from_id(0), None);
    assert_eq!(PacketState::STATUS.get_id(), Some(1));
    assert_eq!(PacketState::TRANSFER.get_id(), Some(3));
    assert_eq!(PacketState::PLAY.get_id(), None);
    for id in 0..=255u8 {
        if let Some(state) = PacketState::from_id(id) {
            assert_eq!(state.get_id(), Some(id));
        }
    }
}

#[test]
fn light_array_refusals() {
    let mut light = LightArray::new();
    assert!(matches!(light.set(0, 16), Err(SerializingErr::OutOfBounds(_))));
    assert!(matches!(light.set(4096, 1), Err(SerializingErr::OutOfBounds(_))));
    assert!(matches!(light.get(4096), Err(SerializingErr::OutOfBounds(_))));
    assert_eq!(light.get(4095).unwrap(), 0);
    light.set(4095, 9).unwrap();
    light.set(4094, 3).unwrap();
    assert_eq!(light.get(4095).unwrap(), 9);
    assert_eq!(light.get(4094).unwrap(), 3);
}

#[test]
fn packed_xz() {
    let p = PackedXZ::new(3, 12).unwrap();
    assert_eq!(p.x(), 3);
    assert_eq!(p.z(), 12);
    assert!(matches!(PackedXZ::new(16, 0), Err(SerializingErr::OutOfBounds(_))));
    assert!(matches!(PackedXZ::new(0, 16), Err(SerializingErr::OutOfBounds(_))));
}
