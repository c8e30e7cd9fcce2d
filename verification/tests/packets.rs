use sandstone::protocol::game::info::registry::registry_generator;
use sandstone::protocol::packets::packet_definer::{PacketDirection, PacketState};
use sandstone::protocol::packets::{
    ClientboundPluginMessagePacket, HandshakingPacket, LoginPluginRequestPacket, Packet, PingRequestPacket,
    StatusRequestPacket,
};
use sandstone::protocol::serialization::var_int::VarInt;
use sandstone::protocol::serialization::{McDeserializer, McSerialize, McSerializer, SerializingErr};

fn bytes_of(p: &Packet) -> Vec<u8> {
    let mut s = McSerializer::new();
    p.mc_serialize(&mut s).unwrap();
    s.output
}

#[test]
fn handshake_is_length_id_body() {
    let p = Packet::Handshaking(HandshakingPacket::new(VarInt(774), "localhost".to_string(), 25565, VarInt(2)));
    assert_eq!(p.packet_id(), VarInt(0));
    assert_eq!(p.state(), PacketState::HANDSHAKING);
    assert_eq!(p.direction(), PacketDirection::SERVER);
    let b = bytes_of(&p);
    // id 0, protocol 774 (0x86 0x06), "localhost", port 25565 (0x63 0xDD), next state 2
    let inner = [vec![0x00, 0x86, 0x06, 9], b"localhost".to_vec(), vec![0x63, 0xDD, 0x02]].concat();
    assert_eq!(b, [vec![inner.len() as u8], inner].concat());
    let mut d = McDeserializer::new(&b);
    assert_eq!(Packet::deserialize_state(&mut d, PacketState::HANDSHAKING, PacketDirection::SERVER).unwrap(), p);
    assert!(d.is_at_end());
}

#[test]
fn the_same_id_means_another_packet_in_another_state() {
    let b = bytes_of(&Packet::Handshaking(HandshakingPacket::new(VarInt(774), "a".to_string(), 1, VarInt(1))));
    let mut d = McDeserializer::new(&b);
    let p = Packet::deserialize_state(&mut d, PacketState::STATUS, PacketDirection::SERVER).unwrap();
    assert_eq!(p, Packet::StatusRequest(StatusRequestPacket::new()));
    // the whole packet is taken, whatever its body read
    assert!(d.is_at_end());
}

#[test]
fn ping_round_trip() {
    let p = Packet::PingRequest(PingRequestPacket::new(-5));
    let b = bytes_of(&p);
    assert_eq!(b, vec![9, 0x01, 0xFF, 0xFF, 0xFF, 0xFF, 0xFF, 0xFF, 0xFF, 0xFB]);
    let mut d = McDeserializer::new(&b);
    assert_eq!(Packet::deserialize_state(&mut d, PacketState::STATUS, PacketDirection::SERVER).unwrap(), p);
}

#[test]
fn unknown_id_is_refused() {
    let mut d = McDeserializer::new(&[1u8, 0x7F]);
    let r = Packet::deserialize_state(&mut d, PacketState::HANDSHAKING, PacketDirection::SERVER);
    assert!(matches!(r, Err(SerializingErr::UniqueFailure(_))));
}

#[test]
fn body_that_does_not_read_is_refused() {
    // a ping needs eight bytes of payload
    let mut d = McDeserializer::new(&[3u8, 0x01, 0x00, 0x00]);
    let r = Packet::deserialize_state(&mut d, PacketState::STATUS, PacketDirection::SERVER);
    assert!(matches!(r, Err(SerializingErr::UniqueFailure(_))));
}

#[test]
fn length_past_the_input_is_refused() {
    let mut d = McDeserializer::new(&[5u8, 0x00]);
    let r = Packet::deserialize_state(&mut d, PacketState::HANDSHAKING, PacketDirection::SERVER);
    assert!(matches!(r, Err(SerializingErr::InputEnded)));
}

#[test]
fn login_registry_data_reads_back() {
    let packets = registry_generator::default();
    assert_eq!(packets.len(), 10);
    let ids = [
        "minecraft:cat_variant",
        "minecraft:chicken_variant",
        "minecraft:cow_variant",
        "minecraft:dimension_type",
        "minecraft:frog_variant",
        "minecraft:painting_variant",
        "minecraft:pig_variant",
        "minecraft:wolf_sound_variant",
        "minecraft:wolf_variant",
        "minecraft:worldgen/biome",
    ];
    for (p, id) in packets.iter().zip(ids.iter()) {
        match p {
            Packet::RegistryData(r) => {
                assert_eq!(r.packet.registry_id, *id);
                assert_eq!(r.packet.num_entries, VarInt(1));
                assert_eq!(r.packet.entries.len(), 1);
            }
            _ => panic!("expected registry data"),
        }
        assert_eq!(p.state(), PacketState::CONFIGURATION);
        assert_eq!(p.direction(), PacketDirection::CLIENT);
        let b = bytes_of(p);
        let mut d = McDeserializer::new(&b);
        assert_eq!(&Packet::deserialize_state(&mut d, PacketState::CONFIGURATION, PacketDirection::CLIENT).unwrap(), p);
    }
}

#[test]
fn plugin_message_data_runs_to_the_end_of_the_packet() {
    let p = Packet::ClientboundPluginMessage(ClientboundPluginMessagePacket::new("a:b".to_string(), vec![1, 2, 3]));
    assert_eq!(p.packet_id(), VarInt(1));
    assert_eq!(p.state(), PacketState::CONFIGURATION);
    assert_eq!(p.direction(), PacketDirection::CLIENT);
    let b = bytes_of(&p);
    assert_eq!(b, vec![8, 0x01, 3, b'a', b':', b'b', 1, 2, 3]);
    // a byte after the packet is not part of its data
    let mut more = b.clone();
    more.push(0xAA);
    let mut d = McDeserializer::new(&more);
    assert_eq!(Packet::deserialize_state(&mut d, PacketState::CONFIGURATION, PacketDirection::CLIENT).unwrap(), p);
    assert_eq!(d.index, b.len());
}

#[test]
fn login_plugin_request_reads_back() {
    let p = Packet::LoginPluginRequest(LoginPluginRequestPacket::new(VarInt(7), "x".to_string(), vec![]));
    let b = bytes_of(&p);
    assert_eq!(b, vec![4, 0x04, 7, 1, b'x']);
    let mut d = McDeserializer::new(&b);
    assert_eq!(Packet::deserialize_state(&mut d, PacketState::LOGIN, PacketDirection::CLIENT).unwrap(), p);
}
