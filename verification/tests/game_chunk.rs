use sandstone::game::player::PlayerGamemode;
use sandstone::game::world::chunk::{entries_per_i64, PackedEntries};
use sandstone::protocol::serialization::{McSerialize, McSerializer};

#[test]
fn test_gamemode_serialization() {
    let mut serializer = McSerializer::new();
    PlayerGamemode::UNDEFINED.mc_serialize(&mut serializer).unwrap();
    PlayerGamemode::SURVIVAL.mc_serialize(&mut serializer).unwrap();
    PlayerGamemode::CREATIVE.mc_serialize(&mut serializer).unwrap();
    PlayerGamemode::ADVENTURE.mc_serialize(&mut serializer).unwrap();
    PlayerGamemode::SPECTATOR.mc_serialize(&mut serializer).unwrap();
    let bytes = serializer.as_bytes();

    assert_eq!(bytes, vec![-1i8 as u8, 0, 1, 2, 3]);
}

#[test]
fn test_entries_per_i64() {
    assert_eq!(entries_per_i64(1), 64);
    assert_eq!(entries_per_i64(2), 32);
    assert_eq!(entries_per_i64(3), 21);
    assert_eq!(entries_per_i64(4), 16);
    assert_eq!(entries_per_i64(5), 12);
    assert_eq!(entries_per_i64(6), 10);
    assert_eq!(entries_per_i64(7), 9);
    assert_eq!(entries_per_i64(8), 8);
}

#[test]
fn basic_packed_entries_test() {
    let mut packed = PackedEntries::new(4);
    packed.set_entry(0, 1);
    packed.set_entry(1, 2);
    packed.set_entry(2, 3);
    packed.set_entry(3, 4);

    assert_eq!(packed.get_entry(0), 1);
    assert_eq!(packed.get_entry(1), 2);
    assert_eq!(packed.get_entry(2), 3);
    assert_eq!(packed.get_entry(3), 4);
}

#[test]
fn extract_from_hex() {
    let packed = PackedEntries { data: 0x0020863148418841, bpe: 5 };

    assert_eq!(packed.get_entry(0), 1);
    assert_eq!(packed.get_entry(1), 2);
    assert_eq!(packed.get_entry(2), 2);
    assert_eq!(packed.get_entry(3), 3);
    assert_eq!(packed.get_entry(4), 4);
    assert_eq!(packed.get_entry(5), 4);
    assert_eq!(packed.get_entry(6), 5);
    assert_eq!(packed.get_entry(7), 6);
    assert_eq!(packed.get_entry(8), 6);
    assert_eq!(packed.get_entry(9), 4);
    assert_eq!(packed.get_entry(10), 8);

    let packed = PackedEntries { data: 0x01018A7260F68C87, bpe: 5 };

    assert_eq!(packed.get_entry(0), 7);
    assert_eq!(packed.get_entry(1), 4);
    assert_eq!(packed.get_entry(2), 3);
    assert_eq!(packed.get_entry(3), 13);
    assert_eq!(packed.get_entry(4), 15);
    assert_eq!(packed.get_entry(5), 16);
    assert_eq!(packed.get_entry(6), 9);
    assert_eq!(packed.get_entry(7), 14);
    assert_eq!(packed.get_entry(8), 10);
    assert_eq!(packed.get_entry(9), 12);
    assert_eq!(packed.get_entry(10), 0);
    assert_eq!(packed.get_entry(11), 2);
}
