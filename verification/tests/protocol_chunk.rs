use sandstone::protocol::game::world::chunk::{
    entries_per_i64, ChunkSection, LightArray, PaletteFormatType, PalletedContainer,
};
use sandstone::protocol::serialization::var_int::VarInt;
use sandstone::protocol::serialization::{McDeserialize, McDeserializer, McSerialize, McSerializer};

#[test]
fn chunk_test_entries_per_i64() {
    assert_eq!(entries_per_i64(1), 64);
    assert_eq!(entries_per_i64(2), 32);
    assert_eq!(entries_per_i64(3), 21);
    assert_eq!(entries_per_i64(4), 16);
    assert_eq!(entries_per_i64(5), 12);
    assert_eq!(entries_per_i64(6), 10);
    assert_eq!(entries_per_i64(7), 9);
    assert_eq!(entries_per_i64(8), 8);
}

#[test]
fn test_paletted_container_builders_round_trip() {
    // 4 distinct block states spread across the 4096 entries, plus a single-valued biome.
    let palette = vec![VarInt(0), VarInt(1), VarInt(10), VarInt(9)];
    let mut indices = vec![0u16; 4096];
    for i in 0..256 {
        indices[i] = 1; // bottom layer -> palette index 1
    }
    let block_states = PalletedContainer::indirect(palette, &indices, PaletteFormatType::BLOCKS).unwrap();
    let biomes = PalletedContainer::single_valued(VarInt(40));

    let section = ChunkSection { block_count: 256, block_states, biomes };

    let mut serializer = McSerializer::new();
    section.mc_serialize(&mut serializer).unwrap();
    let bytes: Vec<u8> = serializer.output;
    let mut deserializer = McDeserializer::new(&bytes);
    let result = ChunkSection::mc_deserialize(&mut deserializer).unwrap();

    assert_eq!(section, result);
    assert!(deserializer.is_at_end());
}

#[test]
fn test_light_array() {
    let mut light_array = LightArray::new();

    light_array.set(0, 0x0F).unwrap();
    assert_eq!(light_array.get(0).unwrap(), 0x0F);

    light_array.set(1, 0x0F).unwrap();
    assert_eq!(light_array.get(1).unwrap(), 0x0F);

    light_array.set(2, 0x00).unwrap();
    assert_eq!(light_array.get(2).unwrap(), 0x00);

    light_array.set(3, 0x00).unwrap();
    assert_eq!(light_array.get(3).unwrap(), 0x00);

    assert_eq!(light_array.get(4).is_err(), false);
}
