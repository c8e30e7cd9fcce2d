use sandstone::protocol::game::effects::sound::SoundCategory;
use sandstone::protocol::game::entity::{GlobalPosition, ProfileProperty};
use sandstone::protocol::game::info::registry::registry_components::{
    BiomeMusic, BiomeMusicData, MonsterSpawnLightLevel, MonsterSpawnLightLevelRange,
};
use sandstone::protocol::game::info::stats::advancement::AdvancementFrameType;
use sandstone::protocol::game::player::inventory::component_types::DyeColor;
use sandstone::protocol::game::player::inventory::components::{
    ChickenVariantComponent, EnchantmentEntry, EnchantmentList, LodestoneTrackerComponent,
};
use sandstone::protocol::game::player::inventory::slots::InventoryOperationMode;
use sandstone::protocol::game::world::chunk::{BlockEntity, ChunkByteData, ChunkData, PackedXZ};
use sandstone::protocol::game::world::{BlockPos, ChunkPos};
use sandstone::protocol::packets::packet_parts::item::MapColorPatch;
use sandstone::protocol::packets::packet_parts::LoginPluginSpec;
use sandstone::protocol::serialization::serializer_types::{PrefixedArray, PrefixedOptional};
use sandstone::protocol::serialization::var_int::VarInt;
use sandstone::protocol::serialization::{McDeserialize, McDeserializer, McSerialize, McSerializer, SerializingErr};
use sandstone::protocol_types::datatypes::game_types::Position;
use sandstone::protocol_types::datatypes::nbt::{NbtCompound, NbtTag};

fn bytes_of<T: McSerialize>(v: &T) -> Vec<u8> {
    let mut s = McSerializer::new();
    v.mc_serialize(&mut s).unwrap();
    s.output
}

#[test]
fn test_monster_light_level_format() {
    let mut compound = NbtCompound::new_no_name();
    let light = MonsterSpawnLightLevel {
        isRange: true,
        level: None,
        range: Some(MonsterSpawnLightLevelRange {
            min_inclusive: 0,
            max_inclusive: 15,
            typ: "minecraft:light_range".to_string(),
        }),
    };
    compound.add("light".to_string(), light.to_nbt_tag());
    let light_num = MonsterSpawnLightLevel { isRange: false, level: Some(10), range: None };
    compound.add("light_num".to_string(), light_num.to_nbt_tag());

    let mut serializer = McSerializer::new();
    compound.mc_serialize(&mut serializer).unwrap();

    let mut deserializer = McDeserializer::new(serializer.as_bytes());
    let deserialized_compound = NbtCompound::mc_deserialize(&mut deserializer).unwrap();

    assert_eq!(compound, deserialized_compound);
}

#[test]
fn light_level_tags_read_back() {
    let light_num = MonsterSpawnLightLevel { isRange: false, level: Some(10), range: None };
    assert_eq!(light_num.to_nbt_tag(), NbtTag::Int(10));
    assert_eq!(MonsterSpawnLightLevel::try_from_tag(NbtTag::Int(10)).unwrap(), light_num);
    let range = MonsterSpawnLightLevelRange { min_inclusive: 0, max_inclusive: 7, typ: "minecraft:uniform".to_string() };
    let light = MonsterSpawnLightLevel { isRange: true, level: None, range: Some(range) };
    assert_eq!(MonsterSpawnLightLevel::try_from_tag(light.to_nbt_tag()).unwrap(), light);
    assert!(MonsterSpawnLightLevel::try_from_tag(NbtTag::Byte(1)).is_err());
}

#[test]
fn sound_category_writes_an_int_and_reads_a_byte() {
    assert_eq!(bytes_of(&SoundCategory::Music), vec![0, 0, 0, 1]);
    assert_eq!(bytes_of(&SoundCategory::Voice), vec![0, 0, 0, 9]);
    let mut d = McDeserializer::new(&[8u8]);
    assert_eq!(SoundCategory::mc_deserialize(&mut d).unwrap(), SoundCategory::Ambient);
    let mut d = McDeserializer::new(&[10u8]);
    assert!(matches!(SoundCategory::mc_deserialize(&mut d), Err(SerializingErr::InvalidEnumValue(10))));
}

#[test]
fn varint_enums() {
    assert_eq!(bytes_of(&AdvancementFrameType::Goal), vec![2]);
    assert_eq!(bytes_of(&InventoryOperationMode::PickupAll), vec![6]);
    let mut d = McDeserializer::new(&[1u8]);
    assert_eq!(InventoryOperationMode::mc_deserialize(&mut d).unwrap(), InventoryOperationMode::ShiftClick);
    let mut d = McDeserializer::new(&[3u8]);
    assert!(matches!(AdvancementFrameType::mc_deserialize(&mut d), Err(SerializingErr::InvalidEnumValue(3))));
}

#[test]
fn dye_colors() {
    assert_eq!(bytes_of(&DyeColor::Black), vec![15]);
    let mut d = McDeserializer::new(&[3u8]);
    assert_eq!(DyeColor::mc_deserialize(&mut d).unwrap(), DyeColor::LightBlue);
    let mut d = McDeserializer::new(&[16u8]);
    assert!(matches!(DyeColor::mc_deserialize(&mut d), Err(SerializingErr::DeserializationError(_))));
}

#[test]
fn global_position_round_trip() {
    let gp = GlobalPosition { dimension: "minecraft:overworld".to_string(), position: Position::new(10, 64, -3) };
    let b = bytes_of(&gp);
    assert_eq!(b[0], 19);
    assert_eq!(b.len(), 1 + 19 + 8);
    let mut d = McDeserializer::new(&b);
    assert_eq!(GlobalPosition::mc_deserialize(&mut d).unwrap(), gp);
    assert!(d.is_at_end());
}

#[test]
fn profile_property_round_trip() {
    let p = ProfileProperty {
        name: "textures".to_string(),
        value: "abc".to_string(),
        signature: PrefixedOptional::new(None),
    };
    let b = bytes_of(&p);
    assert_eq!(b, vec![8, b't', b'e', b'x', b't', b'u', b'r', b'e', b's', 3, b'a', b'b', b'c', 0]);
    let mut d = McDeserializer::new(&b);
    assert_eq!(ProfileProperty::mc_deserialize(&mut d).unwrap(), p);
}

#[test]
fn lodestone_tracker_round_trips() {
    let with = LodestoneTrackerComponent {
        has_global_pos: true,
        dimension: Some("minecraft:the_end".to_string()),
        position: Some(Position::new(1, 2, 3)),
        is_tracked: false,
    };
    let b = bytes_of(&with);
    let mut d = McDeserializer::new(&b);
    assert_eq!(LodestoneTrackerComponent::mc_deserialize(&mut d).unwrap(), with);
    let without = LodestoneTrackerComponent { has_global_pos: false, dimension: None, position: None, is_tracked: true };
    assert_eq!(bytes_of(&without), vec![0, 1]);
    let mut d = McDeserializer::new(&[0u8, 1]);
    assert_eq!(LodestoneTrackerComponent::mc_deserialize(&mut d).unwrap(), without);
}

#[test]
fn chicken_variant_modes() {
    assert_eq!(bytes_of(&ChickenVariantComponent::Registry(VarInt(5))), vec![1, 5]);
    assert_eq!(bytes_of(&ChickenVariantComponent::ByName("a".to_string())), vec![0, 1, b'a']);
    let mut d = McDeserializer::new(&[2u8, 0]);
    assert!(matches!(ChickenVariantComponent::mc_deserialize(&mut d), Err(SerializingErr::DeserializationError(_))));
}

#[test]
fn enchantments_round_trip() {
    let list = EnchantmentList {
        entries: PrefixedArray::new(vec![
            EnchantmentEntry { type_id: VarInt(3), level: VarInt(2) },
            EnchantmentEntry { type_id: VarInt(200), level: VarInt(1) },
        ]),
    };
    let b = bytes_of(&list);
    assert_eq!(b, vec![2, 3, 2, 0xC8, 0x01, 1]);
    let mut d = McDeserializer::new(&b);
    assert_eq!(EnchantmentList::mc_deserialize(&mut d).unwrap(), list);
}

#[test]
fn map_color_patch_fields_follow_a_zero_column_count() {
    let full = MapColorPatch {
        columns: 0,
        rows: Some(2),
        color_x: Some(3),
        color_z: Some(4),
        data: Some(PrefixedArray::new(vec![9, 9])),
    };
    let b = bytes_of(&full);
    assert_eq!(b, vec![0, 2, 3, 4, 2, 9, 9]);
    let mut d = McDeserializer::new(&b);
    assert_eq!(MapColorPatch::mc_deserialize(&mut d).unwrap(), full);
    let mut d = McDeserializer::new(&[5u8, 1, 2]);
    let short = MapColorPatch::mc_deserialize(&mut d).unwrap();
    assert_eq!(short, MapColorPatch { columns: 5, rows: None, color_x: None, color_z: None, data: None });
    assert!(!d.is_at_end());
}

#[test]
fn login_plugin_answer() {
    let bytes = [7u8, 1, 0xAA, 0xBB];
    let mut d = McDeserializer::new(&bytes);
    let spec = LoginPluginSpec::mc_deserialize(&mut d).unwrap();
    assert!(d.is_at_end());
    assert_eq!(bytes_of(&spec), bytes.to_vec());
    let refused = [7u8, 0];
    let mut d = McDeserializer::new(&refused);
    let spec = LoginPluginSpec::mc_deserialize(&mut d).unwrap();
    assert_eq!(bytes_of(&spec), refused.to_vec());
}

#[test]
fn chunk_of_block() {
    let c: ChunkPos = BlockPos::new(17, 70, -1).into();
    assert_eq!(c, ChunkPos::new(1, -1));
    let c: ChunkPos = BlockPos::new(-16, 0, -17).into();
    assert_eq!(c, ChunkPos::new(-1, -2));
    let b: BlockPos = Position::new(1, 2, 3).into();
    assert_eq!(b, BlockPos::new(1, 2, 3));
    assert_eq!(bytes_of(&ChunkPos::new(1, -1)), vec![0, 0, 0, 1, 0xFF, 0xFF, 0xFF, 0xFF]);
}

#[test]
fn chunk_data_round_trip() {
    let mut data = NbtCompound::new_no_name();
    data.add("id".to_string(), NbtTag::Str("minecraft:chest".to_string()));
    let entity = BlockEntity { packed_xz: PackedXZ::new(1, 2).unwrap(), y: -60, typ: VarInt(7), data };
    let chunk = ChunkData {
        heightmaps: PrefixedArray::new(vec![]),
        data: ChunkByteData { data: vec![] },
        block_entities: PrefixedArray::new(vec![entity]),
    };
    let b = bytes_of(&chunk);
    let mut d = McDeserializer::new(&b);
    assert_eq!(ChunkData::mc_deserialize(&mut d).unwrap(), chunk);
    assert!(d.is_at_end());
}

#[test]
fn biome_music_nbt_round_trip() {
    let music = BiomeMusicData {
        data: BiomeMusic { max_delay: 24000, min_delay: 12000, replace_current_music: false, sound: "minecraft:music.game".to_string() },
        weight: 1,
    };
    let nbt = music.to_nbt();
    assert_eq!(BiomeMusicData::from_nbt(&nbt).unwrap(), music);
    let b = bytes_of(&music);
    let mut d = McDeserializer::new(&b);
    assert_eq!(BiomeMusicData::mc_deserialize(&mut d).unwrap(), music);
    let empty = NbtCompound::new_no_name();
    assert!(matches!(BiomeMusicData::from_nbt(&empty), Err(SerializingErr::NbtMissingField(_))));
}
