use sandstone::protocol::game::info::registry::{
    BannerPattern, DimensionType, RegistryDataPacketInternal, RegistryEntry, RegistryType,
};
use sandstone::protocol::serialization::{McDeserialize, McDeserializer, McSerialize, McSerializer};

#[test]
fn registry_dimensiontype_asnbt() {
    let dim = DimensionType::default();
    let original = dim.to_nbt();
    let from_nbt = DimensionType::from_nbt(&original).unwrap();
    assert_eq!(dim, from_nbt);
    let second = from_nbt.to_nbt();
    assert_eq!(original, second);
}

#[test]
fn mod_dimensiontype_asnbt() {
    let dim = DimensionType::default();
    let original = dim.to_nbt();
    let from_nbt = DimensionType::from_nbt(&original).unwrap();
    assert_eq!(dim, from_nbt);
    let second = from_nbt.to_nbt();
    assert_eq!(original, second);
}

#[test]
fn serialize_and_back_again() {
    let dim = BannerPattern::default();
    let mut serializer = McSerializer::new();
    dim.mc_serialize(&mut serializer).unwrap();

    println!("{:?}", dim.to_nbt());

    let mut deserializer = McDeserializer::new(serializer.as_bytes());
    println!("Deserializing: {:?}", deserializer.data);
    println!("First byte: {}", deserializer.data[0]);
    let deserialized: BannerPattern = McDeserialize::mc_deserialize(&mut deserializer).unwrap();

    assert_eq!(dim, deserialized);
}

#[test]
fn test_registry_internal() {
    let registry = RegistryDataPacketInternal {
        registry_id: "minecraft:dimension_type".to_string(),
        num_entries: 0.into(),
        entries: vec![],
    };

    let mut serializer = McSerializer::new();
    registry.mc_serialize(&mut serializer).unwrap();
    let mut deserializer = McDeserializer::new(serializer.as_bytes());
    let deserialized: RegistryDataPacketInternal = McDeserialize::mc_deserialize(&mut deserializer).unwrap();
    assert_eq!(registry, deserialized);
}

#[test]
fn test_registry_components() {
    let dim = DimensionType::default();
    let entry = RegistryEntry {
        id: "minecraft:overworld".to_string(),
        is_present: true,
        data: Some(RegistryType::DimensionType(dim)),
    };

    let registry = RegistryDataPacketInternal {
        registry_id: "minecraft:dimension_type".to_string(),
        num_entries: 1.into(),
        entries: vec![entry.clone()],
    };

    let mut serializer = McSerializer::new();
    registry.mc_serialize(&mut serializer).unwrap();
    println!("Serialized: {:?}", serializer.as_bytes());
    let mut deserializer = McDeserializer::new(serializer.as_bytes());
    let deserialized: RegistryDataPacketInternal = McDeserialize::mc_deserialize(&mut deserializer).unwrap();
    assert_eq!(registry, deserialized);
    assert_eq!(deserialized.entries.len(), 1);
    assert_eq!(deserialized.entries[0].id, "minecraft:overworld");

    assert_eq!(entry, deserialized.entries[0]);
}

#[test]
fn test_registry_entry() {
    let mut serializer = McSerializer::new();
    let dim = DimensionType::default();
    let entry = RegistryEntry {
        id: "minecraft:overworld".to_string(),
        is_present: true,
        data: Some(RegistryType::DimensionType(dim)),
    };

    entry.mc_serialize(&mut serializer).unwrap();
    let mut deserializer = McDeserializer::new(serializer.as_bytes());
    let deserialized = RegistryEntry::mc_deserialize(&mut deserializer, "minecraft:dimension_type".to_string()).unwrap();
    assert_eq!(entry, deserialized);
}

#[test]
fn registry_defaults_are_the_minecraft_values() {
    let b = BannerPattern::default();
    assert_eq!(b.asset_id, "minecraft:base");
    assert_eq!(b.translation_key, "block.minecraft.banner.base");
    let d = DimensionType::default();
    assert_eq!(d.coordinate_scale, 1.0f64.to_bits());
    assert_eq!(d.has_skylight, 1);
    assert_eq!(d.min_y, -64);
    assert_eq!(d.height, 384);
    assert_eq!(d.infiniburn, "#minecraft:infiniburn_overworld");
    assert_eq!(d.monster_spawn_light_level, 7);
}
