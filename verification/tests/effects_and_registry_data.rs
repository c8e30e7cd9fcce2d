use sandstone::protocol::game::world::chunk::{ChunkSection, LightData, PalleteFormat};
use sandstone::protocol::game::world::generator::superflat::{bottom_section, lit_light_data, superflat_chunk, LIGHT_SECTION_COUNT};
use sandstone::protocol::game::info::registry_data::{RegistryDataPacket, RegistryEntry};
use sandstone::protocol::packets::packet_parts::effects::{FireworkExplosion, PotionEffect, PotionEffectDetail};
use sandstone::protocol::serialization::serializer_types::{PrefixedArray, PrefixedOptional};
use sandstone::protocol::serialization::var_int::VarInt;
use sandstone::protocol::serialization::{McDeserialize, McDeserializer, McSerialize, McSerializer};
use sandstone::protocol_types::datatypes::nbt::{NbtCompound, NbtTag};

fn bytes_of<T: McSerialize>(v: &T) -> Vec<u8> {
    let mut s = McSerializer::new();
    v.mc_serialize(&mut s).unwrap();
    s.output
}

fn detail(amplifier: i32, hidden: Option<PotionEffectDetail>) -> PotionEffectDetail {
    PotionEffectDetail {
        amplifier: VarInt(amplifier),
        duration: VarInt(100),
        ambient: false,
        show_particles: true,
        show_icon: true,
        hidden_effect: hidden.map(Box::new),
    }
}

#[test]
fn potion_detail_without_hidden_effect() {
    let d = detail(1, None);
    assert_eq!(bytes_of(&d), vec![1, 100, 0, 1, 1, 0]);
    let mut de = McDeserializer::new(&[1u8, 100, 0, 1, 1, 0]);
    assert_eq!(PotionEffectDetail::mc_deserialize(&mut de).unwrap(), d);
}

#[test]
fn potion_detail_with_nested_hidden_effects() {
    let d = detail(3, Some(detail(2, Some(detail(1, None)))));
    let b = bytes_of(&d);
    assert_eq!(b.len(), 6 * 3);
    assert_eq!(&b[0..6], &[3, 100, 0, 1, 1, 1]);
    let mut de = McDeserializer::new(&b);
    assert_eq!(PotionEffectDetail::mc_deserialize(&mut de).unwrap(), d);
    assert!(de.is_at_end());
}

#[test]
fn potion_detail_cut_short_is_refused() {
    let mut de = McDeserializer::new(&[1u8, 100, 0, 1, 1, 1, 2]);
    assert!(PotionEffectDetail::mc_deserialize(&mut de).is_err());
}

#[test]
fn potion_effect_round_trip() {
    let e = PotionEffect { type_id: VarInt(12), detail: detail(0, None) };
    let b = bytes_of(&e);
    assert_eq!(b[0], 12);
    let mut de = McDeserializer::new(&b);
    assert_eq!(PotionEffect::mc_deserialize(&mut de).unwrap(), e);
}

#[test]
fn firework_explosion_round_trip() {
    let f = FireworkExplosion {
        shape: VarInt(1),
        colors: PrefixedArray::new(vec![0x00FF0000]),
        fade_colors: PrefixedArray::new(vec![]),
        has_trail: true,
        has_twinkle: false,
    };
    let b = bytes_of(&f);
    assert_eq!(b, vec![1, 1, 0x00, 0xFF, 0x00, 0x00, 0, 1, 0]);
    let mut de = McDeserializer::new(&b);
    assert_eq!(FireworkExplosion::mc_deserialize(&mut de).unwrap(), f);
}

#[test]
fn registry_data_with_compounds_round_trip() {
    let mut c = NbtCompound::new_no_name();
    c.add("height".to_string(), NbtTag::Int(384));
    let packet = RegistryDataPacket {
        registry_id: "minecraft:dimension_type".to_string(),
        entries: PrefixedArray::new(vec![
            RegistryEntry { id: "minecraft:overworld".to_string(), data: PrefixedOptional::new(Some(c)) },
            RegistryEntry { id: "minecraft:the_end".to_string(), data: PrefixedOptional::new(None) },
        ]),
    };
    let b = bytes_of(&packet);
    let mut de = McDeserializer::new(&b);
    assert_eq!(RegistryDataPacket::mc_deserialize(&mut de).unwrap(), packet);
    assert!(de.is_at_end());
}

#[test]
fn superflat_light_is_full_sky_light() {
    let light = lit_light_data();
    for i in 0..64 {
        assert_eq!(light.sky_light_mask.get_bit(i), i < LIGHT_SECTION_COUNT);
        assert_eq!(light.empty_block_light_mask.get_bit(i), i < LIGHT_SECTION_COUNT);
        assert!(!light.block_light_mask.get_bit(i));
        assert!(!light.empty_light_mask.get_bit(i));
    }
    assert_eq!(light.sky_light.vec.len(), 26);
    assert_eq!(light.sky_light.vec[25].get(4095).unwrap(), 15);
    assert!(light.block_light.vec.is_empty());
    let b = bytes_of(&light);
    let mut de = McDeserializer::new(&b);
    assert_eq!(LightData::mc_deserialize(&mut de).unwrap(), light);
}

#[test]
fn superflat_bottom_section_layers() {
    let s = bottom_section(0, 85, 10, 9);
    assert_eq!(s.block_count, 1024);
    assert_eq!(s.block_states.bits_per_entry, 4);
    match &s.block_states.palette {
        PalleteFormat::Indirect(f) => {
            assert_eq!(f.palette.vec, vec![VarInt(0), VarInt(85), VarInt(10), VarInt(9)]);
        }
        _ => panic!("expected an indirect palette"),
    }
    assert_eq!(s.block_states.data.len(), 256);
    assert_eq!(s.block_states.data[0].data, 0x1111111111111111);
    assert_eq!(s.block_states.data[16].data, 0x2222222222222222);
    assert_eq!(s.block_states.data[47].data, 0x2222222222222222);
    assert_eq!(s.block_states.data[48].data, 0x3333333333333333);
    assert_eq!(s.block_states.data[64].data, 0);
    let b = bytes_of(&s);
    let mut de = McDeserializer::new(&b);
    assert_eq!(ChunkSection::mc_deserialize(&mut de).unwrap(), s);
    let (chunk, light) = superflat_chunk(0, 85, 10, 9);
    assert_eq!(chunk.data.data.len(), 24);
    assert_eq!(chunk.data.data[0], s);
    assert_eq!(chunk.data.data[5].block_count, 0);
    assert_eq!(light.sky_light.vec.len(), 26);
}
