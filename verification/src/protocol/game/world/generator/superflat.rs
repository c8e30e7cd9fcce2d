//! A minimal superflat world generator. Every chunk of a superflat world is the same: bedrock,
//! two layers of dirt and a layer of grass at the bottom (world y -64 to -61), air above, lit by
//! the sky throughout. The global block-state ids are the caller's, since they depend on the
//! protocol version's block data.

use crate::game::world::chunk::PaletteModel;
use crate::protocol::game::world::chunk::{
    spec_bit_length, spec_packs, ChunkByteData, ChunkData, ChunkSection, LightArray, LightData, PaletteFormatType,
    PalletedContainer,
};
use crate::protocol::serialization::var_int::VarInt;
use crate::protocol::serialization::serializer_types::PrefixedArray;
use crate::util::bitset::{spec_bitset_bit, BitSet};
use vstd::prelude::*;

verus! {

/// An overworld column is 384 blocks tall: 24 sections.
pub const SECTION_COUNT: usize = 24;

/// Light is sent for one section below and one above the world too.
pub const LIGHT_SECTION_COUNT: usize = 26;

/// The biome id of plains: its index in the biome registry sent.
pub const PLAINS_BIOME: i32 = 0;

/// The palette index of the block at entry `i` of the bottom section, whose entries are laid out
/// y, then z, then x (`i = y * 256 + z * 16 + x`): bedrock (1) at y 0, dirt (2) at y 1 and 2,
/// grass (3) at y 3, and air (0) above.
pub open spec fn spec_bottom_block(i: int) -> u16 {
    let y = i / 256;
    if y == 0 { 1 } else if y == 1 || y == 2 { 2 } else if y == 3 { 3 } else { 0 }
}

/// Whether `c` is a container in which every entry is `value`.
pub open spec fn spec_single_valued(c: PalletedContainer, value: i32) -> bool {
    c.deep_view() == (0u8, PaletteModel::<Seq<VarInt>>::SingleValued(VarInt(value)), Seq::<crate::game::world::chunk::PackedEntries>::empty())
}

/// Whether `s` is the bottom section of a superflat chunk with the given block-state ids: 1024
/// solid blocks, a palette of air, bedrock, dirt and grass, entries of 4 bits laid out as
/// [`spec_bottom_block`] says, and plains throughout.
pub open spec fn spec_is_bottom_section(s: ChunkSection, air: i32, bedrock: i32, dirt: i32, grass_block: i32) -> bool {
    &&& s.block_count == 1024
    &&& s.block_states.bits_per_entry == 4
    &&& s.block_states.palette.deep_view() == PaletteModel::Indirect(seq![VarInt(air), VarInt(bedrock), VarInt(dirt), VarInt(grass_block)])
    &&& spec_packs(s.block_states.data.deep_view(), Seq::new(4096, |i: int| spec_bottom_block(i)), 4)
    &&& spec_single_valued(s.biomes, PLAINS_BIOME)
}

/// Whether `s` is an all-air section with the given id for air, in plains.
pub open spec fn spec_is_air_section(s: ChunkSection, air: i32) -> bool {
    &&& s.block_count == 0
    &&& spec_single_valued(s.block_states, air)
    &&& spec_single_valued(s.biomes, PLAINS_BIOME)
}

/// Generate the chunk used for every column of a superflat world with the given block-state
/// ids: the bottom section, then air sections up to [`SECTION_COUNT`], no heightmaps and no
/// block entities, and full sky light.
pub fn superflat_chunk(air: i32, bedrock: i32, dirt: i32, grass_block: i32) -> (r: (ChunkData, LightData))
    ensures
        r.0.heightmaps.vec@.len() == 0,
        r.0.block_entities.vec@.len() == 0,
        r.0.data.data@.len() == SECTION_COUNT,
        spec_is_bottom_section(r.0.data.data@[0], air, bedrock, dirt, grass_block),
        forall|k: int| 1 <= k < SECTION_COUNT ==> spec_is_air_section(#[trigger] r.0.data.data@[k], air),
        spec_is_lit_light_data(r.1),
{
    let mut sections: Vec<ChunkSection> = Vec::new();
    sections.push(bottom_section(air, bedrock, dirt, grass_block));
    let mut k: usize = 1;
    while k < SECTION_COUNT
        invariant
            1 <= k <= SECTION_COUNT,
            sections@.len() == k,
            spec_is_bottom_section(sections@[0], air, bedrock, dirt, grass_block),
            forall|j: int| 1 <= j < k ==> spec_is_air_section(#[trigger] sections@[j], air),
        decreases SECTION_COUNT - k,
    {
        sections.push(air_section(air));
        k = k + 1;
    }
    let data = ChunkData {
        heightmaps: PrefixedArray::new(Vec::new()),
        data: ChunkByteData { data: sections },
        block_entities: PrefixedArray::new(Vec::new()),
    };
    (data, lit_light_data())
}

/// The bottom section, containing the four solid layers, with the given block-state ids.
pub fn bottom_section(air: i32, bedrock: i32, dirt: i32, grass_block: i32) -> (s: ChunkSection)
    ensures
        spec_is_bottom_section(s, air, bedrock, dirt, grass_block),
{
    let palette = vec![VarInt(air), VarInt(bedrock), VarInt(dirt), VarInt(grass_block)];
    let mut indices: Vec<u16> = Vec::new();
    let mut i: usize = 0;
    while i < 4096
        invariant
            i <= 4096,
            indices@ == Seq::new(i as nat, |j: int| spec_bottom_block(j)),
        decreases 4096 - i,
    {
        let y: usize = i / 256;
        let block: u16 = if y == 0 { 1 } else if y == 1 || y == 2 { 2 } else if y == 3 { 3 } else { 0 };
        indices.push(block);
        i = i + 1;
        assert(indices@ =~= Seq::new(i as nat, |j: int| spec_bottom_block(j)));
    }
    assert(palette@.len() == 4);
    assert(spec_bit_length(0) == 0);
    assert(spec_bit_length(1) == 1);
    assert(spec_bit_length(3) == 2);
    assert(palette.deep_view() =~= seq![VarInt(air), VarInt(bedrock), VarInt(dirt), VarInt(grass_block)]);
    let block_states = PalletedContainer::indirect(palette, indices.as_slice(), PaletteFormatType::BLOCKS).unwrap();
    // bedrock + 2 dirt + grass = 4 full layers of 16x16 non-air blocks
    ChunkSection { block_count: 16 * 16 * 4, block_states, biomes: PalletedContainer::single_valued(VarInt(PLAINS_BIOME)) }
}

/// An empty (all-air) section, with the given id for air.
pub fn air_section(air: i32) -> (s: ChunkSection)
    ensures
        spec_is_air_section(s, air),
{
    ChunkSection {
        block_count: 0,
        block_states: PalletedContainer::single_valued(VarInt(air)),
        biomes: PalletedContainer::single_valued(VarInt(PLAINS_BIOME)),
    }
}

/// A set of `LIGHT_SECTION_COUNT` bits, all set.
fn all_sections_mask() -> (b: BitSet)
    ensures
        forall|i: nat| #[trigger] spec_bitset_bit(b.data@, i) == (i < LIGHT_SECTION_COUNT),
{
    let mut mask = BitSet::new(LIGHT_SECTION_COUNT);
    let mut i: usize = 0;
    while i < LIGHT_SECTION_COUNT
        invariant
            i <= LIGHT_SECTION_COUNT,
            forall|j: nat| #[trigger] spec_bitset_bit(mask.data@, j) == (j < i),
        decreases LIGHT_SECTION_COUNT - i,
    {
        mask.set_bit(i, true);
        i = i + 1;
    }
    mask
}

/// The light values of a section lit fully: every value 15, every byte 0xFF.
fn full_light_array() -> (a: LightArray)
    ensures
        a.deep_view() == Seq::new(2048, |i: int| 0xFFu8),
{
    let mut v: Vec<u8> = Vec::new();
    let mut i: usize = 0;
    while i < 2048
        invariant
            i <= 2048,
            v@ == Seq::new(i as nat, |j: int| 0xFFu8),
        decreases 2048 - i,
    {
        v.push(0xFFu8);
        i = i + 1;
    }
    let a = LightArray { data: PrefixedArray::new(v) };
    assert(a.deep_view() =~= Seq::new(2048, |i: int| 0xFFu8));
    a
}

/// Whether `d` is full sky light for every section and no block light: every section has sky
/// light and has no block light, and each sky light array holds 15 everywhere.
pub open spec fn spec_is_lit_light_data(d: LightData) -> bool {
    &&& forall|i: nat| #[trigger] spec_bitset_bit(d.sky_light_mask.data@, i) == (i < LIGHT_SECTION_COUNT)
    &&& forall|i: nat| #[trigger] spec_bitset_bit(d.empty_block_light_mask.data@, i) == (i < LIGHT_SECTION_COUNT)
    &&& forall|i: nat| !#[trigger] spec_bitset_bit(d.block_light_mask.data@, i)
    &&& forall|i: nat| !#[trigger] spec_bitset_bit(d.empty_light_mask.data@, i)
    &&& d.sky_light.vec@.len() == LIGHT_SECTION_COUNT
    &&& forall|k: int| 0 <= k < LIGHT_SECTION_COUNT ==> (#[trigger] d.sky_light.vec@[k]).deep_view() == Seq::new(2048, |i: int| 0xFFu8)
    &&& d.block_light.vec@.len() == 0
}

/// Full sky light for every section (all nibbles 0x0F), no block light: every section has sky
/// light and has no block light, and each sky light array holds 15 everywhere.
pub fn lit_light_data() -> (d: LightData)
    ensures
        spec_is_lit_light_data(d),
{
    let sky_mask = all_sections_mask();
    let empty_block_mask = all_sections_mask();
    let mut sky_light: Vec<LightArray> = Vec::new();
    let mut k: usize = 0;
    while k < LIGHT_SECTION_COUNT
        invariant
            k <= LIGHT_SECTION_COUNT,
            sky_light@.len() == k,
            forall|j: int| 0 <= j < k ==> (#[trigger] sky_light@[j]).deep_view() == Seq::new(2048, |i: int| 0xFFu8),
        decreases LIGHT_SECTION_COUNT - k,
    {
        sky_light.push(full_light_array());
        k = k + 1;
    }
    LightData {
        sky_light_mask: sky_mask,
        block_light_mask: BitSet::new(LIGHT_SECTION_COUNT),
        empty_light_mask: BitSet::new(LIGHT_SECTION_COUNT),
        empty_block_light_mask: empty_block_mask,
        sky_light: PrefixedArray::new(sky_light),
        block_light: PrefixedArray::new(Vec::new()),
    }
}

} // verus!
