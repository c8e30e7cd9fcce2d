//! World data as it travels in packets: chunk columns, sections and positions.

use crate::protocol::serialization::{
    McDeserialize, McDeserializer, McRoundTrip, McSerialize, McSerializer, ParseResult, SerializingErr,
};
use crate::protocol_types::datatypes::game_types::Position;
use vstd::prelude::*;

pub mod chunk;
pub mod generator;

verus! {

/// The fields of [`BlockPos`] as they are sent, in order.
pub type BlockPosFields = (i32, (i32, i32));

/// The position of a block, one coordinate after another.
#[derive(Debug, Copy, Clone, PartialEq, Eq)]
pub struct BlockPos {
    pub x: i32,
    pub y: i32,
    pub z: i32,
}

impl DeepView for BlockPos {
    type V = <BlockPosFields as DeepView>::V;

    open spec fn deep_view(&self) -> Self::V {
        (self.x.deep_view(), (self.y.deep_view(), self.z.deep_view()))
    }
}

impl McSerialize for BlockPos {
    open spec fn spec_serialize(v: Self::V) -> Seq<u8> {
        BlockPosFields::spec_serialize(v)
    }

    open spec fn spec_can_serialize(v: Self::V) -> bool {
        BlockPosFields::spec_can_serialize(v)
    }

    fn mc_serialize(&self, serializer: &mut McSerializer) -> (r: Result<(), SerializingErr>) {
        let _ = self.x.mc_serialize(serializer);
        let _ = self.y.mc_serialize(serializer);
        let _ = self.z.mc_serialize(serializer);
        assert(serializer.output@ == old(serializer).output@ + Self::spec_serialize(self.deep_view()));
        Ok(())
    }
}

impl McDeserialize for BlockPos {
    open spec fn spec_deserialize(s: Seq<u8>) -> ParseResult<Self::V> {
        BlockPosFields::spec_deserialize(s)
    }

    proof fn lemma_deserialize_len(s: Seq<u8>) {
        BlockPosFields::lemma_deserialize_len(s);
    }

    fn mc_deserialize(deserializer: &mut McDeserializer) -> (r: Result<BlockPos, SerializingErr>) {
        let (x, (y, z)) = BlockPosFields::mc_deserialize(deserializer)?;
        Ok(BlockPos { x, y, z })
    }
}

impl McRoundTrip for BlockPos {
    open spec fn spec_well_formed(v: Self::V) -> bool {
        BlockPosFields::spec_well_formed(v)
    }

    proof fn lemma_round_trip(v: Self::V, rest: Seq<u8>) {
        BlockPosFields::lemma_round_trip(v, rest);
    }
}

/// The fields of [`ChunkPos`] as they are sent, in order.
pub type ChunkPosFields = (i32, i32);

/// The position of a chunk column, in chunks.
#[derive(Debug, Copy, Clone, PartialEq, Eq)]
pub struct ChunkPos {
    pub x: i32,
    pub z: i32,
}

impl DeepView for ChunkPos {
    type V = <ChunkPosFields as DeepView>::V;

    open spec fn deep_view(&self) -> Self::V {
        (self.x.deep_view(), self.z.deep_view())
    }
}

impl McSerialize for ChunkPos {
    open spec fn spec_serialize(v: Self::V) -> Seq<u8> {
        ChunkPosFields::spec_serialize(v)
    }

    open spec fn spec_can_serialize(v: Self::V) -> bool {
        ChunkPosFields::spec_can_serialize(v)
    }

    fn mc_serialize(&self, serializer: &mut McSerializer) -> (r: Result<(), SerializingErr>) {
        let _ = self.x.mc_serialize(serializer);
        let _ = self.z.mc_serialize(serializer);
        assert(serializer.output@ == old(serializer).output@ + Self::spec_serialize(self.deep_view()));
        Ok(())
    }
}

impl McDeserialize for ChunkPos {
    open spec fn spec_deserialize(s: Seq<u8>) -> ParseResult<Self::V> {
        ChunkPosFields::spec_deserialize(s)
    }

    proof fn lemma_deserialize_len(s: Seq<u8>) {
        ChunkPosFields::lemma_deserialize_len(s);
    }

    fn mc_deserialize(deserializer: &mut McDeserializer) -> (r: Result<ChunkPos, SerializingErr>) {
        let (x, z) = ChunkPosFields::mc_deserialize(deserializer)?;
        Ok(ChunkPos { x, z })
    }
}

impl McRoundTrip for ChunkPos {
    open spec fn spec_well_formed(v: Self::V) -> bool {
        ChunkPosFields::spec_well_formed(v)
    }

    proof fn lemma_round_trip(v: Self::V, rest: Seq<u8>) {
        ChunkPosFields::lemma_round_trip(v, rest);
    }
}

impl BlockPos {
    pub fn new(x: i32, y: i32, z: i32) -> (p: Self)
        ensures
            p == (BlockPos { x, y, z }),
    {
        BlockPos { x, y, z }
    }
}

impl ChunkPos {
    pub fn new(x: i32, z: i32) -> (p: Self)
        ensures
            p == (ChunkPos { x, z }),
    {
        ChunkPos { x, z }
    }
}

/// The block at a packed position.
impl From<Position> for BlockPos {
    fn from(pos: Position) -> (p: BlockPos) {
        BlockPos { x: pos.x, y: pos.y, z: pos.z }
    }
}

impl vstd::std_specs::convert::FromSpecImpl<Position> for BlockPos {
    open spec fn obeys_from_spec() -> bool {
        true
    }

    open spec fn from_spec(pos: Position) -> BlockPos {
        BlockPos { x: pos.x, y: pos.y, z: pos.z }
    }
}

/// The chunk column that holds a block: each horizontal coordinate shifted right by 4 bits.
pub open spec fn spec_chunk_of(pos: BlockPos) -> ChunkPos {
    ChunkPos { x: pos.x >> 4u32, z: pos.z >> 4u32 }
}

/// The chunk column that holds a block: each coordinate divided by 16, rounding down.
impl From<BlockPos> for ChunkPos {
    fn from(pos: BlockPos) -> (c: ChunkPos) {
        ChunkPos { x: pos.x >> 4u32, z: pos.z >> 4u32 }
    }
}

impl vstd::std_specs::convert::FromSpecImpl<BlockPos> for ChunkPos {
    open spec fn obeys_from_spec() -> bool {
        true
    }

    open spec fn from_spec(pos: BlockPos) -> ChunkPos {
        spec_chunk_of(pos)
    }
}

/// The chunk column of a block is the one whose 16 by 16 square holds it: its coordinates are
/// those of the block divided by 16, rounding down.
pub proof fn lemma_chunk_of_block(pos: BlockPos)
    ensures
        spec_chunk_of(pos).x as int == (pos.x as int) / 16,
        spec_chunk_of(pos).z as int == (pos.z as int) / 16,
        16 * spec_chunk_of(pos).x <= pos.x < 16 * spec_chunk_of(pos).x + 16,
        16 * spec_chunk_of(pos).z <= pos.z < 16 * spec_chunk_of(pos).z + 16,
{
    let x = pos.x;
    let z = pos.z;
    assert((x >> 4u32) as int == (x as int) / 16 && (z >> 4u32) as int == (z as int) / 16) by (bit_vector);
}

} // verus!
