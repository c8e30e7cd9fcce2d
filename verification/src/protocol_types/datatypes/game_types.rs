//! Game data types with packed wire formats.

use crate::protocol::serialization::primitives::{u64_bytes, u64_from_bytes, fixed_parse};
use crate::protocol::serialization::{
    McDeserialize, McDeserializer, McRoundTrip, McSerialize, McSerializer, ParseResult,
    SerializingErr,
};
use vstd::prelude::*;

verus! {

/// A block position, sent packed into one 64-bit integer: x in the top 26 bits, z in the next
/// 26, y in the low 12, each as two's complement.
///
/// https://minecraft.wiki/w/Java_Edition_protocol/Data_types#Position
#[derive(Debug, Clone, Copy, PartialEq, Eq, Structural, Hash)]
pub struct Position {
    pub x: i32,
    pub y: i32,
    pub z: i32,
}

impl DeepView for Position {
    type V = Position;

    open spec fn deep_view(&self) -> Position {
        *self
    }
}

/// The packed 64 bits of a position; only the low 26, 26 and 12 bits of the coordinates are
/// kept.
pub open spec fn spec_pack_position(p: Position) -> u64 {
    ((((p.x as i64) & 0x3FFFFFFi64) << 38u64) | (((p.z as i64) & 0x3FFFFFFi64) << 12u64) | ((p.y as i64) & 0xFFFi64)) as u64
}

/// The position that packed bits stand for, each coordinate sign-extended from its width.
pub open spec fn spec_unpack_position(v: u64) -> Position {
    Position {
        x: ((v as i64) >> 38u64) as i32,
        y: (((v as i64) << 52u64) >> 52u64) as i32,
        z: (((v as i64) << 26u64) >> 38u64) as i32,
    }
}

/// Whether each coordinate fits its packed width: x and z in 26 bits, y in 12.
pub open spec fn spec_position_fits(p: Position) -> bool {
    -0x2000000 <= p.x < 0x2000000 && -0x2000000 <= p.z < 0x2000000 && -0x800 <= p.y < 0x800
}

impl Position {
    pub fn new(x: i32, y: i32, z: i32) -> (p: Self)
        ensures
            p == (Position { x, y, z }),
    {
        Position { x, y, z }
    }

    /// The packed 64 bits of this position.
    pub fn pack(&self) -> (v: u64)
        ensures
            v == spec_pack_position(*self),
    {
        (((((self.x as i64) & 0x3FFFFFF) << 38u64) | (((self.z as i64) & 0x3FFFFFF) << 12u64) | ((self.y as i64) & 0xFFF))) as u64
    }

    /// The position that packed bits stand for.
    pub fn unpack(v: u64) -> (p: Self)
        ensures
            p == spec_unpack_position(v),
    {
        let s: i64 = v as i64;
        Position {
            x: (s >> 38u64) as i32,
            y: ((s << 52u64) >> 52u64) as i32,
            z: ((s << 26u64) >> 38u64) as i32,
        }
    }
}

/// A position whose coordinates fit their widths unpacks to itself.
pub proof fn lemma_position_pack_unpack(p: Position)
    requires
        spec_position_fits(p),
    ensures
        spec_unpack_position(spec_pack_position(p)) == p,
{
    let x = p.x;
    let y = p.y;
    let z = p.z;
    let s: i64 = spec_pack_position(p) as i64;
    assert((s >> 38u64) as i32 == x && ((s << 52u64) >> 52u64) as i32 == y && ((s << 26u64) >> 38u64) as i32 == z) by (bit_vector)
        requires
            s == ((((((x as i64) & 0x3FFFFFFi64) << 38u64) | (((z as i64) & 0x3FFFFFFi64) << 12u64) | ((y as i64) & 0xFFFi64)) as u64) as i64),
            -0x2000000 <= x < 0x2000000,
            -0x2000000 <= z < 0x2000000,
            -0x800 <= y < 0x800,
    ;
}

impl McSerialize for Position {
    open spec fn spec_serialize(v: Position) -> Seq<u8> {
        u64_bytes(spec_pack_position(v))
    }

    open spec fn spec_can_serialize(v: Position) -> bool {
        true
    }

    fn mc_serialize(&self, serializer: &mut McSerializer) -> (r: Result<(), SerializingErr>) {
        let _ = self.pack().mc_serialize(serializer);
        Ok(())
    }
}

impl McDeserialize for Position {
    open spec fn spec_deserialize(s: Seq<u8>) -> ParseResult<Position> {
        fixed_parse(s, 8, spec_unpack_position(u64_from_bytes(s)))
    }

    proof fn lemma_deserialize_len(s: Seq<u8>) {
    }

    fn mc_deserialize(deserializer: &mut McDeserializer) -> (r: Result<Position, SerializingErr>) {
        let v = u64::mc_deserialize(deserializer)?;
        Ok(Position::unpack(v))
    }
}

impl McRoundTrip for Position {
    /// The coordinates fit their packed widths.
    open spec fn spec_well_formed(v: Position) -> bool {
        spec_position_fits(v)
    }

    proof fn lemma_round_trip(v: Position, rest: Seq<u8>) {
        u64::lemma_round_trip(spec_pack_position(v), rest);
        lemma_position_pack_unpack(v);
    }
}

} // verus!
