//! Advancements.

use crate::protocol::serialization::var_int::{
    lemma_varint_round_trip, read_varint, spec_varint_bytes, spec_varint_parse, write_varint, VarInt,
};
use crate::protocol::serialization::{
    ErrKind, McDeserialize, McDeserializer, McRoundTrip, McSerialize, McSerializer, ParseResult,
    SerializingErr,
};
use vstd::prelude::*;

verus! {

/// The frame drawn around an advancement's icon.
#[derive(Debug, Clone, Copy, PartialEq, Eq, Structural, Hash)]
pub enum AdvancementFrameType {
    Task,
    Challenge,
    Goal,
}

impl AdvancementFrameType {
    /// The number that stands for this value on the wire.
    pub open spec fn spec_code(self) -> int {
        match self {
            AdvancementFrameType::Task => 0,
            AdvancementFrameType::Challenge => 1,
            AdvancementFrameType::Goal => 2,
        }
    }

    /// The value that the number `code` stands for, if any.
    pub open spec fn spec_from_code(code: int) -> Option<AdvancementFrameType> {
        if code == 0 {
            Some(AdvancementFrameType::Task)
        } else if code == 1 {
            Some(AdvancementFrameType::Challenge)
        } else if code == 2 {
            Some(AdvancementFrameType::Goal)
        } else {
            None
        }
    }

    /// The number that stands for this value on the wire.
    pub fn code(&self) -> (c: i32)
        ensures
            c == self.spec_code(),
    {
        match self {
            AdvancementFrameType::Task => 0,
            AdvancementFrameType::Challenge => 1,
            AdvancementFrameType::Goal => 2,
        }
    }

    /// The value that the number `code` stands for, if any.
    pub fn from_code(code: i32) -> (r: Option<AdvancementFrameType>)
        ensures
            r == AdvancementFrameType::spec_from_code(code as int),
    {
        match code {
            0 => Some(AdvancementFrameType::Task),
            1 => Some(AdvancementFrameType::Challenge),
            2 => Some(AdvancementFrameType::Goal),
            _ => None,
        }
    }
}

impl DeepView for AdvancementFrameType {
    type V = AdvancementFrameType;

    open spec fn deep_view(&self) -> AdvancementFrameType {
        *self
    }
}

impl McSerialize for AdvancementFrameType {
    open spec fn spec_serialize(v: AdvancementFrameType) -> Seq<u8> {
        spec_varint_bytes(v.spec_code() as i32)
    }

    open spec fn spec_can_serialize(v: AdvancementFrameType) -> bool {
        true
    }

    fn mc_serialize(&self, serializer: &mut McSerializer) -> (r: Result<(), SerializingErr>) {
        write_varint(&mut serializer.output, self.code());
        Ok(())
    }
}

impl McDeserialize for AdvancementFrameType {
    /// The number, then the value it stands for; an unknown number is refused.
    open spec fn spec_deserialize(s: Seq<u8>) -> ParseResult<AdvancementFrameType> {
        match spec_varint_parse(s) {
            Ok((x, n)) => match AdvancementFrameType::spec_from_code(x.0 as int) {
                Some(v) => Ok((v, n)),
                None => Err(ErrKind::InvalidEnumValue(x.0 as i8)),
            },
            Err(e) => Err(e),
        }
    }

    proof fn lemma_deserialize_len(s: Seq<u8>) {
        VarInt::lemma_deserialize_len(s);
    }

    fn mc_deserialize(deserializer: &mut McDeserializer) -> (r: Result<AdvancementFrameType, SerializingErr>) {
        let code = read_varint(deserializer)?.0;
        match AdvancementFrameType::from_code(code) {
            Some(v) => Ok(v),
            None => Err(SerializingErr::InvalidEnumValue(#[verifier::truncate] (code as i8))),
        }
    }
}

impl McRoundTrip for AdvancementFrameType {
    open spec fn spec_well_formed(v: AdvancementFrameType) -> bool {
        true
    }

    proof fn lemma_round_trip(v: AdvancementFrameType, rest: Seq<u8>) {
        lemma_varint_round_trip(v.spec_code() as i32, rest);
    }
}

} // verus!
