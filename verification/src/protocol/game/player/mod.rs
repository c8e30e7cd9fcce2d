//! Player data as it travels in packets.

use crate::protocol::serialization::var_int::{
    lemma_varint_round_trip, read_varint, spec_varint_bytes, spec_varint_parse, write_varint, VarInt,
};
use crate::protocol::serialization::{
    ErrKind, McDeserialize, McDeserializer, McRoundTrip, McSerialize, McSerializer, ParseResult,
    SerializingErr,
};
use vstd::prelude::*;

pub mod inventory;
pub mod interface;

verus! {

/// What the client asks for in the Client Status packet, sent as a variable-length integer.
#[derive(Debug, Clone, Copy, PartialEq, Eq, Structural, Hash)]
pub enum ClientStatusAction {
    PerformRespawn,
    RequestStats,
}

impl ClientStatusAction {
    /// The number that stands for this value on the wire.
    pub open spec fn spec_code(self) -> int {
        match self {
            ClientStatusAction::PerformRespawn => 0,
            ClientStatusAction::RequestStats => 1,
        }
    }

    /// The value that the number `code` stands for, if any.
    pub open spec fn spec_from_code(code: int) -> Option<ClientStatusAction> {
        if code == 0 {
            Some(ClientStatusAction::PerformRespawn)
        } else if code == 1 {
            Some(ClientStatusAction::RequestStats)
        } else {
            None
        }
    }

    /// The number that stands for this value on the wire.
    pub fn code(&self) -> (c: i32)
        ensures
            c == self.spec_code(),
    {
        match self {
            ClientStatusAction::PerformRespawn => 0,
            ClientStatusAction::RequestStats => 1,
        }
    }

    /// The value that the number `code` stands for, if any.
    pub fn from_code(code: i32) -> (r: Option<ClientStatusAction>)
        ensures
            r == ClientStatusAction::spec_from_code(code as int),
    {
        match code {
            0 => Some(ClientStatusAction::PerformRespawn),
            1 => Some(ClientStatusAction::RequestStats),
            _ => None,
        }
    }
}

impl DeepView for ClientStatusAction {
    type V = ClientStatusAction;

    open spec fn deep_view(&self) -> ClientStatusAction {
        *self
    }
}

impl McSerialize for ClientStatusAction {
    open spec fn spec_serialize(v: ClientStatusAction) -> Seq<u8> {
        spec_varint_bytes(v.spec_code() as i32)
    }

    open spec fn spec_can_serialize(v: ClientStatusAction) -> bool {
        true
    }

    fn mc_serialize(&self, serializer: &mut McSerializer) -> (r: Result<(), SerializingErr>) {
        write_varint(&mut serializer.output, self.code());
        Ok(())
    }
}

impl McDeserialize for ClientStatusAction {
    /// The number, then the value it stands for; an unknown number is refused.
    open spec fn spec_deserialize(s: Seq<u8>) -> ParseResult<ClientStatusAction> {
        match spec_varint_parse(s) {
            Ok((x, n)) => match ClientStatusAction::spec_from_code(x.0 as int) {
                Some(v) => Ok((v, n)),
                None => Err(ErrKind::InvalidEnumValue(x.0 as i8)),
            },
            Err(e) => Err(e),
        }
    }

    proof fn lemma_deserialize_len(s: Seq<u8>) {
        VarInt::lemma_deserialize_len(s);
    }

    fn mc_deserialize(deserializer: &mut McDeserializer) -> (r: Result<ClientStatusAction, SerializingErr>) {
        let code = read_varint(deserializer)?.0;
        match ClientStatusAction::from_code(code) {
            Some(v) => Ok(v),
            None => Err(SerializingErr::InvalidEnumValue(#[verifier::truncate] (code as i8))),
        }
    }
}

impl McRoundTrip for ClientStatusAction {
    open spec fn spec_well_formed(v: ClientStatusAction) -> bool {
        true
    }

    proof fn lemma_round_trip(v: ClientStatusAction, rest: Seq<u8>) {
        lemma_varint_round_trip(v.spec_code() as i32, rest);
    }
}

/// Data kept after a respawn, sent as one byte of flags: bit 0 keeps the attributes, bit 1 the
/// metadata.
///
/// [Doc link](https://minecraft.wiki/w/Java_Edition_protocol/Packets#Respawn)
#[derive(Debug, Clone, Copy, PartialEq, Eq, Structural, Hash)]
pub struct RespawnKeptData {
    pub keep_attributes: bool,
    pub keep_metadata: bool,
}

impl DeepView for RespawnKeptData {
    type V = RespawnKeptData;

    open spec fn deep_view(&self) -> RespawnKeptData {
        *self
    }
}

/// The flags byte of kept respawn data.
pub open spec fn spec_respawn_flags(v: RespawnKeptData) -> u8 {
    ((if v.keep_attributes { 1u8 } else { 0u8 }) | (if v.keep_metadata { 2u8 } else { 0u8 })) as u8
}

impl McSerialize for RespawnKeptData {
    open spec fn spec_serialize(v: RespawnKeptData) -> Seq<u8> {
        seq![spec_respawn_flags(v)]
    }

    open spec fn spec_can_serialize(v: RespawnKeptData) -> bool {
        true
    }

    fn mc_serialize(&self, serializer: &mut McSerializer) -> (r: Result<(), SerializingErr>) {
        let a: u8 = if self.keep_attributes { 1u8 } else { 0u8 };
        let m: u8 = if self.keep_metadata { 1u8 } else { 0u8 };
        let flags: u8 = 0u8 | a | (m << 1u8);
        assert(flags == ((a | (if m == 1u8 { 2u8 } else { 0u8 })) as u8)) by (bit_vector)
            requires
                flags == 0u8 | a | (m << 1u8),
                a == 0u8 || a == 1u8,
                m == 0u8 || m == 1u8,
        ;
        serializer.serialize_u8(flags);
        Ok(())
    }
}

impl McDeserialize for RespawnKeptData {
    /// Any byte is read: bit 0 and bit 1 give the two flags, the other bits are ignored.
    open spec fn spec_deserialize(s: Seq<u8>) -> ParseResult<RespawnKeptData> {
        if s.len() == 0 {
            Err(ErrKind::InputEnded)
        } else {
            Ok((RespawnKeptData { keep_attributes: s[0] & 1u8 != 0, keep_metadata: s[0] & 2u8 != 0 }, 1nat))
        }
    }

    proof fn lemma_deserialize_len(s: Seq<u8>) {
    }

    fn mc_deserialize(deserializer: &mut McDeserializer) -> (r: Result<RespawnKeptData, SerializingErr>) {
        let flags = deserializer.pop_u8()?;
        Ok(RespawnKeptData { keep_attributes: (flags & 1) != 0, keep_metadata: (flags & 2) != 0 })
    }
}

impl McRoundTrip for RespawnKeptData {
    open spec fn spec_well_formed(v: RespawnKeptData) -> bool {
        true
    }

    proof fn lemma_round_trip(v: RespawnKeptData, rest: Seq<u8>) {
        let a: u8 = if v.keep_attributes { 1u8 } else { 0u8 };
        let m: u8 = if v.keep_metadata { 2u8 } else { 0u8 };
        let f = spec_respawn_flags(v);
        assert(f == (a | m) as u8);
        assert((f & 1u8 != 0) == (a == 1u8) && (f & 2u8 != 0) == (m == 2u8)) by (bit_vector)
            requires
                f == (a | m) as u8,
                a == 0u8 || a == 1u8,
                m == 0u8 || m == 2u8,
        ;
        assert((seq![f] + rest)[0] == f);
    }
}

} // verus!
