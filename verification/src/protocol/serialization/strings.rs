//! Strings: the length of their UTF-8 bytes as a variable-length integer, then the bytes.

use crate::protocol::serialization::var_int::{
    lemma_varint_round_trip, read_varint, spec_varint_bytes, spec_varint_parse, write_varint,
    VarInt, lemma_varint_decode_len,
};
use crate::protocol::serialization::{
    deserialized, ErrKind, McDeserialize, McDeserializer, McRoundTrip, McSerialize, McSerializer,
    ParseResult, SerializingErr,
};
use vstd::prelude::*;
use vstd::utf8::*;

verus! {

broadcast use {encode_utf8_valid_utf8, encode_utf8_decode_utf8};

/// Calls `std::str::from_utf8`. Claims what its documentation says: it succeeds exactly on
/// valid UTF-8, and the string it gives is made of the characters those bytes encode.
#[verifier::external_body]
pub(crate) fn str_from_utf8(bytes: &[u8]) -> (r: Option<&str>)
    ensures
        r is Some <==> valid_utf8(bytes@),
        r matches Some(s) ==> s@ == decode_utf8(bytes@),
{
    std::str::from_utf8(bytes).ok()
}

/// The bytes of the string with characters `v`.
pub open spec fn spec_string_bytes(v: Seq<char>) -> Seq<u8> {
    spec_varint_bytes(encode_utf8(v).len() as i32) + encode_utf8(v)
}

/// The parse of a string at the start of `s`.
pub open spec fn spec_string_parse(s: Seq<u8>) -> ParseResult<Seq<char>> {
    match spec_varint_parse(s) {
        Err(k) => Err(k),
        Ok((len, n)) => if len.0 < 0 {
            Err(ErrKind::OutOfBounds)
        } else if s.len() < n + len.0 {
            Err(ErrKind::InputEnded)
        } else if !valid_utf8(s.subrange(n as int, n + len.0)) {
            Err(ErrKind::CouldNotDeserializeString)
        } else {
            Ok((decode_utf8(s.subrange(n as int, n + len.0)), n + len.0 as nat))
        },
    }
}

impl McSerialize for String {
    open spec fn spec_serialize(v: Seq<char>) -> Seq<u8> {
        spec_string_bytes(v)
    }

    open spec fn spec_can_serialize(v: Seq<char>) -> bool {
        encode_utf8(v).len() <= i32::MAX
    }

    fn mc_serialize(&self, serializer: &mut McSerializer) -> (r: Result<(), SerializingErr>) {
        let bytes = self.as_str().as_bytes();
        let len: usize = bytes.len();
        write_varint(&mut serializer.output, len as i32);
        serializer.serialize_bytes(bytes);
        Ok(())
    }
}

impl McDeserialize for String {
    open spec fn spec_deserialize(s: Seq<u8>) -> ParseResult<Seq<char>> {
        spec_string_parse(s)
    }

    proof fn lemma_deserialize_len(s: Seq<u8>) {
        lemma_varint_decode_len(s, 5);
    }

    fn mc_deserialize(deserializer: &mut McDeserializer) -> (r: Result<String, SerializingErr>) {
        let ghost s = deserializer.remaining();
        proof {
            lemma_varint_decode_len(s, 5);
        }
        let len = read_varint(deserializer)?;
        if len.0 < 0 {
            return Err(SerializingErr::OutOfBounds("a string may not have a negative length".to_string()));
        }
        let ghost n = (deserializer.index - old(deserializer).index) as nat;
        assert(deserializer.remaining() == s.skip(n as int));
        let bytes = deserializer.take_bytes(len.0 as usize)?;
        assert(bytes@ == s.subrange(n as int, n + len.0));
        match str_from_utf8(bytes) {
            Some(text) => Ok(text.to_owned()),
            None => Err(SerializingErr::CouldNotDeserializeString),
        }
    }
}

impl McRoundTrip for String {
    open spec fn spec_well_formed(v: Seq<char>) -> bool {
        true
    }

    proof fn lemma_round_trip(v: Seq<char>, rest: Seq<u8>) {
        let b = encode_utf8(v);
        let len = b.len() as i32;
        let s = spec_string_bytes(v) + rest;
        lemma_varint_round_trip(len, b + rest);
        assert(s == spec_varint_bytes(len) + (b + rest));
        let n = spec_varint_bytes(len).len();
        assert(s.subrange(n as int, (n + b.len()) as int) == b);
    }
}

} // verus!
