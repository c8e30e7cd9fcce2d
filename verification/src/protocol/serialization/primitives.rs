//! Fixed-width numbers, sent big-endian, and booleans, sent as one byte.

use crate::protocol::serialization::{
    deserialized, ErrKind, McDeserialize, McDeserializer, McRoundTrip, McSerialize, McSerializer,
    ParseResult, SerializingErr,
};
use vstd::prelude::*;

verus! {

pub open spec fn u16_bytes(x: u16) -> Seq<u8> {
    seq![(x >> 8u16) as u8, x as u8]
}

pub open spec fn u16_from_bytes(s: Seq<u8>) -> u16 {
    (((s[0] as u16) << 8u16) | (s[1] as u16)) as u16
}

pub open spec fn u32_bytes(x: u32) -> Seq<u8> {
    seq![(x >> 24u32) as u8, (x >> 16u32) as u8, (x >> 8u32) as u8, x as u8]
}

pub open spec fn u32_from_bytes(s: Seq<u8>) -> u32 {
    (((s[0] as u32) << 24u32) | ((s[1] as u32) << 16u32) | ((s[2] as u32) << 8u32) | (s[3] as u32)) as u32
}

pub open spec fn u64_bytes(x: u64) -> Seq<u8> {
    seq![
        (x >> 56u64) as u8,
        (x >> 48u64) as u8,
        (x >> 40u64) as u8,
        (x >> 32u64) as u8,
        (x >> 24u64) as u8,
        (x >> 16u64) as u8,
        (x >> 8u64) as u8,
        x as u8,
    ]
}

pub open spec fn u64_from_bytes(s: Seq<u8>) -> u64 {
    (((s[0] as u64) << 56u64) | ((s[1] as u64) << 48u64) | ((s[2] as u64) << 40u64) | ((s[3] as u64) << 32u64)
        | ((s[4] as u64) << 24u64) | ((s[5] as u64) << 16u64) | ((s[6] as u64) << 8u64) | (s[7] as u64)) as u64
}

/// A parse of a fixed number `n` of bytes, converted by `f`.
pub open spec fn fixed_parse<V>(s: Seq<u8>, n: nat, v: V) -> ParseResult<V> {
    if s.len() < n {
        Err(ErrKind::InputEnded)
    } else {
        Ok((v, n))
    }
}

pub proof fn lemma_u16_round_trip(x: u16)
    ensures
        u16_from_bytes(u16_bytes(x)) == x,
{
    let b0 = (x >> 8u16) as u8;
    let b1 = x as u8;
    assert((((b0 as u16) << 8u16) | (b1 as u16)) == x) by (bit_vector)
        requires
            b0 == (x >> 8u16) as u8,
            b1 == x as u8,
    ;
}

pub proof fn lemma_u32_round_trip(x: u32)
    ensures
        u32_from_bytes(u32_bytes(x)) == x,
{
    let b0 = (x >> 24u32) as u8;
    let b1 = (x >> 16u32) as u8;
    let b2 = (x >> 8u32) as u8;
    let b3 = x as u8;
    assert((((b0 as u32) << 24u32) | ((b1 as u32) << 16u32) | ((b2 as u32) << 8u32) | (b3 as u32)) == x) by (bit_vector)
        requires
            b0 == (x >> 24u32) as u8,
            b1 == (x >> 16u32) as u8,
            b2 == (x >> 8u32) as u8,
            b3 == x as u8,
    ;
}

pub proof fn lemma_u64_round_trip(x: u64)
    ensures
        u64_from_bytes(u64_bytes(x)) == x,
{
    let b0 = (x >> 56u64) as u8;
    let b1 = (x >> 48u64) as u8;
    let b2 = (x >> 40u64) as u8;
    let b3 = (x >> 32u64) as u8;
    let b4 = (x >> 24u64) as u8;
    let b5 = (x >> 16u64) as u8;
    let b6 = (x >> 8u64) as u8;
    let b7 = x as u8;
    assert((((b0 as u64) << 56u64) | ((b1 as u64) << 48u64) | ((b2 as u64) << 40u64) | ((b3 as u64) << 32u64)
        | ((b4 as u64) << 24u64) | ((b5 as u64) << 16u64) | ((b6 as u64) << 8u64) | (b7 as u64)) == x) by (bit_vector)
        requires
            b0 == (x >> 56u64) as u8,
            b1 == (x >> 48u64) as u8,
            b2 == (x >> 40u64) as u8,
            b3 == (x >> 32u64) as u8,
            b4 == (x >> 24u64) as u8,
            b5 == (x >> 16u64) as u8,
            b6 == (x >> 8u64) as u8,
            b7 == x as u8,
    ;
}

/// Append the two bytes of `x`, high byte first.
pub fn write_u16(s: &mut McSerializer, x: u16)
    ensures
        final(s).output@ == old(s).output@ + u16_bytes(x),
{
    s.output.push(#[verifier::truncate] ((x >> 8u16) as u8));
    s.output.push(#[verifier::truncate] (x as u8));
    assert(s.output@ == old(s).output@ + u16_bytes(x));
}

/// Append the four bytes of `x`, high byte first.
pub fn write_u32(s: &mut McSerializer, x: u32)
    ensures
        final(s).output@ == old(s).output@ + u32_bytes(x),
{
    s.output.push(#[verifier::truncate] ((x >> 24u32) as u8));
    s.output.push(#[verifier::truncate] ((x >> 16u32) as u8));
    s.output.push(#[verifier::truncate] ((x >> 8u32) as u8));
    s.output.push(#[verifier::truncate] (x as u8));
    assert(s.output@ == old(s).output@ + u32_bytes(x));
}

/// Append the eight bytes of `x`, high byte first.
pub fn write_u64(s: &mut McSerializer, x: u64)
    ensures
        final(s).output@ == old(s).output@ + u64_bytes(x),
{
    s.output.push(#[verifier::truncate] ((x >> 56u64) as u8));
    s.output.push(#[verifier::truncate] ((x >> 48u64) as u8));
    s.output.push(#[verifier::truncate] ((x >> 40u64) as u8));
    s.output.push(#[verifier::truncate] ((x >> 32u64) as u8));
    s.output.push(#[verifier::truncate] ((x >> 24u64) as u8));
    s.output.push(#[verifier::truncate] ((x >> 16u64) as u8));
    s.output.push(#[verifier::truncate] ((x >> 8u64) as u8));
    s.output.push(#[verifier::truncate] (x as u8));
    assert(s.output@ == old(s).output@ + u64_bytes(x));
}

/// Read two bytes, high byte first.
pub fn read_u16(d: &mut McDeserializer) -> (r: Result<u16, SerializingErr>)
    ensures
        final(d).data@ == old(d).data@,
        deserialized(fixed_parse(old(d).remaining(), 2, u16_from_bytes(old(d).remaining())), old(d).index, final(d).index, r),
{
    let b = d.take_bytes(2)?;
    Ok(((b[0] as u16) << 8u16) | (b[1] as u16))
}

/// Read four bytes, high byte first.
pub fn read_u32(d: &mut McDeserializer) -> (r: Result<u32, SerializingErr>)
    ensures
        final(d).data@ == old(d).data@,
        deserialized(fixed_parse(old(d).remaining(), 4, u32_from_bytes(old(d).remaining())), old(d).index, final(d).index, r),
{
    let b = d.take_bytes(4)?;
    Ok(((b[0] as u32) << 24u32) | ((b[1] as u32) << 16u32) | ((b[2] as u32) << 8u32) | (b[3] as u32))
}

/// Read eight bytes, high byte first.
pub fn read_u64(d: &mut McDeserializer) -> (r: Result<u64, SerializingErr>)
    ensures
        final(d).data@ == old(d).data@,
        deserialized(fixed_parse(old(d).remaining(), 8, u64_from_bytes(old(d).remaining())), old(d).index, final(d).index, r),
{
    let b = d.take_bytes(8)?;
    Ok(((b[0] as u64) << 56u64) | ((b[1] as u64) << 48u64) | ((b[2] as u64) << 40u64) | ((b[3] as u64) << 32u64)
        | ((b[4] as u64) << 24u64) | ((b[5] as u64) << 16u64) | ((b[6] as u64) << 8u64) | (b[7] as u64))
}

impl McSerialize for u8 {
    open spec fn spec_serialize(v: u8) -> Seq<u8> {
        seq![v]
    }

    open spec fn spec_can_serialize(v: u8) -> bool {
        true
    }

    fn mc_serialize(&self, serializer: &mut McSerializer) -> (r: Result<(), SerializingErr>) {
        serializer.output.push(*self);
        Ok(())
    }
}

impl McDeserialize for u8 {
    open spec fn spec_deserialize(s: Seq<u8>) -> ParseResult<u8> {
        fixed_parse(s, 1, s[0])
    }

    proof fn lemma_deserialize_len(s: Seq<u8>) {
    }

    fn mc_deserialize(deserializer: &mut McDeserializer) -> (r: Result<u8, SerializingErr>) {
        deserializer.pop_u8()
    }
}

impl McRoundTrip for u8 {
    open spec fn spec_well_formed(v: u8) -> bool {
        true
    }

    proof fn lemma_round_trip(v: u8, rest: Seq<u8>) {
        assert((seq![v] + rest)[0] == v);
    }
}

impl McSerialize for i8 {
    open spec fn spec_serialize(v: i8) -> Seq<u8> {
        seq![v as u8]
    }

    open spec fn spec_can_serialize(v: i8) -> bool {
        true
    }

    fn mc_serialize(&self, serializer: &mut McSerializer) -> (r: Result<(), SerializingErr>) {
        serializer.output.push(#[verifier::truncate] (*self as u8));
        Ok(())
    }
}

impl McDeserialize for i8 {
    open spec fn spec_deserialize(s: Seq<u8>) -> ParseResult<i8> {
        fixed_parse(s, 1, s[0] as i8)
    }

    proof fn lemma_deserialize_len(s: Seq<u8>) {
    }

    fn mc_deserialize(deserializer: &mut McDeserializer) -> (r: Result<i8, SerializingErr>) {
        let b = deserializer.pop_u8()?;
        Ok(#[verifier::truncate] (b as i8))
    }
}

impl McRoundTrip for i8 {
    open spec fn spec_well_formed(v: i8) -> bool {
        true
    }

    proof fn lemma_round_trip(v: i8, rest: Seq<u8>) {
        assert((seq![v as u8] + rest)[0] == v as u8);
        assert((v as u8) as i8 == v) by (bit_vector);
    }
}

impl McSerialize for bool {
    open spec fn spec_serialize(v: bool) -> Seq<u8> {
        seq![if v { 1u8 } else { 0u8 }]
    }

    open spec fn spec_can_serialize(v: bool) -> bool {
        true
    }

    fn mc_serialize(&self, serializer: &mut McSerializer) -> (r: Result<(), SerializingErr>) {
        serializer.output.push(if *self { 1u8 } else { 0u8 });
        Ok(())
    }
}

impl McDeserialize for bool {
    /// Any byte other than zero reads as `true`.
    open spec fn spec_deserialize(s: Seq<u8>) -> ParseResult<bool> {
        fixed_parse(s, 1, s[0] != 0)
    }

    proof fn lemma_deserialize_len(s: Seq<u8>) {
    }

    fn mc_deserialize(deserializer: &mut McDeserializer) -> (r: Result<bool, SerializingErr>) {
        let b = deserializer.pop_u8()?;
        Ok(b != 0)
    }
}

impl McRoundTrip for bool {
    open spec fn spec_well_formed(v: bool) -> bool {
        true
    }

    proof fn lemma_round_trip(v: bool, rest: Seq<u8>) {
        assert((seq![if v { 1u8 } else { 0u8 }] + rest)[0] == if v { 1u8 } else { 0u8 });
    }
}

impl McSerialize for u16 {
    open spec fn spec_serialize(v: u16) -> Seq<u8> {
        u16_bytes(v)
    }

    open spec fn spec_can_serialize(v: u16) -> bool {
        true
    }

    fn mc_serialize(&self, serializer: &mut McSerializer) -> (r: Result<(), SerializingErr>) {
        write_u16(serializer, *self);
        assert(self.deep_view() == *self);
        Ok(())
    }
}

impl McDeserialize for u16 {
    open spec fn spec_deserialize(s: Seq<u8>) -> ParseResult<u16> {
        fixed_parse(s, 2, u16_from_bytes(s))
    }

    proof fn lemma_deserialize_len(s: Seq<u8>) {
    }

    fn mc_deserialize(deserializer: &mut McDeserializer) -> (r: Result<u16, SerializingErr>) {
        read_u16(deserializer)
    }
}

impl McRoundTrip for u16 {
    open spec fn spec_well_formed(v: u16) -> bool {
        true
    }

    proof fn lemma_round_trip(v: u16, rest: Seq<u8>) {
        lemma_u16_round_trip(v);
        let s = u16_bytes(v) + rest;
        assert(u16_from_bytes(s) == u16_from_bytes(u16_bytes(v)));
    }
}

impl McSerialize for i16 {
    open spec fn spec_serialize(v: i16) -> Seq<u8> {
        u16_bytes(v as u16)
    }

    open spec fn spec_can_serialize(v: i16) -> bool {
        true
    }

    fn mc_serialize(&self, serializer: &mut McSerializer) -> (r: Result<(), SerializingErr>) {
        let x: u16 = #[verifier::truncate] (*self as u16);
        write_u16(serializer, x);
        assert(self.deep_view() == *self);
        assert(Self::spec_serialize(self.deep_view()) == u16_bytes(x));
        Ok(())
    }
}

impl McDeserialize for i16 {
    open spec fn spec_deserialize(s: Seq<u8>) -> ParseResult<i16> {
        fixed_parse(s, 2, u16_from_bytes(s) as i16)
    }

    proof fn lemma_deserialize_len(s: Seq<u8>) {
    }

    fn mc_deserialize(deserializer: &mut McDeserializer) -> (r: Result<i16, SerializingErr>) {
        let x = read_u16(deserializer)?;
        Ok(#[verifier::truncate] (x as i16))
    }
}

impl McRoundTrip for i16 {
    open spec fn spec_well_formed(v: i16) -> bool {
        true
    }

    proof fn lemma_round_trip(v: i16, rest: Seq<u8>) {
        lemma_u16_round_trip(v as u16);
        let s = u16_bytes(v as u16) + rest;
        assert(u16_from_bytes(s) == u16_from_bytes(u16_bytes(v as u16)));
        assert((v as u16) as i16 == v) by (bit_vector);
    }
}

impl McSerialize for u32 {
    open spec fn spec_serialize(v: u32) -> Seq<u8> {
        u32_bytes(v)
    }

    open spec fn spec_can_serialize(v: u32) -> bool {
        true
    }

    fn mc_serialize(&self, serializer: &mut McSerializer) -> (r: Result<(), SerializingErr>) {
        write_u32(serializer, *self);
        assert(self.deep_view() == *self);
        Ok(())
    }
}

impl McDeserialize for u32 {
    open spec fn spec_deserialize(s: Seq<u8>) -> ParseResult<u32> {
        fixed_parse(s, 4, u32_from_bytes(s))
    }

    proof fn lemma_deserialize_len(s: Seq<u8>) {
    }

    fn mc_deserialize(deserializer: &mut McDeserializer) -> (r: Result<u32, SerializingErr>) {
        read_u32(deserializer)
    }
}

impl McRoundTrip for u32 {
    open spec fn spec_well_formed(v: u32) -> bool {
        true
    }

    proof fn lemma_round_trip(v: u32, rest: Seq<u8>) {
        lemma_u32_round_trip(v);
        let s = u32_bytes(v) + rest;
        assert(u32_from_bytes(s) == u32_from_bytes(u32_bytes(v)));
    }
}

impl McSerialize for i32 {
    open spec fn spec_serialize(v: i32) -> Seq<u8> {
        u32_bytes(v as u32)
    }

    open spec fn spec_can_serialize(v: i32) -> bool {
        true
    }

    fn mc_serialize(&self, serializer: &mut McSerializer) -> (r: Result<(), SerializingErr>) {
        let x: u32 = #[verifier::truncate] (*self as u32);
        write_u32(serializer, x);
        assert(self.deep_view() == *self);
        assert(Self::spec_serialize(self.deep_view()) == u32_bytes(x));
        Ok(())
    }
}

impl McDeserialize for i32 {
    open spec fn spec_deserialize(s: Seq<u8>) -> ParseResult<i32> {
        fixed_parse(s, 4, u32_from_bytes(s) as i32)
    }

    proof fn lemma_deserialize_len(s: Seq<u8>) {
    }

    fn mc_deserialize(deserializer: &mut McDeserializer) -> (r: Result<i32, SerializingErr>) {
        let x = read_u32(deserializer)?;
        Ok(#[verifier::truncate] (x as i32))
    }
}

impl McRoundTrip for i32 {
    open spec fn spec_well_formed(v: i32) -> bool {
        true
    }

    proof fn lemma_round_trip(v: i32, rest: Seq<u8>) {
        lemma_u32_round_trip(v as u32);
        let s = u32_bytes(v as u32) + rest;
        assert(u32_from_bytes(s) == u32_from_bytes(u32_bytes(v as u32)));
        assert((v as u32) as i32 == v) by (bit_vector);
    }
}

impl McSerialize for u64 {
    open spec fn spec_serialize(v: u64) -> Seq<u8> {
        u64_bytes(v)
    }

    open spec fn spec_can_serialize(v: u64) -> bool {
        true
    }

    fn mc_serialize(&self, serializer: &mut McSerializer) -> (r: Result<(), SerializingErr>) {
        write_u64(serializer, *self);
        assert(self.deep_view() == *self);
        assert(Self::spec_serialize(self.deep_view()) == u64_bytes(*self));
        Ok(())
    }
}

impl McDeserialize for u64 {
    open spec fn spec_deserialize(s: Seq<u8>) -> ParseResult<u64> {
        fixed_parse(s, 8, u64_from_bytes(s))
    }

    proof fn lemma_deserialize_len(s: Seq<u8>) {
    }

    fn mc_deserialize(deserializer: &mut McDeserializer) -> (r: Result<u64, SerializingErr>) {
        let ghost s = deserializer.remaining();
        let r = read_u64(deserializer);
        assert(Self::spec_deserialize(s) == fixed_parse(s, 8, u64_from_bytes(s)));
        r
    }
}

impl McRoundTrip for u64 {
    open spec fn spec_well_formed(v: u64) -> bool {
        true
    }

    proof fn lemma_round_trip(v: u64, rest: Seq<u8>) {
        lemma_u64_round_trip(v);
        let s = u64_bytes(v) + rest;
        assert(u64_from_bytes(s) == u64_from_bytes(u64_bytes(v)));
    }
}

impl McSerialize for i64 {
    open spec fn spec_serialize(v: i64) -> Seq<u8> {
        u64_bytes(v as u64)
    }

    open spec fn spec_can_serialize(v: i64) -> bool {
        true
    }

    fn mc_serialize(&self, serializer: &mut McSerializer) -> (r: Result<(), SerializingErr>) {
        let x: u64 = #[verifier::truncate] (*self as u64);
        write_u64(serializer, x);
        assert(self.deep_view() == *self);
        assert(Self::spec_serialize(self.deep_view()) == u64_bytes(x));
        Ok(())
    }
}

impl McDeserialize for i64 {
    open spec fn spec_deserialize(s: Seq<u8>) -> ParseResult<i64> {
        fixed_parse(s, 8, u64_from_bytes(s) as i64)
    }

    proof fn lemma_deserialize_len(s: Seq<u8>) {
    }

    fn mc_deserialize(deserializer: &mut McDeserializer) -> (r: Result<i64, SerializingErr>) {
        let x = read_u64(deserializer)?;
        Ok(#[verifier::truncate] (x as i64))
    }
}

impl McRoundTrip for i64 {
    open spec fn spec_well_formed(v: i64) -> bool {
        true
    }

    proof fn lemma_round_trip(v: i64, rest: Seq<u8>) {
        lemma_u64_round_trip(v as u64);
        let s = u64_bytes(v as u64) + rest;
        assert(u64_from_bytes(s) == u64_from_bytes(u64_bytes(v as u64)));
        assert((v as u64) as i64 == v) by (bit_vector);
    }
}

} // verus!
