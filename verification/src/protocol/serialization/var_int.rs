//! The variable-length integer of the protocol: seven bits per byte, least significant group
//! first, the high bit of each byte set while more bytes follow. At most five bytes.

use crate::protocol::serialization::{
    deserialized, ErrKind, McDeserialize, McDeserializer, McRoundTrip, McSerialize, McSerializer,
    ParseResult, SerializingErr,
};
use vstd::prelude::*;

verus! {

/// A 32-bit signed integer sent as a variable-length integer.
#[derive(Debug, Clone, Copy, PartialEq, Eq, Hash)]
pub struct VarInt(pub i32);

impl DeepView for VarInt {
    type V = VarInt;

    open spec fn deep_view(&self) -> VarInt {
        *self
    }
}

impl From<i32> for VarInt {
    fn from(v: i32) -> (r: VarInt) {
        VarInt(v)
    }
}

impl vstd::std_specs::convert::FromSpecImpl<i32> for VarInt {
    open spec fn obeys_from_spec() -> bool {
        true
    }

    open spec fn from_spec(v: i32) -> VarInt {
        VarInt(v)
    }
}

/// The bytes for the non-negative number `x`, seven bits at a time.
pub open spec fn varint_encode_nat(x: nat) -> Seq<u8>
    decreases x,
{
    if x < 128 {
        seq![x as u8]
    } else {
        seq![(x % 128 + 128) as u8] + varint_encode_nat(x / 128)
    }
}

/// The bytes for `v`: its two's complement bits read as an unsigned number.
pub open spec fn spec_varint_bytes(v: i32) -> Seq<u8> {
    varint_encode_nat((v as u32) as nat)
}

/// The number that at most `fuel` leading bytes of `s` stand for, and how many bytes that took;
/// `None` if no terminating byte is met within `fuel` bytes.
pub open spec fn varint_decode_fuel(s: Seq<u8>, fuel: nat) -> Option<(int, nat)>
    decreases fuel,
{
    if fuel == 0 || s.len() == 0 {
        None
    } else if s[0] < 128 {
        Some((s[0] as int, 1nat))
    } else {
        match varint_decode_fuel(s.drop_first(), (fuel - 1) as nat) {
            Some((v, n)) => Some(((s[0] % 128) as int + 128 * v, n + 1)),
            None => None,
        }
    }
}

/// The first five bytes are all there and all say that more follow.
pub open spec fn varint_runs_too_long(s: Seq<u8>) -> bool {
    s.len() >= 5 && forall|i: int| 0 <= i < 5 ==> s[i] >= 128
}

/// The low 32 bits of `v`, read as a signed number.
pub open spec fn varint_wrap(v: int) -> i32 {
    ((v % 0x1_0000_0000) as u32) as i32
}

/// The parse of a variable-length integer at the start of `s`.
pub open spec fn spec_varint_parse(s: Seq<u8>) -> ParseResult<VarInt> {
    match varint_decode_fuel(s, 5) {
        Some((v, n)) => Ok((VarInt(varint_wrap(v)), n)),
        None => if varint_runs_too_long(s) {
            Err(ErrKind::VarTypeTooLong)
        } else {
            Err(ErrKind::InvalidEndOfVarInt)
        },
    }
}

/// A decode of the bytes after the first `i`, seen from the start: `acc` is what the first `i`
/// bytes contributed and `mult` the weight of the next one.
pub open spec fn varint_shift(o: Option<(int, nat)>, acc: int, mult: int, i: nat) -> Option<(int, nat)> {
    match o {
        Some((v, n)) => Some((acc + mult * v, n + i)),
        None => None,
    }
}

pub open spec fn pow128(i: nat) -> int
    decreases i,
{
    if i == 0 {
        1
    } else {
        128 * pow128((i - 1) as nat)
    }
}

proof fn lemma_pow128_bounds(i: nat)
    requires
        i <= 5,
    ensures
        1 <= pow128(i) <= 34359738368,
        i <= 4 ==> pow128(i) <= 268435456,
{
    reveal_with_fuel(pow128, 6);
}

/// A decode never reports more bytes than it was given, nor more than its fuel.
pub proof fn lemma_varint_decode_len(s: Seq<u8>, fuel: nat)
    ensures
        varint_decode_fuel(s, fuel) matches Some((v, n)) ==> 1 <= n <= s.len() && n <= fuel && 0 <= v,
    decreases fuel,
{
    if fuel > 0 && s.len() > 0 && s[0] >= 128 {
        lemma_varint_decode_len(s.drop_first(), (fuel - 1) as nat);
    }
}

/// Decoding the encoding of `x`, followed by anything, gives `x` back.
pub proof fn lemma_varint_nat_round_trip(x: nat, fuel: nat, rest: Seq<u8>)
    requires
        fuel >= 1,
        x < pow128(fuel),
    ensures
        varint_decode_fuel(varint_encode_nat(x) + rest, fuel) == Some((x as int, varint_encode_nat(x).len())),
        varint_encode_nat(x).len() <= fuel,
    decreases x,
{
    let s = varint_encode_nat(x) + rest;
    if x < 128 {
        assert(s[0] == x as u8);
    } else {
        let f1 = (fuel - 1) as nat;
        if fuel == 1 {
            assert(pow128(1) == 128) by {
                reveal_with_fuel(pow128, 2);
            }
            assert(false);
        }
        assert(x / 128 < pow128(f1)) by (nonlinear_arith)
            requires
                x < pow128(fuel),
                pow128(fuel) == 128 * pow128(f1),
                x >= 128,
        ;
        lemma_varint_nat_round_trip(x / 128, f1, rest);
        assert(s[0] == (x % 128 + 128) as u8);
        assert(s.drop_first() == varint_encode_nat(x / 128) + rest);
        assert((s[0] % 128) as int + 128 * (x / 128) == x);
    }
}

/// Encoding `x` takes at least one byte; each byte but the last has its high bit set.
pub proof fn lemma_varint_encode_shape(x: nat)
    ensures
        varint_encode_nat(x).len() >= 1,
    decreases x,
{
    if x >= 128 {
        lemma_varint_encode_shape(x / 128);
    }
}

/// Every byte of an encoding but the last has its high bit set; the last has it clear.
pub proof fn lemma_varint_encode_bytes(x: nat)
    ensures
        varint_encode_nat(x).len() >= 1,
        forall|i: int| 0 <= i < varint_encode_nat(x).len() - 1 ==> varint_encode_nat(x)[i] >= 128,
        varint_encode_nat(x).last() < 128,
    decreases x,
{
    lemma_varint_encode_shape(x);
    if x >= 128 {
        lemma_varint_encode_bytes(x / 128);
        let t = varint_encode_nat(x / 128);
        let s = varint_encode_nat(x);
        assert(s == seq![(x % 128 + 128) as u8] + t);
        assert forall|i: int| 0 <= i < s.len() - 1 implies s[i] >= 128 by {
            if i > 0 {
                assert(s[i] == t[i - 1]);
            }
        }
        assert(s.last() == t.last());
    }
}

/// Reading back the bytes of `v` gives `v`, taking exactly those bytes, whatever follows.
pub proof fn lemma_varint_round_trip(v: i32, rest: Seq<u8>)
    ensures
        spec_varint_parse(spec_varint_bytes(v) + rest) == Ok::<(VarInt, nat), ErrKind>((VarInt(v), spec_varint_bytes(v).len())),
        1 <= spec_varint_bytes(v).len() <= 5,
{
    let x = (v as u32) as nat;
    lemma_pow128_bounds(5);
    assert(pow128(5) == 34359738368) by {
        reveal_with_fuel(pow128, 6);
    }
    lemma_varint_nat_round_trip(x, 5, rest);
    lemma_varint_encode_shape(x);
    assert(((v as u32) as int % 0x1_0000_0000) == (v as u32) as int);
    assert(((v as u32) as i32) == v) by (bit_vector);
}

proof fn lemma_step_value(acc: u64, mult: u64, b: u8, v: int)
    requires
        b >= 128,
    ensures
        acc + mult * ((b % 128) as int + 128 * v) == (acc + (b % 128) * mult) + (mult * 128) * v,
{
    assert(acc + mult * ((b % 128) as int + 128 * v) == (acc + (b % 128) * mult) + (mult * 128) * v)
        by (nonlinear_arith);
}

impl VarInt {
    /// The bytes of this value.
    pub fn to_bytes(&self) -> (bytes: Vec<u8>)
        ensures
            bytes@ == spec_varint_bytes(self.0),
    {
        let mut out: Vec<u8> = Vec::new();
        write_varint(&mut out, self.0);
        out
    }

    /// Read a value from the front of `bytes`.
    pub fn from_slice(bytes: &[u8]) -> (r: Result<VarInt, SerializingErr>)
        ensures
            match spec_varint_parse(bytes@) {
                Ok((v, n)) => r == Ok::<VarInt, SerializingErr>(v),
                Err(k) => r matches Err(e) && e.kind() == k,
            },
    {
        let mut d = McDeserializer::new(bytes);
        read_varint(&mut d)
    }
}

/// Append the bytes of `v` to `out`.
pub fn write_varint(out: &mut Vec<u8>, v: i32)
    ensures
        final(out)@ == old(out)@ + spec_varint_bytes(v),
{
    let mut x: u32 = v as u32;
    while x >= 128
        invariant
            out@ + varint_encode_nat(x as nat) == old(out)@ + spec_varint_bytes(v),
        decreases x,
    {
        let b: u8 = ((x & 0x7f) | 0x80) as u8;
        assert(((x & 0x7f) | 0x80) as u8 == (x % 128 + 128) as u8) by (bit_vector)
            requires
                x >= 128,
        ;
        assert(x >> 7 == x / 128) by (bit_vector);
        let ghost before = out@;
        out.push(b);
        assert(varint_encode_nat(x as nat) == seq![b] + varint_encode_nat((x / 128) as nat));
        assert(before + varint_encode_nat(x as nat) == out@ + varint_encode_nat((x / 128) as nat));
        x = x >> 7;
    }
    out.push(x as u8);
    assert(varint_encode_nat(x as nat) == seq![x as u8]);
}

/// Read a variable-length integer.
pub fn read_varint(d: &mut McDeserializer) -> (r: Result<VarInt, SerializingErr>)
    ensures
        final(d).data@ == old(d).data@,
        deserialized(spec_varint_parse(old(d).remaining()), old(d).index, final(d).index, r),
{
    let ghost s0 = d.remaining();
    let mut acc: u64 = 0;
    let mut mult: u64 = 1;
    let mut i: usize = 0;
    proof {
        assert(s0.skip(0) == s0);
    }
    while i < 5
        invariant
            d.data@ == old(d).data@,
            s0 == old(d).remaining(),
            i <= 5,
            d.index == old(d).index + i,
            i > 0 ==> i <= s0.len(),
            mult == pow128(i as nat),
            acc < mult,
            forall|j: int| 0 <= j < i ==> s0[j] >= 128,
            d.remaining() == s0.skip(i as int),
            varint_decode_fuel(s0, 5) == varint_shift(varint_decode_fuel(s0.skip(i as int), (5 - i) as nat), acc as int, mult as int, i as nat),
        decreases 5 - i,
    {
        proof {
            lemma_pow128_bounds(i as nat);
        }
        let ghost rest = s0.skip(i as int);
        let r = d.pop_u8();
        match r {
            Err(e) => {
                assert(rest.len() == 0);
                assert(varint_decode_fuel(rest, (5 - i) as nat) == None::<(int, nat)>);
                assert(!varint_runs_too_long(s0));
                return Err(SerializingErr::InvalidEndOfVarInt);
            }
            Ok(b) => {
                assert(b == rest[0]);
                assert(b == s0[i as int]);
                let low: u64 = (b & 0x7f) as u64;
                assert((b & 0x7f) == b % 128) by (bit_vector);
                assert(acc + low * mult < 128 * mult) by (nonlinear_arith)
                    requires low < 128, mult >= 1, acc < mult;
                if b < 128 {
                    assert(varint_decode_fuel(rest, (5 - i) as nat) == Some((b as int, 1nat)));
                    let value: u64 = acc + low * mult;
                    assert(b % 128 == b);
                    assert(value as int == acc + mult * (b as int)) by (nonlinear_arith)
                        requires value == acc + low * mult, low == b as int;
                    assert((value as u32) as int == (value as int) % 0x1_0000_0000) by (bit_vector);
                    assert(acc + mult * (b as int) < 0x8_0000_0000);
                    let low32: u32 = #[verifier::truncate] (value as u32);
                    let signed: i32 = #[verifier::truncate] (low32 as i32);
                    return Ok(VarInt(signed));
                }
                proof {
                    let f = (5 - i) as nat;
                    let tail = varint_decode_fuel(rest.drop_first(), (4 - i) as nat);
                    assert((f - 1) as nat == (4 - i) as nat);
                    assert(rest.drop_first() == s0.skip(i + 1));
                    assert(varint_decode_fuel(rest, f) == match tail {
                        Some((v, n)) => Some(((rest[0] % 128) as int + 128 * v, n + 1)),
                        None => None,
                    });
                    match tail {
                        Some((v, n)) => {
                            lemma_step_value(acc, mult, b, v);
                            assert(varint_shift(varint_decode_fuel(rest, f), acc as int, mult as int, i as nat)
                                == varint_shift(tail, (acc + low * mult) as int, (mult * 128) as int, (i + 1) as nat));
                        },
                        None => {},
                    }
                }
                acc = acc + low * mult;
                mult = mult * 128;
                i = i + 1;
                proof {
                    assert(mult == pow128(i as nat));
                    assert(d.remaining() == s0.skip(i as int));
                }
            }
        }
    }
    proof {
        assert(varint_decode_fuel(s0.skip(5), 0) == None::<(int, nat)>);
        assert(varint_runs_too_long(s0));
    }
    Err(SerializingErr::VarTypeTooLong("a VarInt may take at most 5 bytes".to_string()))
}

impl McSerialize for VarInt {
    open spec fn spec_serialize(v: VarInt) -> Seq<u8> {
        spec_varint_bytes(v.0)
    }

    open spec fn spec_can_serialize(v: VarInt) -> bool {
        true
    }

    fn mc_serialize(&self, serializer: &mut McSerializer) -> (r: Result<(), SerializingErr>) {
        write_varint(&mut serializer.output, self.0);
        Ok(())
    }
}

impl McDeserialize for VarInt {
    open spec fn spec_deserialize(s: Seq<u8>) -> ParseResult<VarInt> {
        spec_varint_parse(s)
    }

    proof fn lemma_deserialize_len(s: Seq<u8>) {
        lemma_varint_decode_len(s, 5);
    }

    fn mc_deserialize(deserializer: &mut McDeserializer) -> (r: Result<VarInt, SerializingErr>) {
        read_varint(deserializer)
    }
}

impl McRoundTrip for VarInt {
    open spec fn spec_well_formed(v: VarInt) -> bool {
        true
    }

    proof fn lemma_round_trip(v: VarInt, rest: Seq<u8>) {
        lemma_varint_round_trip(v.0, rest);
    }
}

} // verus!
