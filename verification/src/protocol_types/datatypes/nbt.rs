//! Named Binary Tag (NBT) data, as sent on the network: a compound tag whose root has no name.
//!
//! https://minecraft.wiki/w/NBT_format

use crate::protocol::serialization::primitives::{
    lemma_u16_round_trip, read_u16, u16_bytes, u16_from_bytes, write_u16,
};
use crate::protocol::serialization::serializer_types::{
    deserialize_n, lemma_parse_n_len, lemma_parse_n_round_trip, parse_n, prepend_parse,
    seq_can_serialize, seq_serialize, seq_well_formed, serialize_all,
};
use crate::protocol::serialization::strings::str_from_utf8;
use crate::protocol::serialization::{
    deserialized, lemma_remaining_advance, ErrKind, McDeserialize, McDeserializer, McRoundTrip,
    McSerialize, McSerializer, ParseResult, SerializingErr,
};
use vstd::prelude::*;
use vstd::utf8::*;

verus! {

/// The value of a tag, as contracts see it.
pub ghost enum NbtValue {
    Byte(i8),
    Short(i16),
    Int(i32),
    Long(i64),
    Float(u32),
    Double(u64),
    ByteArray(Seq<i8>),
    Str(Seq<char>),
    List(u8, Seq<NbtValue>),
    Compound(Seq<(Seq<char>, NbtValue)>),
    IntArray(Seq<i32>),
    LongArray(Seq<i64>),
}

/// A tag.
#[derive(Debug, PartialEq)]
pub enum NbtTag {
    Byte(i8),
    Short(i16),
    Int(i32),
    Long(i64),
    /// A 32-bit float, by its bits.
    Float(u32),
    /// A 64-bit float, by its bits.
    Double(u64),
    ByteArray(Vec<i8>),
    Str(String),
    List(NbtList),
    Compound(NbtCompound),
    IntArray(Vec<i32>),
    LongArray(Vec<i64>),
}

/// A list of tags that all have the tag type `type_id`.
#[derive(Debug, PartialEq)]
pub struct NbtList {
    pub type_id: u8,
    pub items: Vec<NbtTag>,
}

/// A compound tag: named tags, in the order they were added.
#[derive(Debug, PartialEq)]
pub struct NbtCompound {
    pub root_name: Option<String>,
    pub map: Vec<(String, NbtTag)>,
}

pub open spec fn tag_model(t: NbtTag) -> NbtValue
    decreases t,
{
    match t {
        NbtTag::Byte(x) => NbtValue::Byte(x),
        NbtTag::Short(x) => NbtValue::Short(x),
        NbtTag::Int(x) => NbtValue::Int(x),
        NbtTag::Long(x) => NbtValue::Long(x),
        NbtTag::Float(x) => NbtValue::Float(x),
        NbtTag::Double(x) => NbtValue::Double(x),
        NbtTag::ByteArray(v) => NbtValue::ByteArray(v@),
        NbtTag::Str(s) => NbtValue::Str(s@),
        NbtTag::List(l) => NbtValue::List(l.type_id, items_model(l.items@)),
        NbtTag::Compound(c) => NbtValue::Compound(entries_model(c.map@)),
        NbtTag::IntArray(v) => NbtValue::IntArray(v@),
        NbtTag::LongArray(v) => NbtValue::LongArray(v@),
    }
}

pub open spec fn items_model(s: Seq<NbtTag>) -> Seq<NbtValue>
    decreases s,
{
    if s.len() == 0 {
        Seq::empty()
    } else {
        items_model(s.drop_last()).push(tag_model(s.last()))
    }
}

pub open spec fn entries_model(s: Seq<(String, NbtTag)>) -> Seq<(Seq<char>, NbtValue)>
    decreases s,
{
    if s.len() == 0 {
        Seq::empty()
    } else {
        entries_model(s.drop_last()).push((s.last().0@, tag_model(s.last().1)))
    }
}

/// The tag type of a value: 1 to 12, in the order of the variants.
pub open spec fn nbt_type_id(v: NbtValue) -> u8 {
    match v {
        NbtValue::Byte(_) => 1,
        NbtValue::Short(_) => 2,
        NbtValue::Int(_) => 3,
        NbtValue::Long(_) => 4,
        NbtValue::Float(_) => 5,
        NbtValue::Double(_) => 6,
        NbtValue::ByteArray(_) => 7,
        NbtValue::Str(_) => 8,
        NbtValue::List(_, _) => 9,
        NbtValue::Compound(_) => 10,
        NbtValue::IntArray(_) => 11,
        NbtValue::LongArray(_) => 12,
    }
}

/// The bytes of a string in NBT: the count of its UTF-8 bytes in two bytes, then the bytes.
pub open spec fn nbt_string_bytes(cs: Seq<char>) -> Seq<u8> {
    u16_bytes(encode_utf8(cs).len() as u16) + encode_utf8(cs)
}

/// The parse of a string in NBT.
pub open spec fn nbt_string_parse(s: Seq<u8>) -> ParseResult<Seq<char>> {
    if s.len() < 2 {
        Err(ErrKind::InputEnded)
    } else {
        let n = u16_from_bytes(s) as nat;
        if s.len() < 2 + n {
            Err(ErrKind::InputEnded)
        } else if !valid_utf8(s.subrange(2, (2 + n) as int)) {
            Err(ErrKind::CouldNotDeserializeString)
        } else {
            Ok((decode_utf8(s.subrange(2, (2 + n) as int)), 2 + n))
        }
    }
}

/// The bytes of an array in NBT: its length as a 32-bit integer, then its elements.
pub open spec fn nbt_array_bytes<T: McSerialize>(s: Seq<T::V>) -> Seq<u8> {
    i32::spec_serialize(s.len() as i32) + seq_serialize::<T>(s)
}

/// The parse of an array in NBT; a negative length is refused.
pub open spec fn nbt_array_parse<T: McDeserialize>(s: Seq<u8>) -> ParseResult<Seq<T::V>> {
    match i32::spec_deserialize(s) {
        Err(e) => Err(e),
        Ok((len, n)) => if len < 0 {
            Err(ErrKind::OutOfBounds)
        } else {
            match parse_n::<T>(s.skip(n as int), len as nat) {
                Ok((xs, k)) => Ok((xs, n + k)),
                Err(e) => Err(e),
            }
        },
    }
}

/// The payload bytes of a value, without its type or name.
pub open spec fn payload_bytes(v: NbtValue) -> Seq<u8>
    decreases v,
{
    match v {
        NbtValue::Byte(x) => i8::spec_serialize(x),
        NbtValue::Short(x) => i16::spec_serialize(x),
        NbtValue::Int(x) => i32::spec_serialize(x),
        NbtValue::Long(x) => i64::spec_serialize(x),
        NbtValue::Float(x) => u32::spec_serialize(x),
        NbtValue::Double(x) => u64::spec_serialize(x),
        NbtValue::ByteArray(s) => nbt_array_bytes::<i8>(s),
        NbtValue::Str(cs) => nbt_string_bytes(cs),
        NbtValue::List(t, items) => seq![t] + i32::spec_serialize(items.len() as i32) + items_bytes(items),
        NbtValue::Compound(es) => entries_bytes(es) + seq![0u8],
        NbtValue::IntArray(s) => nbt_array_bytes::<i32>(s),
        NbtValue::LongArray(s) => nbt_array_bytes::<i64>(s),
    }
}

/// The payloads of list items, one after another.
pub open spec fn items_bytes(s: Seq<NbtValue>) -> Seq<u8>
    decreases s,
{
    if s.len() == 0 {
        Seq::<u8>::empty()
    } else {
        payload_bytes(s[0]) + items_bytes(s.drop_first())
    }
}

/// The entries of a compound, each its type, its name and its payload, without the closing 0.
pub open spec fn entries_bytes(es: Seq<(Seq<char>, NbtValue)>) -> Seq<u8>
    decreases es,
{
    if es.len() == 0 {
        Seq::<u8>::empty()
    } else {
        seq![nbt_type_id(es[0].1)] + nbt_string_bytes(es[0].0) + payload_bytes(es[0].1) + entries_bytes(es.drop_first())
    }
}

/// The parse of the payload of a value of tag type `t`; an unknown type is refused.
pub open spec fn parse_payload(t: u8, s: Seq<u8>) -> ParseResult<NbtValue>
    decreases s.len(), 1nat, 0nat,
{
    if t == 1 {
        match i8::spec_deserialize(s) { Ok((x, n)) => Ok((NbtValue::Byte(x), n)), Err(e) => Err(e) }
    } else if t == 2 {
        match i16::spec_deserialize(s) { Ok((x, n)) => Ok((NbtValue::Short(x), n)), Err(e) => Err(e) }
    } else if t == 3 {
        match i32::spec_deserialize(s) { Ok((x, n)) => Ok((NbtValue::Int(x), n)), Err(e) => Err(e) }
    } else if t == 4 {
        match i64::spec_deserialize(s) { Ok((x, n)) => Ok((NbtValue::Long(x), n)), Err(e) => Err(e) }
    } else if t == 5 {
        match u32::spec_deserialize(s) { Ok((x, n)) => Ok((NbtValue::Float(x), n)), Err(e) => Err(e) }
    } else if t == 6 {
        match u64::spec_deserialize(s) { Ok((x, n)) => Ok((NbtValue::Double(x), n)), Err(e) => Err(e) }
    } else if t == 7 {
        match nbt_array_parse::<i8>(s) { Ok((x, n)) => Ok((NbtValue::ByteArray(x), n)), Err(e) => Err(e) }
    } else if t == 8 {
        match nbt_string_parse(s) { Ok((x, n)) => Ok((NbtValue::Str(x), n)), Err(e) => Err(e) }
    } else if t == 9 {
        if s.len() == 0 {
            Err(ErrKind::InputEnded)
        } else {
            match i32::spec_deserialize(s.skip(1)) {
                Err(e) => Err(e),
                Ok((len, n)) => if len < 0 {
                    Err(ErrKind::OutOfBounds)
                } else {
                    match parse_items(s[0], s.skip(5), len as nat) {
                        Ok((xs, k)) => Ok((NbtValue::List(s[0], xs), 5 + k)),
                        Err(e) => Err(e),
                    }
                },
            }
        }
    } else if t == 10 {
        match parse_entries(s) { Ok((es, n)) => Ok((NbtValue::Compound(es), n)), Err(e) => Err(e) }
    } else if t == 11 {
        match nbt_array_parse::<i32>(s) { Ok((x, n)) => Ok((NbtValue::IntArray(x), n)), Err(e) => Err(e) }
    } else if t == 12 {
        match nbt_array_parse::<i64>(s) { Ok((x, n)) => Ok((NbtValue::LongArray(x), n)), Err(e) => Err(e) }
    } else {
        Err(ErrKind::DeserializationError)
    }
}

/// The parse of `n` list items of tag type `t`, one after another.
pub open spec fn parse_items(t: u8, s: Seq<u8>, n: nat) -> ParseResult<Seq<NbtValue>>
    decreases s.len(), 2nat, n,
{
    if n == 0 {
        Ok((Seq::<NbtValue>::empty(), 0nat))
    } else {
        match parse_payload(t, s) {
            Err(e) => Err(e),
            Ok((v, m)) => if m > s.len() {
                Err(ErrKind::InputEnded)
            } else {
                match parse_items(t, s.skip(m as int), (n - 1) as nat) {
                    Ok((vs, k)) => Ok((seq![v] + vs, m + k)),
                    Err(e) => Err(e),
                }
            },
        }
    }
}

/// The parse of the entries of a compound, up to and with the closing 0.
pub open spec fn parse_entries(s: Seq<u8>) -> ParseResult<Seq<(Seq<char>, NbtValue)>>
    decreases s.len(), 0nat, 0nat,
{
    if s.len() == 0 {
        Err(ErrKind::InputEnded)
    } else if s[0] == 0 {
        Ok((Seq::<(Seq<char>, NbtValue)>::empty(), 1nat))
    } else {
        match nbt_string_parse(s.skip(1)) {
            Err(e) => Err(e),
            Ok((name, k)) => if 1 + k > s.len() {
                Err(ErrKind::InputEnded)
            } else {
                match parse_payload(s[0], s.skip((1 + k) as int)) {
                    Err(e) => Err(e),
                    Ok((v, m)) => if 1 + k + m > s.len() {
                        Err(ErrKind::InputEnded)
                    } else {
                        match parse_entries(s.skip((1 + k + m) as int)) {
                            Ok((es, r)) => Ok((seq![(name, v)] + es, 1 + k + m + r)),
                            Err(e) => Err(e),
                        }
                    },
                }
            },
        }
    }
}

pub proof fn lemma_nbt_array_parse_len<T: McDeserialize>(s: Seq<u8>)
    ensures
        nbt_array_parse::<T>(s) matches Ok((xs, n)) ==> n <= s.len(),
{
    if let Ok((len, n)) = i32::spec_deserialize(s) {
        if len >= 0 {
            lemma_parse_n_len::<T>(s.skip(n as int), len as nat);
        }
    }
}

/// A parse of a payload never takes more bytes than there are.
pub proof fn lemma_payload_len(t: u8, s: Seq<u8>)
    ensures
        parse_payload(t, s) matches Ok((v, n)) ==> n <= s.len(),
    decreases s.len(), 1nat, 0nat,
{
    lemma_nbt_array_parse_len::<i8>(s);
    lemma_nbt_array_parse_len::<i32>(s);
    lemma_nbt_array_parse_len::<i64>(s);
    if t == 9 && s.len() > 0 {
        if let Ok((len, n)) = i32::spec_deserialize(s.skip(1)) {
            if len >= 0 {
                lemma_items_len(s[0], s.skip(5), len as nat);
            }
        }
    } else if t == 10 {
        lemma_entries_len(s);
    }
}

pub proof fn lemma_items_len(t: u8, s: Seq<u8>, n: nat)
    ensures
        parse_items(t, s, n) matches Ok((vs, k)) ==> k <= s.len() && vs.len() == n,
    decreases s.len(), 2nat, n,
{
    if n > 0 {
        lemma_payload_len(t, s);
        if let Ok((v, m)) = parse_payload(t, s) {
            if m <= s.len() {
                lemma_items_len(t, s.skip(m as int), (n - 1) as nat);
            }
        }
    }
}

pub proof fn lemma_entries_len(s: Seq<u8>)
    ensures
        parse_entries(s) matches Ok((es, k)) ==> 1 <= k <= s.len(),
    decreases s.len(), 0nat, 0nat,
{
    if s.len() > 0 && s[0] != 0 {
        if let Ok((name, k)) = nbt_string_parse(s.skip(1)) {
            if 1 + k <= s.len() {
                lemma_payload_len(s[0], s.skip((1 + k) as int));
                if let Ok((v, m)) = parse_payload(s[0], s.skip((1 + k) as int)) {
                    if 1 + k + m <= s.len() {
                        lemma_entries_len(s.skip((1 + k + m) as int));
                    }
                }
            }
        }
    }
}

/// Whether a value can be written and read back: every array and list is at most `i32::MAX`
/// long, every string and name at most 65535 bytes, and every item of a list has the list's
/// tag type.
pub open spec fn value_wf(v: NbtValue) -> bool
    decreases v,
{
    match v {
        NbtValue::ByteArray(s) => s.len() <= i32::MAX,
        NbtValue::Str(cs) => encode_utf8(cs).len() <= u16::MAX,
        NbtValue::List(t, items) => items.len() <= i32::MAX && items_wf(t, items),
        NbtValue::Compound(es) => entries_wf(es),
        NbtValue::IntArray(s) => s.len() <= i32::MAX,
        NbtValue::LongArray(s) => s.len() <= i32::MAX,
        _ => true,
    }
}

/// Every item has tag type `t` and can be written and read back.
pub open spec fn items_wf(t: u8, s: Seq<NbtValue>) -> bool
    decreases s,
{
    s.len() == 0 || (nbt_type_id(s[0]) == t && value_wf(s[0]) && items_wf(t, s.drop_first()))
}

/// Every name is at most 65535 bytes and every value can be written and read back.
pub open spec fn entries_wf(es: Seq<(Seq<char>, NbtValue)>) -> bool
    decreases es,
{
    es.len() == 0 || (encode_utf8(es[0].0).len() <= u16::MAX && value_wf(es[0].1) && entries_wf(es.drop_first()))
}

/// A string of at most 65535 bytes reads back, whatever follows.
pub proof fn lemma_nbt_string_round_trip(cs: Seq<char>, rest: Seq<u8>)
    requires
        encode_utf8(cs).len() <= u16::MAX,
    ensures
        nbt_string_parse(nbt_string_bytes(cs) + rest) == Ok::<(Seq<char>, nat), ErrKind>((cs, nbt_string_bytes(cs).len())),
{
    let b = encode_utf8(cs);
    let s = nbt_string_bytes(cs) + rest;
    lemma_u16_round_trip(b.len() as u16);
    assert(s.subrange(0, 2) == u16_bytes(b.len() as u16));
    assert(u16_from_bytes(s) == u16_from_bytes(u16_bytes(b.len() as u16)));
    assert(s.subrange(2, (2 + b.len()) as int) == b);
    encode_utf8_valid_utf8(cs);
    encode_utf8_decode_utf8(cs);
}

/// An array of at most `i32::MAX` elements reads back, whatever follows.
pub proof fn lemma_nbt_array_round_trip<T: McRoundTrip>(xs: Seq<T::V>, rest: Seq<u8>)
    requires
        xs.len() <= i32::MAX,
        seq_can_serialize::<T>(xs),
        seq_well_formed::<T>(xs),
    ensures
        nbt_array_parse::<T>(nbt_array_bytes::<T>(xs) + rest) == Ok::<(Seq<T::V>, nat), ErrKind>((xs, nbt_array_bytes::<T>(xs).len())),
{
    let body = seq_serialize::<T>(xs) + rest;
    let s = nbt_array_bytes::<T>(xs) + rest;
    i32::lemma_round_trip(xs.len() as i32, body);
    assert(s == i32::spec_serialize(xs.len() as i32) + body);
    assert(s.skip(4) == body);
    lemma_parse_n_round_trip::<T>(xs, rest);
}

/// A value that can be written reads back as it was, whatever bytes follow.
pub proof fn lemma_payload_round_trip(v: NbtValue, rest: Seq<u8>)
    requires
        value_wf(v),
    ensures
        parse_payload(nbt_type_id(v), payload_bytes(v) + rest) == Ok::<(NbtValue, nat), ErrKind>((v, payload_bytes(v).len())),
    decreases v,
{
    match v {
        NbtValue::Byte(x) => {
            i8::lemma_round_trip(x, rest);
        },
        NbtValue::Short(x) => {
            i16::lemma_round_trip(x, rest);
        },
        NbtValue::Int(x) => {
            i32::lemma_round_trip(x, rest);
        },
        NbtValue::Long(x) => {
            i64::lemma_round_trip(x, rest);
        },
        NbtValue::Float(x) => {
            u32::lemma_round_trip(x, rest);
        },
        NbtValue::Double(x) => {
            u64::lemma_round_trip(x, rest);
        },
        NbtValue::ByteArray(s) => {
            assert(seq_can_serialize::<i8>(s));
            assert(seq_well_formed::<i8>(s));
            lemma_nbt_array_round_trip::<i8>(s, rest);
        },
        NbtValue::Str(cs) => {
            lemma_nbt_string_round_trip(cs, rest);
        },
        NbtValue::List(t, items) => {
            let lb = i32::spec_serialize(items.len() as i32);
            let ib = items_bytes(items);
            let s = payload_bytes(v) + rest;
            assert(s == seq![t] + (lb + (ib + rest)));
            assert(s[0] == t);
            assert(s.skip(1) == lb + (ib + rest));
            i32::lemma_round_trip(items.len() as i32, ib + rest);
            assert(s.skip(5) == ib + rest);
            lemma_items_round_trip(t, items, rest);
        },
        NbtValue::Compound(es) => {
            lemma_entries_round_trip(es, rest);
            assert(payload_bytes(v) + rest == entries_bytes(es) + seq![0u8] + rest);
        },
        NbtValue::IntArray(s) => {
            assert(seq_can_serialize::<i32>(s));
            assert(seq_well_formed::<i32>(s));
            lemma_nbt_array_round_trip::<i32>(s, rest);
        },
        NbtValue::LongArray(s) => {
            assert(seq_can_serialize::<i64>(s));
            assert(seq_well_formed::<i64>(s));
            lemma_nbt_array_round_trip::<i64>(s, rest);
        },
    }
}

/// List items of tag type `t` that can be written read back as they were.
pub proof fn lemma_items_round_trip(t: u8, items: Seq<NbtValue>, rest: Seq<u8>)
    requires
        items_wf(t, items),
    ensures
        parse_items(t, items_bytes(items) + rest, items.len()) == Ok::<(Seq<NbtValue>, nat), ErrKind>((items, items_bytes(items).len())),
    decreases items,
{
    if items.len() == 0 {
        assert(items =~= Seq::<NbtValue>::empty());
        assert(items_bytes(items) + rest == rest);
    } else {
        let b0 = payload_bytes(items[0]);
        let tail = items_bytes(items.drop_first());
        let s = items_bytes(items) + rest;
        assert(s == b0 + (tail + rest));
        lemma_payload_round_trip(items[0], tail + rest);
        assert(s.skip(b0.len() as int) == tail + rest);
        lemma_items_round_trip(t, items.drop_first(), rest);
        assert(seq![items[0]] + items.drop_first() == items);
    }
}

/// The entries of a compound that can be written, with the closing 0, read back as they were.
#[verifier::spinoff_prover]
#[verifier::rlimit(50)]
pub proof fn lemma_entries_round_trip(es: Seq<(Seq<char>, NbtValue)>, rest: Seq<u8>)
    requires
        entries_wf(es),
    ensures
        parse_entries(entries_bytes(es) + seq![0u8] + rest)
            == Ok::<(Seq<(Seq<char>, NbtValue)>, nat), ErrKind>((es, entries_bytes(es).len() + 1)),
    decreases es,
{
    if es.len() == 0 {
        assert(es =~= Seq::<(Seq<char>, NbtValue)>::empty());
        assert((entries_bytes(es) + seq![0u8] + rest)[0] == 0u8);
    } else {
        let e = es[0];
        let nb = nbt_string_bytes(e.0);
        let pb = payload_bytes(e.1);
        let tail = entries_bytes(es.drop_first()) + seq![0u8] + rest;
        let s = entries_bytes(es) + seq![0u8] + rest;
        assert(s == seq![nbt_type_id(e.1)] + (nb + (pb + tail)));
        assert(s[0] == nbt_type_id(e.1));
        assert(s.skip(1) == nb + (pb + tail));
        lemma_nbt_string_round_trip(e.0, pb + tail);
        assert(s.skip((1 + nb.len()) as int) == pb + tail);
        lemma_payload_round_trip(e.1, tail);
        assert(s.skip((1 + nb.len() + pb.len()) as int) == tail);
        lemma_entries_round_trip(es.drop_first(), rest);
        assert(seq![(e.0, e.1)] + es.drop_first() == es);
    }
}

proof fn lemma_items_bytes_append(a: Seq<NbtValue>, b: Seq<NbtValue>)
    ensures
        items_bytes(a + b) == items_bytes(a) + items_bytes(b),
    decreases a.len(),
{
    if a.len() == 0 {
        assert(a + b == b);
    } else {
        assert((a + b).drop_first() == a.drop_first() + b);
        assert((a + b)[0] == a[0]);
        lemma_items_bytes_append(a.drop_first(), b);
    }
}

proof fn lemma_entries_bytes_append(a: Seq<(Seq<char>, NbtValue)>, b: Seq<(Seq<char>, NbtValue)>)
    ensures
        entries_bytes(a + b) == entries_bytes(a) + entries_bytes(b),
    decreases a.len(),
{
    if a.len() == 0 {
        assert(a + b == b);
    } else {
        assert((a + b).drop_first() == a.drop_first() + b);
        assert((a + b)[0] == a[0]);
        lemma_entries_bytes_append(a.drop_first(), b);
    }
}

proof fn lemma_items_model(s: Seq<NbtTag>)
    ensures
        items_model(s).len() == s.len(),
        forall|i: int| 0 <= i < s.len() ==> #[trigger] items_model(s)[i] == tag_model(s[i]),
    decreases s.len(),
{
    if s.len() > 0 {
        lemma_items_model(s.drop_last());
    }
}

proof fn lemma_entries_model(s: Seq<(String, NbtTag)>)
    ensures
        entries_model(s).len() == s.len(),
        forall|i: int| 0 <= i < s.len() ==> #[trigger] entries_model(s)[i] == (s[i].0@, tag_model(s[i].1)),
    decreases s.len(),
{
    if s.len() > 0 {
        lemma_entries_model(s.drop_last());
    }
}

proof fn lemma_items_wf(t: u8, s: Seq<NbtValue>)
    requires
        items_wf(t, s),
    ensures
        forall|i: int| 0 <= i < s.len() ==> nbt_type_id(#[trigger] s[i]) == t && value_wf(s[i]),
    decreases s.len(),
{
    if s.len() > 0 {
        lemma_items_wf(t, s.drop_first());
        assert forall|i: int| 0 <= i < s.len() implies nbt_type_id(#[trigger] s[i]) == t && value_wf(s[i]) by {
            if i > 0 {
                assert(s[i] == s.drop_first()[i - 1]);
            }
        }
    }
}

proof fn lemma_entries_wf(s: Seq<(Seq<char>, NbtValue)>)
    requires
        entries_wf(s),
    ensures
        forall|i: int| 0 <= i < s.len() ==> encode_utf8((#[trigger] s[i]).0).len() <= u16::MAX && value_wf(s[i].1),
    decreases s.len(),
{
    if s.len() > 0 {
        lemma_entries_wf(s.drop_first());
        assert forall|i: int| 0 <= i < s.len() implies encode_utf8((#[trigger] s[i]).0).len() <= u16::MAX && value_wf(s[i].1) by {
            if i > 0 {
                assert(s[i] == s.drop_first()[i - 1]);
            }
        }
    }
}

impl NbtTag {
    /// The tag type of this tag.
    pub fn type_id(&self) -> (t: u8)
        ensures
            t == nbt_type_id(tag_model(*self)),
    {
        match self {
            NbtTag::Byte(_) => 1,
            NbtTag::Short(_) => 2,
            NbtTag::Int(_) => 3,
            NbtTag::Long(_) => 4,
            NbtTag::Float(_) => 5,
            NbtTag::Double(_) => 6,
            NbtTag::ByteArray(_) => 7,
            NbtTag::Str(_) => 8,
            NbtTag::List(_) => 9,
            NbtTag::Compound(_) => 10,
            NbtTag::IntArray(_) => 11,
            NbtTag::LongArray(_) => 12,
        }
    }
}

/// Write a string as NBT does.
fn write_nbt_string(s: &String, out: &mut McSerializer)
    requires
        encode_utf8(s@).len() <= u16::MAX,
    ensures
        final(out).output@ == old(out).output@ + nbt_string_bytes(s@),
{
    let bytes = s.as_str().as_bytes();
    write_u16(out, bytes.len() as u16);
    out.serialize_bytes(bytes);
}

/// Write an array as NBT does: its length, then its elements.
fn write_nbt_array<T: McSerialize>(v: &Vec<T>, out: &mut McSerializer)
    requires
        v.len() <= i32::MAX,
        seq_can_serialize::<T>(v.deep_view()),
    ensures
        final(out).output@ == old(out).output@ + nbt_array_bytes::<T>(v.deep_view()),
{
    let len: i32 = v.len() as i32;
    let _ = len.mc_serialize(out);
    serialize_all(v, out);
}

/// Write the payload of a tag.
pub fn write_payload(tag: &NbtTag, out: &mut McSerializer)
    requires
        value_wf(tag_model(*tag)),
    ensures
        final(out).output@ == old(out).output@ + payload_bytes(tag_model(*tag)),
    decreases tag,
{
    match tag {
        NbtTag::Byte(x) => {
            let _ = x.mc_serialize(out);
        },
        NbtTag::Short(x) => {
            let _ = x.mc_serialize(out);
        },
        NbtTag::Int(x) => {
            let _ = x.mc_serialize(out);
        },
        NbtTag::Long(x) => {
            let _ = x.mc_serialize(out);
        },
        NbtTag::Float(x) => {
            let _ = x.mc_serialize(out);
        },
        NbtTag::Double(x) => {
            let _ = x.mc_serialize(out);
        },
        NbtTag::ByteArray(v) => {
            assert(v.deep_view() =~= v@);
            write_nbt_array(v, out);
        },
        NbtTag::Str(s) => {
            write_nbt_string(s, out);
        },
        NbtTag::List(l) => {
            write_list(l, out);
        },
        NbtTag::Compound(c) => {
            write_entries(c, out);
        },
        NbtTag::IntArray(v) => {
            assert(v.deep_view() =~= v@);
            write_nbt_array(v, out);
        },
        NbtTag::LongArray(v) => {
            assert(v.deep_view() =~= v@);
            write_nbt_array(v, out);
        },
    }
}

/// Write the payload of a list: its tag type, its length and its items.
fn write_list(l: &NbtList, out: &mut McSerializer)
    requires
        value_wf(NbtValue::List(l.type_id, items_model(l.items@))),
    ensures
        final(out).output@ == old(out).output@ + payload_bytes(NbtValue::List(l.type_id, items_model(l.items@))),
    decreases l,
{
    let ghost items = items_model(l.items@);
    proof {
        lemma_items_model(l.items@);
        lemma_items_wf(l.type_id, items);
    }
    out.serialize_u8(l.type_id);
    let len: i32 = l.items.len() as i32;
    let _ = len.mc_serialize(out);
    let ghost start = out.output@;
    let mut i: usize = 0;
    while i < l.items.len()
        invariant
            i <= l.items.len(),
            items == items_model(l.items@),
            items.len() == l.items.len(),
            forall|j: int| 0 <= j < l.items.len() ==> #[trigger] items[j] == tag_model(l.items@[j]),
            forall|j: int| 0 <= j < items.len() ==> value_wf(#[trigger] items[j]),
            out.output@ == start + items_bytes(items.take(i as int)),
        decreases l.items.len() - i,
    {
        assert(value_wf(items[i as int]));
        let item = &l.items[i];
        write_payload(item, out);
        proof {
            assert(items.take(i + 1) == items.take(i as int) + seq![items[i as int]]);
            lemma_items_bytes_append(items.take(i as int), seq![items[i as int]]);
            assert(items_bytes(seq![items[i as int]]) == payload_bytes(items[i as int]) + items_bytes(seq![items[i as int]].drop_first()));
            assert(seq![items[i as int]].drop_first() =~= Seq::<NbtValue>::empty());
            assert(items_bytes(seq![items[i as int]].drop_first()) == Seq::<u8>::empty());
        }
        i = i + 1;
    }
    assert(items.take(l.items.len() as int) == items);
}

/// Write the entries of a compound and the closing 0.
fn write_entries(c: &NbtCompound, out: &mut McSerializer)
    requires
        entries_wf(entries_model(c.map@)),
    ensures
        final(out).output@ == old(out).output@ + entries_bytes(entries_model(c.map@)) + seq![0u8],
    decreases c,
{
    let ghost es = entries_model(c.map@);
    proof {
        lemma_entries_model(c.map@);
        lemma_entries_wf(es);
    }
    let ghost start = out.output@;
    let mut i: usize = 0;
    while i < c.map.len()
        invariant
            i <= c.map.len(),
            es == entries_model(c.map@),
            es.len() == c.map.len(),
            forall|j: int| 0 <= j < c.map.len() ==> #[trigger] es[j] == (c.map@[j].0@, tag_model(c.map@[j].1)),
            forall|j: int| 0 <= j < es.len() ==> encode_utf8((#[trigger] es[j]).0).len() <= u16::MAX && value_wf(es[j].1),
            out.output@ == start + entries_bytes(es.take(i as int)),
        decreases c.map.len() - i,
    {
        let entry = &c.map[i];
        assert(es[i as int] == (entry.0@, tag_model(entry.1)));
        out.serialize_u8(entry.1.type_id());
        write_nbt_string(&entry.0, out);
        write_payload(&entry.1, out);
        proof {
            let e = es[i as int];
            assert(es.take(i + 1) == es.take(i as int) + seq![e]);
            lemma_entries_bytes_append(es.take(i as int), seq![e]);
            assert(seq![e].drop_first() =~= Seq::<(Seq<char>, NbtValue)>::empty());
            assert(entries_bytes(seq![e].drop_first()) == Seq::<u8>::empty());
            assert(seq![e][0] == e);
            assert(entries_bytes(seq![e]) =~= seq![nbt_type_id(e.1)] + nbt_string_bytes(e.0) + payload_bytes(e.1));
        }
        i = i + 1;
    }
    assert(es.take(c.map.len() as int) == es);
    out.serialize_u8(0);
}

/// How a reading call that started at `old_index` and left the deserializer at `new_index`
/// agrees with the specified parse of a tag.
pub open spec fn tag_read(spec: ParseResult<NbtValue>, old_index: usize, new_index: usize, r: Result<NbtTag, SerializingErr>) -> bool {
    match spec {
        Ok((v, n)) => r matches Ok(tag) && tag_model(tag) == v && new_index == old_index + n,
        Err(k) => r matches Err(e) && e.kind() == k,
    }
}

proof fn lemma_prepend_prepend<V>(a: Seq<V>, c1: nat, b: Seq<V>, c2: nat, r: ParseResult<Seq<V>>)
    ensures
        prepend_parse(a, c1, prepend_parse(b, c2, r)) == prepend_parse(a + b, c1 + c2, r),
{
    if let Ok((xs, k)) = r {
        assert(a + (b + xs) == (a + b) + xs);
    }
}

/// Read a string as NBT writes it.
fn read_nbt_string(d: &mut McDeserializer) -> (r: Result<String, SerializingErr>)
    ensures
        final(d).data@ == old(d).data@,
        deserialized(nbt_string_parse(old(d).remaining()), old(d).index, final(d).index, r),
{
    let ghost s = d.remaining();
    let len = read_u16(d)?;
    assert(d.remaining() == s.skip(2));
    let bytes = d.take_bytes(len as usize)?;
    assert(bytes@ == s.subrange(2, 2 + len as int));
    match str_from_utf8(bytes) {
        Some(text) => Ok(text.to_owned()),
        None => Err(SerializingErr::CouldNotDeserializeString),
    }
}

/// Read an array as NBT writes it: its length, then its elements.
fn read_nbt_array<T: McDeserialize>(d: &mut McDeserializer) -> (r: Result<Vec<T>, SerializingErr>)
    ensures
        final(d).data@ == old(d).data@,
        deserialized(nbt_array_parse::<T>(old(d).remaining()), old(d).index, final(d).index, r),
{
    let ghost s = d.remaining();
    let len = i32::mc_deserialize(d)?;
    if len < 0 {
        return Err(SerializingErr::OutOfBounds("an NBT array may not have a negative length".to_string()));
    }
    assert(d.remaining() == s.skip(4));
    deserialize_n::<T>(d, len as usize)
}

/// Read the payload of a tag of type `t`. `budget` bounds the bytes left, and so how deep the
/// tags can nest.
fn read_payload(d: &mut McDeserializer, t: u8, Ghost(budget): Ghost<nat>) -> (r: Result<NbtTag, SerializingErr>)
    requires
        old(d).remaining().len() <= budget,
    ensures
        final(d).data@ == old(d).data@,
        tag_read(parse_payload(t, old(d).remaining()), old(d).index, final(d).index, r),
    decreases budget, 1nat,
{
    if t == 1 {
        Ok(NbtTag::Byte(i8::mc_deserialize(d)?))
    } else if t == 2 {
        Ok(NbtTag::Short(i16::mc_deserialize(d)?))
    } else if t == 3 {
        Ok(NbtTag::Int(i32::mc_deserialize(d)?))
    } else if t == 4 {
        Ok(NbtTag::Long(i64::mc_deserialize(d)?))
    } else if t == 5 {
        Ok(NbtTag::Float(u32::mc_deserialize(d)?))
    } else if t == 6 {
        Ok(NbtTag::Double(u64::mc_deserialize(d)?))
    } else if t == 7 {
        let v = read_nbt_array::<i8>(d)?;
        assert(v.deep_view() =~= v@);
        Ok(NbtTag::ByteArray(v))
    } else if t == 8 {
        Ok(NbtTag::Str(read_nbt_string(d)?))
    } else if t == 9 {
        Ok(NbtTag::List(read_list(d, Ghost(budget))?))
    } else if t == 10 {
        Ok(NbtTag::Compound(read_entries(d, Ghost(budget))?))
    } else if t == 11 {
        let v = read_nbt_array::<i32>(d)?;
        assert(v.deep_view() =~= v@);
        Ok(NbtTag::IntArray(v))
    } else if t == 12 {
        let v = read_nbt_array::<i64>(d)?;
        assert(v.deep_view() =~= v@);
        Ok(NbtTag::LongArray(v))
    } else {
        Err(SerializingErr::DeserializationError("Invalid NBT tag type".to_string()))
    }
}

/// Read the payload of a list: its tag type, its length and its items.
fn read_list(d: &mut McDeserializer, Ghost(budget): Ghost<nat>) -> (r: Result<NbtList, SerializingErr>)
    requires
        old(d).remaining().len() <= budget,
    ensures
        final(d).data@ == old(d).data@,
        match parse_payload(9, old(d).remaining()) {
            Ok((v, n)) => r matches Ok(l) && NbtValue::List(l.type_id, items_model(l.items@)) == v
                && final(d).index == old(d).index + n,
            Err(k) => r matches Err(e) && e.kind() == k,
        },
    decreases budget, 0nat,
{
    let ghost s0 = d.remaining();
    let ghost i0 = d.index;
    let et = d.pop_u8()?;
    let ghost d1 = *d;
    proof {
        lemma_remaining_advance(*old(d), d1, 1);
    }
    let len = i32::mc_deserialize(d)?;
    if len < 0 {
        return Err(SerializingErr::OutOfBounds("an NBT list may not have a negative length".to_string()));
    }
    proof {
        lemma_remaining_advance(d1, *d, 4);
        assert(s0.skip(1).skip(4) == s0.skip(5));
    }
    let n: usize = len as usize;
    let mut items: Vec<NbtTag> = Vec::new();
    let mut i: usize = 0;
    assert(items_model(items@) =~= Seq::<NbtValue>::empty());
    assert(s0.skip(5).skip(0) == s0.skip(5));
    while i < n
        invariant
            d.data@ == old(d).data@,
            s0 == old(d).remaining(),
            i0 == old(d).index,
            s0.len() <= budget,
            i0 + 5 <= d.index <= i0 + s0.len(),
            d.remaining() == s0.skip(d.index - i0),
            i <= n,
            n == len,
            s0.len() > 0,
            et == s0[0],
            i32::spec_deserialize(s0.skip(1)) == Ok::<(i32, nat), ErrKind>((len, 4nat)),
            items@.len() == i,
            parse_items(et, s0.skip(5), n as nat)
                == prepend_parse(items_model(items@), (d.index - i0 - 5) as nat, parse_items(et, d.remaining(), (n - i) as nat)),
        decreases n - i,
    {
        let ghost cur = d.remaining();
        let ghost ic = d.index;
        let ghost dc = *d;
        let tag = match read_payload(d, et, Ghost(cur.len())) {
            Ok(tag) => tag,
            Err(e) => {
                proof {
                    assert(parse_payload(et, cur) matches Err(k) && k == e.kind());
                    assert(parse_items(et, cur, (n - i) as nat) == match parse_payload(et, cur) {
                        Err(k) => Err::<(Seq<NbtValue>, nat), ErrKind>(k),
                        Ok(_) => parse_items(et, cur, (n - i) as nat),
                    });
                }
                return Err(e);
            },
        };
        proof {
            lemma_payload_len(et, cur);
            let m = (d.index - ic) as nat;
            lemma_remaining_advance(dc, *d, m);
            lemma_prepend_prepend(items_model(items@), (ic - i0 - 5) as nat, seq![tag_model(tag)], m, parse_items(et, cur.skip(m as int), (n - i - 1) as nat));
        }
        let ghost before = items@;
        items.push(tag);
        proof {
            assert(items@.drop_last() == before);
            assert(items_model(items@) == items_model(before) + seq![tag_model(tag)]);
            assert(d.remaining() == s0.skip(d.index - i0));
        }
        i = i + 1;
    }
    Ok(NbtList { type_id: et, items })
}


/// Read the entries of a compound, up to and with the closing 0. `budget` bounds the bytes
/// left.
fn read_entries(d: &mut McDeserializer, Ghost(budget): Ghost<nat>) -> (r: Result<NbtCompound, SerializingErr>)
    requires
        old(d).remaining().len() <= budget,
    ensures
        final(d).data@ == old(d).data@,
        match parse_entries(old(d).remaining()) {
            Ok((es, n)) => r matches Ok(c) && entries_model(c.map@) == es && c.root_name is None
                && final(d).index == old(d).index + n,
            Err(k) => r matches Err(e) && e.kind() == k,
        },
    decreases budget, 0nat,
{
    let ghost s0 = d.remaining();
    let ghost i0 = d.index;
    let mut map: Vec<(String, NbtTag)> = Vec::new();
    assert(entries_model(map@) =~= Seq::<(Seq<char>, NbtValue)>::empty());
    assert(s0.skip(0) == s0);
    loop
        invariant
            d.data@ == old(d).data@,
            s0 == old(d).remaining(),
            i0 == old(d).index,
            s0.len() <= budget,
            i0 <= d.index <= i0 + s0.len(),
            d.remaining() == s0.skip(d.index - i0),
            parse_entries(s0) == prepend_parse(entries_model(map@), (d.index - i0) as nat, parse_entries(d.remaining())),
        decreases d.remaining().len(),
    {
        let ghost cur = d.remaining();
        let ghost ic = d.index;
        let ghost dc = *d;
        let typ = d.pop_u8()?;
        if typ == 0 {
            assert(entries_model(map@) + Seq::<(Seq<char>, NbtValue)>::empty() == entries_model(map@));
            return Ok(NbtCompound { root_name: None, map });
        }
        let ghost d1 = *d;
        proof {
            lemma_remaining_advance(dc, d1, 1);
        }
        let name = read_nbt_string(d)?;
        let ghost d2 = *d;
        let ghost k = (d2.index - d1.index) as nat;
        proof {
            lemma_remaining_advance(d1, d2, k);
            assert(cur.skip(1).skip(k as int) == cur.skip((1 + k) as int));
        }
        let tag = read_payload(d, typ, Ghost(d2.remaining().len()))?;
        proof {
            lemma_payload_len(typ, d2.remaining());
            let m = (d.index - d2.index) as nat;
            lemma_remaining_advance(d2, *d, m);
            assert(cur.skip((1 + k) as int).skip(m as int) == cur.skip((1 + k + m) as int));
            lemma_prepend_prepend(entries_model(map@), (ic - i0) as nat, seq![(name@, tag_model(tag))], 1 + k + m, parse_entries(cur.skip((1 + k + m) as int)));
        }
        let ghost before = map@;
        map.push((name, tag));
        proof {
            assert(map@.drop_last() == before);
            assert(entries_model(map@) == entries_model(before) + seq![(map@.last().0@, tag_model(map@.last().1))]);
            assert(d.remaining() == s0.skip(d.index - i0));
        }
    }
}

/// The index of the first entry named `name`, or the number of entries if none is.
pub open spec fn spec_find_name(es: Seq<(Seq<char>, NbtValue)>, name: Seq<char>) -> nat
    decreases es.len(),
{
    if es.len() == 0 {
        0
    } else if es[0].0 == name {
        0
    } else {
        1 + spec_find_name(es.drop_first(), name)
    }
}

/// The entries `es` with `name` set to `v`: the first entry of that name takes the value, or a
/// new entry is added at the end.
pub open spec fn spec_insert(es: Seq<(Seq<char>, NbtValue)>, name: Seq<char>, v: NbtValue) -> Seq<(Seq<char>, NbtValue)> {
    let i = spec_find_name(es, name);
    if i < es.len() {
        es.update(i as int, (name, v))
    } else {
        es.push((name, v))
    }
}

proof fn lemma_find_name(es: Seq<(Seq<char>, NbtValue)>, name: Seq<char>, i: int)
    requires
        0 <= i <= es.len(),
        forall|j: int| 0 <= j < i ==> (#[trigger] es[j]).0 != name,
        i < es.len() ==> es[i].0 == name,
    ensures
        spec_find_name(es, name) == i,
    decreases i,
{
    if i > 0 {
        assert forall|j: int| 0 <= j < i - 1 implies (#[trigger] es.drop_first()[j]).0 != name by {
            assert(es.drop_first()[j] == es[j + 1]);
        }
        assert(es[0].0 != name);
        lemma_find_name(es.drop_first(), name, i - 1);
    } else if es.len() > 0 {
        assert(es[0].0 == name);
    }
}

proof fn lemma_find_name_bound(es: Seq<(Seq<char>, NbtValue)>, name: Seq<char>)
    ensures
        spec_find_name(es, name) <= es.len(),
        spec_find_name(es, name) < es.len() ==> es[spec_find_name(es, name) as int].0 == name,
    decreases es.len(),
{
    if es.len() > 0 && es[0].0 != name {
        lemma_find_name_bound(es.drop_first(), name);
        if spec_find_name(es, name) < es.len() {
            assert(es[spec_find_name(es, name) as int] == es.drop_first()[spec_find_name(es.drop_first(), name) as int]);
        }
    }
}

/// After a name is set, the first entry of that name holds the value set.
pub proof fn lemma_get_after_add(es: Seq<(Seq<char>, NbtValue)>, name: Seq<char>, v: NbtValue)
    ensures
        spec_find_name(spec_insert(es, name, v), name) < spec_insert(es, name, v).len(),
        spec_insert(es, name, v)[spec_find_name(spec_insert(es, name, v), name) as int].1 == v,
{
    lemma_find_name_bound(es, name);
    lemma_find_first(es, name);
    let i = spec_find_name(es, name);
    let es2 = spec_insert(es, name, v);
    if i < es.len() {
        assert forall|j: int| 0 <= j < i implies (#[trigger] es2[j]).0 != name by {
            assert(es2[j] == es[j]);
        }
        lemma_find_name(es2, name, i as int);
    } else {
        assert forall|j: int| 0 <= j < es.len() implies (#[trigger] es2[j]).0 != name by {
            assert(es2[j] == es[j]);
        }
        lemma_find_name(es2, name, es.len() as int);
    }
}

/// No entry before the first one of a name has that name.
proof fn lemma_find_first(es: Seq<(Seq<char>, NbtValue)>, name: Seq<char>)
    ensures
        forall|j: int| 0 <= j < spec_find_name(es, name) && j < es.len() ==> (#[trigger] es[j]).0 != name,
    decreases es.len(),
{
    if es.len() > 0 && es[0].0 != name {
        lemma_find_first(es.drop_first(), name);
        assert forall|j: int| 0 <= j < spec_find_name(es, name) && j < es.len() implies (#[trigger] es[j]).0 != name by {
            if j > 0 {
                assert(es[j] == es.drop_first()[j - 1]);
            }
        }
    }
}

impl DeepView for NbtCompound {
    type V = (Option<Seq<char>>, Seq<(Seq<char>, NbtValue)>);

    open spec fn deep_view(&self) -> Self::V {
        (self.root_name.deep_view(), entries_model(self.map@))
    }
}

impl NbtCompound {
    /// An empty compound with the given root name.
    pub fn new(root_name: Option<String>) -> (c: Self)
        ensures
            c.deep_view() == (root_name.deep_view(), Seq::<(Seq<char>, NbtValue)>::empty()),
    {
        let c = NbtCompound { root_name, map: Vec::new() };
        assert(entries_model(c.map@) =~= Seq::<(Seq<char>, NbtValue)>::empty());
        c
    }

    /// An empty compound without a root name, as the network sends them.
    pub fn new_no_name() -> (c: Self)
        ensures
            c.deep_view() == (None::<Seq<char>>, Seq::<(Seq<char>, NbtValue)>::empty()),
    {
        NbtCompound::new(None)
    }

    /// Set `name` to `tag`: the first entry of that name takes it, or it is added at the end.
    pub fn add(&mut self, name: String, tag: NbtTag)
        ensures
            final(self).root_name == old(self).root_name,
            final(self).deep_view().1 == spec_insert(old(self).deep_view().1, name@, tag_model(tag)),
    {
        let ghost es = entries_model(self.map@);
        proof {
            lemma_entries_model(self.map@);
        }
        let mut i: usize = 0;
        while i < self.map.len()
            invariant
                i <= self.map.len(),
                es == entries_model(self.map@),
                self.map@ == old(self).map@,
                self.root_name == old(self).root_name,
                es.len() == self.map.len(),
                forall|j: int| 0 <= j < self.map.len() ==> #[trigger] es[j] == (self.map@[j].0@, tag_model(self.map@[j].1)),
                forall|j: int| 0 <= j < i ==> (#[trigger] es[j]).0 != name@,
            decreases self.map.len() - i,
        {
            if self.map[i].0 == name {
                proof {
                    lemma_find_name(es, name@, i as int);
                }
                let ghost old_map = self.map@;
                self.map.set(i, (name, tag));
                proof {
                    lemma_entries_model(self.map@);
                    assert(entries_model(self.map@) =~= es.update(i as int, (name@, tag_model(tag))));
                }
                return;
            }
            i = i + 1;
        }
        proof {
            lemma_find_name(es, name@, es.len() as int);
        }
        let ghost before = self.map@;
        self.map.push((name, tag));
        proof {
            assert(self.map@.drop_last() == before);
        }
    }

    /// The tag of the first entry named `name`, if there is one.
    pub fn get(&self, name: &String) -> (r: Option<&NbtTag>)
        ensures
            match spec_lookup(self.deep_view().1, name@) {
                Some(v) => r matches Some(t) && tag_model(*t) == v,
                None => r is None,
            },
    {
        let ghost es = entries_model(self.map@);
        proof {
            lemma_entries_model(self.map@);
        }
        let mut i: usize = 0;
        while i < self.map.len()
            invariant
                i <= self.map.len(),
                es == entries_model(self.map@),
                es.len() == self.map.len(),
                forall|j: int| 0 <= j < self.map.len() ==> #[trigger] es[j] == (self.map@[j].0@, tag_model(self.map@[j].1)),
                forall|j: int| 0 <= j < i ==> (#[trigger] es[j]).0 != name@,
            decreases self.map.len() - i,
        {
            if self.map[i].0 == *name {
                proof {
                    lemma_find_name(es, name@, i as int);
                }
                return Some(&self.map[i].1);
            }
            i = i + 1;
        }
        proof {
            lemma_find_name(es, name@, es.len() as int);
        }
        None
    }
}

/// The bytes of a compound: its tag type 10, its root name if it has one, its entries and the
/// closing 0.
pub open spec fn spec_compound_bytes(v: (Option<Seq<char>>, Seq<(Seq<char>, NbtValue)>)) -> Seq<u8> {
    seq![10u8] + (match v.0 {
        Some(name) => nbt_string_bytes(name),
        None => Seq::<u8>::empty(),
    }) + entries_bytes(v.1) + seq![0u8]
}

impl McSerialize for NbtCompound {
    open spec fn spec_serialize(v: Self::V) -> Seq<u8> {
        spec_compound_bytes(v)
    }

    /// Every name fits its length field and every value can be written.
    open spec fn spec_can_serialize(v: Self::V) -> bool {
        &&& entries_wf(v.1)
        &&& v.0 matches Some(name) ==> encode_utf8(name).len() <= u16::MAX
    }

    fn mc_serialize(&self, serializer: &mut McSerializer) -> (r: Result<(), SerializingErr>) {
        serializer.serialize_u8(10);
        match &self.root_name {
            Some(name) => {
                write_nbt_string(name, serializer);
            },
            None => {},
        }
        write_entries(self, serializer);
        Ok(())
    }
}

impl McDeserialize for NbtCompound {
    /// The tag type 10, then the entries up to the closing 0; the root has no name on the
    /// network, so none is read.
    open spec fn spec_deserialize(s: Seq<u8>) -> ParseResult<Self::V> {
        if s.len() == 0 {
            Err(ErrKind::InputEnded)
        } else if s[0] != 10 {
            Err(ErrKind::DeserializationError)
        } else {
            match parse_entries(s.skip(1)) {
                Ok((es, n)) => Ok(((None, es), 1 + n)),
                Err(e) => Err(e),
            }
        }
    }

    proof fn lemma_deserialize_len(s: Seq<u8>) {
        if s.len() > 0 {
            lemma_entries_len(s.skip(1));
        }
    }

    fn mc_deserialize(deserializer: &mut McDeserializer) -> (r: Result<NbtCompound, SerializingErr>) {
        let ghost d0 = *deserializer;
        let typ = deserializer.pop_u8()?;
        if typ != 10 {
            return Err(SerializingErr::DeserializationError("NBT data must start with a compound tag".to_string()));
        }
        proof {
            lemma_remaining_advance(d0, *deserializer, 1);
        }
        let budget = Ghost(deserializer.remaining().len());
        read_entries(deserializer, budget)
    }
}

impl McRoundTrip for NbtCompound {
    /// The root has no name, as on the network.
    open spec fn spec_well_formed(v: Self::V) -> bool {
        v.0 is None
    }

    proof fn lemma_round_trip(v: Self::V, rest: Seq<u8>) {
        let s = spec_compound_bytes(v) + rest;
        assert(s == seq![10u8] + (entries_bytes(v.1) + seq![0u8] + rest));
        assert(s.skip(1) == entries_bytes(v.1) + seq![0u8] + rest);
        lemma_entries_round_trip(v.1, rest);
    }
}

/// The value of the first entry named `name`, if there is one.
pub open spec fn spec_lookup(es: Seq<(Seq<char>, NbtValue)>, name: Seq<char>) -> Option<NbtValue> {
    let i = spec_find_name(es, name);
    if i < es.len() {
        Some(es[i as int].1)
    } else {
        None
    }
}

/// After a name is set, looking it up gives the value set, and looking up any other name gives
/// what it gave before.
pub proof fn lemma_lookup_insert(es: Seq<(Seq<char>, NbtValue)>, name: Seq<char>, v: NbtValue, other: Seq<char>)
    ensures
        spec_lookup(spec_insert(es, name, v), other) == if other == name { Some(v) } else { spec_lookup(es, other) },
{
    lemma_get_after_add(es, name, v);
    if other != name {
        lemma_find_name_bound(es, name);
        lemma_find_name_bound(es, other);
        lemma_find_first(es, other);
        let i = spec_find_name(es, name);
        let k = spec_find_name(es, other);
        let es2 = spec_insert(es, name, v);
        if k < es.len() {
            assert forall|j: int| 0 <= j < k implies (#[trigger] es2[j]).0 != other by {
                if j == i {
                    assert(es2[j].0 == name);
                } else {
                    assert(es2[j] == es[j]);
                }
            }
            if k == i {
                assert(es[k as int].0 == name);
            }
            assert(es2[k as int] == es[k as int]);
            lemma_find_name(es2, other, k as int);
        } else {
            assert forall|j: int| 0 <= j < es2.len() implies (#[trigger] es2[j]).0 != other by {
                if j < es.len() && j != i {
                    assert(es2[j] == es[j]);
                }
            }
            lemma_find_name(es2, other, es2.len() as int);
        }
    }
}

} // verus!
