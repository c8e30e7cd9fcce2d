//! Sequences and optional values: bare sequences (read until the input ends), sequences with a
//! length prefix, and optional values with a presence flag.

use crate::protocol::serialization::var_int::{
    lemma_varint_decode_len, lemma_varint_round_trip, read_varint, spec_varint_bytes,
    spec_varint_parse, write_varint, VarInt,
};
use crate::protocol::serialization::{
    deserialized, ErrKind, McDeserialize, McDeserializer, McRoundTrip, McSerialize, McSerializer,
    ParseResult, SerializingErr,
};
use vstd::prelude::*;

verus! {

/// The bytes of the values `s`, one after another.
pub open spec fn seq_serialize<T: McSerialize>(s: Seq<T::V>) -> Seq<u8>
    decreases s.len(),
{
    if s.len() == 0 {
        Seq::<u8>::empty()
    } else {
        seq_serialize::<T>(s.drop_last()) + T::spec_serialize(s.last())
    }
}

/// Every value of `s` can be written.
pub open spec fn seq_can_serialize<T: McSerialize>(s: Seq<T::V>) -> bool {
    forall|i: int| 0 <= i < s.len() ==> #[trigger] T::spec_can_serialize(s[i])
}

/// Every value of `s` keeps the invariants of its type.
pub open spec fn seq_well_formed<T: McRoundTrip>(s: Seq<T::V>) -> bool {
    forall|i: int| 0 <= i < s.len() ==> #[trigger] T::spec_well_formed(s[i])
}

/// The parse of `n` values, one after another, at the start of `s`.
pub open spec fn parse_n<T: McDeserialize>(s: Seq<u8>, n: nat) -> ParseResult<Seq<T::V>>
    decreases n,
{
    if n == 0 {
        Ok((Seq::<T::V>::empty(), 0nat))
    } else {
        match parse_n::<T>(s, (n - 1) as nat) {
            Ok((xs, k)) => match T::spec_deserialize(s.skip(k as int)) {
                Ok((x, m)) => Ok((xs.push(x), k + m)),
                Err(e) => Err(e),
            },
            Err(e) => Err(e),
        }
    }
}

/// The parse of values one after another until `s` is used up. A value that takes no bytes
/// would never use it up, and is refused.
pub open spec fn parse_all<T: McDeserialize>(s: Seq<u8>) -> ParseResult<Seq<T::V>>
    decreases s.len(),
{
    if s.len() == 0 {
        Ok((Seq::<T::V>::empty(), 0nat))
    } else {
        match T::spec_deserialize(s) {
            Ok((x, m)) => if m == 0 || m > s.len() {
                Err(ErrKind::UnknownFailure)
            } else {
                match parse_all::<T>(s.skip(m as int)) {
                    Ok((xs, k)) => Ok((seq![x] + xs, m + k)),
                    Err(e) => Err(e),
                }
            },
            Err(e) => Err(e),
        }
    }
}

pub proof fn lemma_parse_n_len<T: McDeserialize>(s: Seq<u8>, n: nat)
    ensures
        parse_n::<T>(s, n) matches Ok((xs, k)) ==> k <= s.len() && xs.len() == n,
    decreases n,
{
    if n > 0 {
        lemma_parse_n_len::<T>(s, (n - 1) as nat);
        if let Ok((xs, k)) = parse_n::<T>(s, (n - 1) as nat) {
            T::lemma_deserialize_len(s.skip(k as int));
        }
    }
}

pub proof fn lemma_parse_all_len<T: McDeserialize>(s: Seq<u8>)
    ensures
        parse_all::<T>(s) matches Ok((xs, k)) ==> k == s.len(),
    decreases s.len(),
{
    if s.len() > 0 {
        if let Ok((x, m)) = T::spec_deserialize(s) {
            if m > 0 && m <= s.len() {
                lemma_parse_all_len::<T>(s.skip(m as int));
            }
        }
    }
}

/// Once reading a run of values fails, reading a longer run fails the same way.
pub proof fn lemma_parse_n_err<T: McDeserialize>(s: Seq<u8>, i: nat, n: nat)
    requires
        i <= n,
        parse_n::<T>(s, i) is Err,
    ensures
        parse_n::<T>(s, n) == parse_n::<T>(s, i),
    decreases n - i,
{
    if i < n {
        lemma_parse_n_err::<T>(s, i, (n - 1) as nat);
    }
}

/// Reading `n` values back from the bytes of `n` values gives those values, whatever follows.
pub proof fn lemma_parse_n_round_trip<T: McRoundTrip>(xs: Seq<T::V>, rest: Seq<u8>)
    requires
        seq_can_serialize::<T>(xs),
        seq_well_formed::<T>(xs),
    ensures
        parse_n::<T>(seq_serialize::<T>(xs) + rest, xs.len()) == Ok::<(Seq<T::V>, nat), ErrKind>((xs, seq_serialize::<T>(xs).len())),
    decreases xs.len(),
{
    if xs.len() > 0 {
        let init = xs.drop_last();
        let last = xs.last();
        let tail = T::spec_serialize(last) + rest;
        assert(seq_can_serialize::<T>(init)) by {
            assert forall|i: int| 0 <= i < init.len() implies #[trigger] T::spec_can_serialize(init[i]) by {
                assert(init[i] == xs[i]);
            }
        }
        assert(seq_well_formed::<T>(init)) by {
            assert forall|i: int| 0 <= i < init.len() implies #[trigger] T::spec_well_formed(init[i]) by {
                assert(init[i] == xs[i]);
            }
        }
        assert(T::spec_can_serialize(xs[xs.len() - 1]));
        assert(T::spec_well_formed(xs[xs.len() - 1]));
        lemma_parse_n_round_trip::<T>(init, tail);
        assert(seq_serialize::<T>(xs) + rest == seq_serialize::<T>(init) + tail);
        let k = seq_serialize::<T>(init).len();
        assert((seq_serialize::<T>(init) + tail).skip(k as int) == tail);
        T::lemma_round_trip(last, rest);
        assert(seq_serialize::<T>(xs) == seq_serialize::<T>(init) + T::spec_serialize(last));
        assert(init.push(last) == xs);
        let S = seq_serialize::<T>(xs) + rest;
        assert(parse_n::<T>(S, (xs.len() - 1) as nat) == Ok::<(Seq<T::V>, nat), ErrKind>((init, k)));
        assert(S.skip(k as int) == tail);
        assert(T::spec_deserialize(S.skip(k as int)) == Ok::<(T::V, nat), ErrKind>((last, T::spec_serialize(last).len())));
        assert(k + T::spec_serialize(last).len() == seq_serialize::<T>(xs).len());
        assert(parse_n::<T>(S, xs.len()) == Ok::<(Seq<T::V>, nat), ErrKind>((init.push(last), k + T::spec_serialize(last).len())));
    } else {
        assert(xs =~= Seq::<T::V>::empty());
    }
}

/// The bytes of a sequence split after its first value.
pub proof fn lemma_seq_serialize_cons<T: McSerialize>(xs: Seq<T::V>)
    requires
        xs.len() > 0,
    ensures
        seq_serialize::<T>(xs) == T::spec_serialize(xs[0]) + seq_serialize::<T>(xs.drop_first()),
    decreases xs.len(),
{
    if xs.len() > 1 {
        lemma_seq_serialize_cons::<T>(xs.drop_last());
        assert(xs.drop_last().drop_first() == xs.drop_first().drop_last());
        assert(xs.drop_first().last() == xs.last());
    } else {
        assert(xs.drop_first() =~= Seq::<T::V>::empty());
        assert(xs.drop_last() =~= Seq::<T::V>::empty());
    }
}

/// Reading values until the end, from the bytes of values that each take at least one byte,
/// gives those values.
pub proof fn lemma_parse_all_round_trip<T: McRoundTrip>(xs: Seq<T::V>)
    requires
        seq_can_serialize::<T>(xs),
        seq_well_formed::<T>(xs),
        forall|i: int| 0 <= i < xs.len() ==> T::spec_serialize(#[trigger] xs[i]).len() > 0,
    ensures
        parse_all::<T>(seq_serialize::<T>(xs)) == Ok::<(Seq<T::V>, nat), ErrKind>((xs, seq_serialize::<T>(xs).len())),
    decreases xs.len(),
{
    if xs.len() > 0 {
        let tail = xs.drop_first();
        lemma_seq_serialize_cons::<T>(xs);
        let first = T::spec_serialize(xs[0]);
        let rest = seq_serialize::<T>(tail);
        assert(T::spec_can_serialize(xs[0]));
        assert(T::spec_well_formed(xs[0]));
        T::lemma_round_trip(xs[0], rest);
        assert(first.len() > 0);
        assert((first + rest).skip(first.len() as int) == rest);
        assert(seq_can_serialize::<T>(tail)) by {
            assert forall|i: int| 0 <= i < tail.len() implies #[trigger] T::spec_can_serialize(tail[i]) by {
                assert(tail[i] == xs[i + 1]);
            }
        }
        assert(seq_well_formed::<T>(tail)) by {
            assert forall|i: int| 0 <= i < tail.len() implies #[trigger] T::spec_well_formed(tail[i]) by {
                assert(tail[i] == xs[i + 1]);
            }
        }
        assert forall|i: int| 0 <= i < tail.len() implies T::spec_serialize(#[trigger] tail[i]).len() > 0 by {
            assert(tail[i] == xs[i + 1]);
        }
        lemma_parse_all_round_trip::<T>(tail);
        assert(seq![xs[0]] + tail == xs);
        let s = seq_serialize::<T>(xs);
        assert(s == first + rest);
        assert(T::spec_deserialize(s) == Ok::<(T::V, nat), ErrKind>((xs[0], first.len())));
        assert(s.skip(first.len() as int) == rest);
        assert(parse_all::<T>(s.skip(first.len() as int)) == Ok::<(Seq<T::V>, nat), ErrKind>((tail, rest.len())));
        assert(s.len() > 0);
        assert(parse_all::<T>(s) == Ok::<(Seq<T::V>, nat), ErrKind>((seq![xs[0]] + tail, first.len() + rest.len())));
    } else {
        assert(seq_serialize::<T>(xs) =~= Seq::<u8>::empty());
        assert(xs =~= Seq::<T::V>::empty());
    }
}

/// A parse of the rest of some bytes, seen from their start: `prefix` was read first, taking
/// `consumed` bytes.
pub open spec fn prepend_parse<V>(prefix: Seq<V>, consumed: nat, r: ParseResult<Seq<V>>) -> ParseResult<Seq<V>> {
    match r {
        Ok((xs, k)) => Ok((prefix + xs, consumed + k)),
        Err(e) => Err(e),
    }
}

/// Write the values of `v`, one after another.
pub fn serialize_all<T: McSerialize>(v: &Vec<T>, serializer: &mut McSerializer)
    requires
        seq_can_serialize::<T>(v.deep_view()),
    ensures
        final(serializer).output@ == old(serializer).output@ + seq_serialize::<T>(v.deep_view()),
{
    let n = v.len();
    let mut i: usize = 0;
    while i < n
        invariant
            n == v.len(),
            i <= n,
            seq_can_serialize::<T>(v.deep_view()),
            serializer.output@ == old(serializer).output@ + seq_serialize::<T>(v.deep_view().take(i as int)),
        decreases n - i,
    {
        let ghost before = serializer.output@;
        assert(T::spec_can_serialize(v.deep_view()[i as int]));
        let _ = v[i].mc_serialize(serializer);
        proof {
            let t = v.deep_view().take(i + 1);
            assert(t.drop_last() == v.deep_view().take(i as int));
            assert(t.last() == v[i as int].deep_view());
        }
        i = i + 1;
    }
    assert(v.deep_view().take(n as int) == v.deep_view());
}

/// Read `n` values, one after another.
pub fn deserialize_n<T: McDeserialize>(d: &mut McDeserializer, n: usize) -> (r: Result<Vec<T>, SerializingErr>)
    ensures
        final(d).data@ == old(d).data@,
        deserialized(parse_n::<T>(old(d).remaining(), n as nat), old(d).index, final(d).index, r),
{
    let ghost s = d.remaining();
    let mut out: Vec<T> = Vec::new();
    let mut i: usize = 0;
    assert(out.deep_view() =~= Seq::<T::V>::empty());
    assert(s.skip(0) == s);
    while i < n
        invariant
            d.data@ == old(d).data@,
            s == old(d).remaining(),
            i <= n,
            parse_n::<T>(s, i as nat) == Ok::<(Seq<T::V>, nat), ErrKind>((out.deep_view(), (d.index - old(d).index) as nat)),
            old(d).index <= d.index,
            d.remaining() == s.skip(d.index - old(d).index),
        decreases n - i,
    {
        proof {
            lemma_parse_n_len::<T>(s, i as nat);
        }
        let ghost k = (d.index - old(d).index) as nat;
        let ghost before = out.deep_view();
        let x = match T::mc_deserialize(d) {
            Ok(x) => x,
            Err(e) => {
                proof {
                    lemma_parse_n_err::<T>(s, (i + 1) as nat, n as nat);
                }
                return Err(e);
            },
        };
        proof {
            T::lemma_deserialize_len(s.skip(k as int));
        }
        out.push(x);
        i = i + 1;
        proof {
            assert(out.deep_view() == before.push(x.deep_view()));
            assert(d.remaining() == s.skip(d.index - old(d).index));
        }
    }
    Ok(out)
}

/// Read values one after another until the input is used up.
pub fn deserialize_all<T: McDeserialize>(d: &mut McDeserializer) -> (r: Result<Vec<T>, SerializingErr>)
    ensures
        final(d).data@ == old(d).data@,
        deserialized(parse_all::<T>(old(d).remaining()), old(d).index, final(d).index, r),
{
    let ghost s = d.remaining();
    let mut out: Vec<T> = Vec::new();
    while !d.is_at_end()
        invariant
            d.data@ == old(d).data@,
            s == old(d).remaining(),
            old(d).index <= d.index,
            d.index - old(d).index <= s.len(),
            d.remaining() == s.skip(d.index - old(d).index),
            parse_all::<T>(s) == prepend_parse(out.deep_view(), (d.index - old(d).index) as nat, parse_all::<T>(d.remaining())),
        decreases d.remaining().len(),
    {
        let ghost rest = d.remaining();
        let start = d.index;
        let ghost before = out.deep_view();
        let x = T::mc_deserialize(d)?;
        proof {
            T::lemma_deserialize_len(rest);
        }
        if d.index == start {
            return Err(SerializingErr::UnknownFailure);
        }
        out.push(x);
        proof {
            let m = (d.index - start) as nat;
            assert(out.deep_view() == before + seq![x.deep_view()]);
            assert(d.remaining() == rest.skip(m as int));
            assert(d.remaining() == s.skip(d.index - old(d).index));
            match parse_all::<T>(rest.skip(m as int)) {
                Ok((xs, k)) => {
                    assert(before + (seq![x.deep_view()] + xs) == out.deep_view() + xs);
                },
                Err(e) => {},
            }
        }
    }
    proof {
        assert(d.remaining().len() == 0);
        assert(out.deep_view() + Seq::<T::V>::empty() == out.deep_view());
    }
    Ok(out)
}

impl<T: McSerialize> McSerialize for Vec<T> {
    open spec fn spec_serialize(v: Seq<T::V>) -> Seq<u8> {
        seq_serialize::<T>(v)
    }

    open spec fn spec_can_serialize(v: Seq<T::V>) -> bool {
        seq_can_serialize::<T>(v)
    }

    fn mc_serialize(&self, serializer: &mut McSerializer) -> (r: Result<(), SerializingErr>) {
        serialize_all(self, serializer);
        Ok(())
    }
}

impl<T: McDeserialize> McDeserialize for Vec<T> {
    open spec fn spec_deserialize(s: Seq<u8>) -> ParseResult<Seq<T::V>> {
        parse_all::<T>(s)
    }

    proof fn lemma_deserialize_len(s: Seq<u8>) {
        lemma_parse_all_len::<T>(s);
        assert(Self::spec_deserialize(s) == parse_all::<T>(s));
    }

    fn mc_deserialize(deserializer: &mut McDeserializer) -> (r: Result<Vec<T>, SerializingErr>) {
        deserialize_all(deserializer)
    }
}

/// A sequence sent after its length, as a variable-length integer.
#[derive(Debug, Clone, PartialEq)]
pub struct PrefixedArray<T> {
    pub vec: Vec<T>,
}

impl<T> PrefixedArray<T> {
    pub fn new(vec: Vec<T>) -> (a: Self)
        ensures
            a.vec == vec,
    {
        PrefixedArray { vec }
    }
}

impl<T: DeepView> DeepView for PrefixedArray<T> {
    type V = Seq<T::V>;

    open spec fn deep_view(&self) -> Seq<T::V> {
        self.vec.deep_view()
    }
}

/// The bytes of a length-prefixed sequence.
pub open spec fn spec_prefixed_bytes<T: McSerialize>(v: Seq<T::V>) -> Seq<u8> {
    spec_varint_bytes(v.len() as i32) + seq_serialize::<T>(v)
}

/// The parse of a length-prefixed sequence.
pub open spec fn spec_prefixed_parse<T: McDeserialize>(s: Seq<u8>) -> ParseResult<Seq<T::V>> {
    match spec_varint_parse(s) {
        Err(k) => Err(k),
        Ok((len, n)) => if len.0 < 0 {
            Err(ErrKind::OutOfBounds)
        } else {
            match parse_n::<T>(s.skip(n as int), len.0 as nat) {
                Ok((xs, k)) => Ok((xs, n + k)),
                Err(e) => Err(e),
            }
        },
    }
}

impl<T: McSerialize> McSerialize for PrefixedArray<T> {
    open spec fn spec_serialize(v: Seq<T::V>) -> Seq<u8> {
        spec_prefixed_bytes::<T>(v)
    }

    open spec fn spec_can_serialize(v: Seq<T::V>) -> bool {
        v.len() <= i32::MAX && seq_can_serialize::<T>(v)
    }

    fn mc_serialize(&self, serializer: &mut McSerializer) -> (r: Result<(), SerializingErr>) {
        let len: usize = self.vec.len();
        write_varint(&mut serializer.output, len as i32);
        serialize_all(&self.vec, serializer);
        Ok(())
    }
}

impl<T: McDeserialize> McDeserialize for PrefixedArray<T> {
    open spec fn spec_deserialize(s: Seq<u8>) -> ParseResult<Seq<T::V>> {
        spec_prefixed_parse::<T>(s)
    }

    proof fn lemma_deserialize_len(s: Seq<u8>) {
        lemma_varint_decode_len(s, 5);
        match spec_varint_parse(s) {
            Ok((len, n)) => {
                assert(n <= s.len());
                if len.0 >= 0 {
                    lemma_parse_n_len::<T>(s.skip(n as int), len.0 as nat);
                    match parse_n::<T>(s.skip(n as int), len.0 as nat) {
                        Ok((xs, k)) => {
                            assert(n + k <= s.len());
                        },
                        Err(_) => {},
                    }
                }
            },
            Err(_) => {},
        }
        assert(Self::spec_deserialize(s) == spec_prefixed_parse::<T>(s));
    }

    fn mc_deserialize(deserializer: &mut McDeserializer) -> (r: Result<PrefixedArray<T>, SerializingErr>) {
        let ghost s = deserializer.remaining();
        proof {
            lemma_varint_decode_len(s, 5);
        }
        let len = read_varint(deserializer)?;
        if len.0 < 0 {
            return Err(SerializingErr::OutOfBounds("a sequence may not have a negative length".to_string()));
        }
        assert(deserializer.remaining() == s.skip(deserializer.index - old(deserializer).index));
        let vec = deserialize_n::<T>(deserializer, len.0 as usize)?;
        Ok(PrefixedArray { vec })
    }
}

impl<T: McRoundTrip> McRoundTrip for PrefixedArray<T> {
    open spec fn spec_well_formed(v: Seq<T::V>) -> bool {
        seq_well_formed::<T>(v)
    }

    proof fn lemma_round_trip(v: Seq<T::V>, rest: Seq<u8>) {
        assert(Self::spec_well_formed(v));
        assert(seq_well_formed::<T>(v));
        let body = seq_serialize::<T>(v) + rest;
        lemma_varint_round_trip(v.len() as i32, body);
        let s = spec_prefixed_bytes::<T>(v) + rest;
        assert(s == spec_varint_bytes(v.len() as i32) + body);
        assert(s.skip(spec_varint_bytes(v.len() as i32).len() as int) == body);
        lemma_parse_n_round_trip::<T>(v, rest);
    }
}

/// An optional value sent after a flag that says whether it is there.
#[derive(Debug, Clone, PartialEq)]
pub struct PrefixedOptional<T> {
    pub value: Option<T>,
}

impl<T> PrefixedOptional<T> {
    pub fn new(value: Option<T>) -> (o: Self)
        ensures
            o.value == value,
    {
        PrefixedOptional { value }
    }
}

impl<T: DeepView> DeepView for PrefixedOptional<T> {
    type V = Option<T::V>;

    open spec fn deep_view(&self) -> Option<T::V> {
        self.value.deep_view()
    }
}

/// The bytes of an optional value with its presence flag.
pub open spec fn spec_prefixed_optional_bytes<T: McSerialize>(v: Option<T::V>) -> Seq<u8> {
    match v {
        Some(x) => seq![1u8] + T::spec_serialize(x),
        None => seq![0u8],
    }
}

/// The parse of an optional value with its presence flag.
pub open spec fn spec_prefixed_optional_parse<T: McDeserialize>(s: Seq<u8>) -> ParseResult<Option<T::V>> {
    if s.len() == 0 {
        Err(ErrKind::InputEnded)
    } else if s[0] == 0 {
        Ok((None, 1nat))
    } else {
        match T::spec_deserialize(s.drop_first()) {
            Ok((x, n)) => Ok((Some(x), n + 1)),
            Err(e) => Err(e),
        }
    }
}

impl<T: McSerialize> McSerialize for PrefixedOptional<T> {
    open spec fn spec_serialize(v: Option<T::V>) -> Seq<u8> {
        spec_prefixed_optional_bytes::<T>(v)
    }

    open spec fn spec_can_serialize(v: Option<T::V>) -> bool {
        v matches Some(x) ==> T::spec_can_serialize(x)
    }

    fn mc_serialize(&self, serializer: &mut McSerializer) -> (r: Result<(), SerializingErr>) {
        match &self.value {
            Some(x) => {
                serializer.output.push(1u8);
                let _ = x.mc_serialize(serializer);
            },
            None => {
                serializer.output.push(0u8);
            },
        }
        Ok(())
    }
}

impl<T: McDeserialize> McDeserialize for PrefixedOptional<T> {
    open spec fn spec_deserialize(s: Seq<u8>) -> ParseResult<Option<T::V>> {
        spec_prefixed_optional_parse::<T>(s)
    }

    proof fn lemma_deserialize_len(s: Seq<u8>) {
        if s.len() > 0 {
            T::lemma_deserialize_len(s.drop_first());
        }
    }

    fn mc_deserialize(deserializer: &mut McDeserializer) -> (r: Result<PrefixedOptional<T>, SerializingErr>) {
        let ghost s = deserializer.remaining();
        let flag = deserializer.pop_u8()?;
        if flag == 0 {
            return Ok(PrefixedOptional { value: None });
        }
        assert(deserializer.remaining() == s.drop_first());
        let x = T::mc_deserialize(deserializer)?;
        Ok(PrefixedOptional { value: Some(x) })
    }
}

impl<T: McRoundTrip> McRoundTrip for PrefixedOptional<T> {
    open spec fn spec_well_formed(v: Option<T::V>) -> bool {
        v matches Some(x) ==> T::spec_well_formed(x)
    }

    proof fn lemma_round_trip(v: Option<T::V>, rest: Seq<u8>) {
        match v {
            Some(x) => {
                let s = seq![1u8] + T::spec_serialize(x) + rest;
                assert(s.drop_first() == T::spec_serialize(x) + rest);
                T::lemma_round_trip(x, rest);
            },
            None => {
                assert((seq![0u8] + rest)[0] == 0u8);
            },
        }
    }
}

/// The bytes of a value that is sent only when some earlier field says it is there: the value's
/// bytes when present, nothing otherwise.
pub open spec fn spec_option_bytes<T: McSerialize>(v: Option<T::V>) -> Seq<u8> {
    match v {
        Some(x) => T::spec_serialize(x),
        None => Seq::<u8>::empty(),
    }
}

/// Write a value sent only when present.
pub fn serialize_option<T: McSerialize>(v: &Option<T>, serializer: &mut McSerializer)
    requires
        v.deep_view() matches Some(x) ==> T::spec_can_serialize(x),
    ensures
        final(serializer).output@ == old(serializer).output@ + spec_option_bytes::<T>(v.deep_view()),
{
    match v {
        Some(x) => {
            let _ = x.mc_serialize(serializer);
        },
        None => {
            assert(old(serializer).output@ + Seq::<u8>::empty() == old(serializer).output@);
        },
    }
}

/// The parse of a value that is read only when `present`.
pub open spec fn spec_option_parse<T: McDeserialize>(s: Seq<u8>, present: bool) -> ParseResult<Option<T::V>> {
    if present {
        match T::spec_deserialize(s) {
            Ok((x, n)) => Ok((Some(x), n)),
            Err(e) => Err(e),
        }
    } else {
        Ok((None, 0nat))
    }
}

/// Read a value only when `present`.
pub fn deserialize_option<T: McDeserialize>(d: &mut McDeserializer, present: bool) -> (r: Result<Option<T>, SerializingErr>)
    ensures
        final(d).data@ == old(d).data@,
        deserialized(spec_option_parse::<T>(old(d).remaining(), present), old(d).index, final(d).index, r),
{
    if present {
        let x = T::mc_deserialize(d)?;
        Ok(Some(x))
    } else {
        Ok(None)
    }
}

} // verus!
