//! The byte-level serializer and deserializer that every wire format of the protocol is built on,
//! together with the traits that tie each type to its specified encoding.

pub mod fields;
pub mod primitives;
pub mod serializer_types;
pub mod strings;
pub mod var_int;

use vstd::prelude::*;

verus! {

/// Anything that can go wrong while turning values into bytes or bytes into values.
#[derive(Debug, Clone, PartialEq, Eq)]
pub enum SerializingErr {
    InvalidEndOfVarInt,
    VarTypeTooLong(String),
    CouldNotDeserializeString,
    InputEnded,
    LeftoverInput,
    UnknownFailure,
    UniqueFailure(String),
    InvalidPacketState,
    InvalidEnumValue(i8),
    InvalidBitsPerEntry,
    OutOfBounds(String),
    DeserializationError(String),
    NbtMissingField(String),
}

/// The kind of a [`SerializingErr`], without its message. Contracts name errors by kind.
pub enum ErrKind {
    InvalidEndOfVarInt,
    VarTypeTooLong,
    CouldNotDeserializeString,
    InputEnded,
    LeftoverInput,
    UnknownFailure,
    UniqueFailure,
    InvalidPacketState,
    InvalidEnumValue(i8),
    InvalidBitsPerEntry,
    OutOfBounds,
    DeserializationError,
    NbtMissingField,
}

impl SerializingErr {
    pub open spec fn kind(&self) -> ErrKind {
        match self {
            SerializingErr::InvalidEndOfVarInt => ErrKind::InvalidEndOfVarInt,
            SerializingErr::VarTypeTooLong(_) => ErrKind::VarTypeTooLong,
            SerializingErr::CouldNotDeserializeString => ErrKind::CouldNotDeserializeString,
            SerializingErr::InputEnded => ErrKind::InputEnded,
            SerializingErr::LeftoverInput => ErrKind::LeftoverInput,
            SerializingErr::UnknownFailure => ErrKind::UnknownFailure,
            SerializingErr::UniqueFailure(_) => ErrKind::UniqueFailure,
            SerializingErr::InvalidPacketState => ErrKind::InvalidPacketState,
            SerializingErr::InvalidEnumValue(v) => ErrKind::InvalidEnumValue(*v),
            SerializingErr::InvalidBitsPerEntry => ErrKind::InvalidBitsPerEntry,
            SerializingErr::OutOfBounds(_) => ErrKind::OutOfBounds,
            SerializingErr::DeserializationError(_) => ErrKind::DeserializationError,
            SerializingErr::NbtMissingField(_) => ErrKind::NbtMissingField,
        }
    }
}

/// What a parse of some bytes gives: the value read and how many bytes it took, or the kind of
/// error met.
pub type ParseResult<V> = Result<(V, nat), ErrKind>;

/// Collects the bytes of serialized values, in the order they were written.
pub struct McSerializer {
    pub output: Vec<u8>,
}

impl McSerializer {
    pub fn new() -> (s: Self)
        ensures
            s.output@ == Seq::<u8>::empty(),
    {
        McSerializer { output: Vec::new() }
    }

    /// The bytes written so far.
    pub fn as_bytes(&self) -> (b: &[u8])
        ensures
            b@ == self.output@,
    {
        self.output.as_slice()
    }

    /// Append the output of another serializer.
    pub fn merge(&mut self, other: McSerializer)
        ensures
            final(self).output@ == old(self).output@ + other.output@,
    {
        let mut other = other;
        self.output.append(&mut other.output);
    }

    /// Append raw bytes.
    pub fn serialize_bytes(&mut self, bytes: &[u8])
        ensures
            final(self).output@ == old(self).output@ + bytes@,
    {
        let n = bytes.len();
        let mut i: usize = 0;
        while i < n
            invariant
                n == bytes@.len(),
                i <= n,
                self.output@ == old(self).output@ + bytes@.subrange(0, i as int),
            decreases n - i,
        {
            self.output.push(bytes[i]);
            i = i + 1;
            assert(bytes@.subrange(0, i as int) == bytes@.subrange(0, i - 1) + seq![bytes@[i - 1]]);
        }
        assert(bytes@.subrange(0, n as int) == bytes@);
    }

    /// Append one byte.
    pub fn serialize_u8(&mut self, b: u8)
        ensures
            final(self).output@ == old(self).output@.push(b),
    {
        self.output.push(b);
    }
}

/// Reads values out of a byte slice, front to back.
pub struct McDeserializer<'a> {
    pub data: &'a [u8],
    pub index: usize,
}

impl<'a> McDeserializer<'a> {
    pub fn new(data: &'a [u8]) -> (d: Self)
        ensures
            d.data@ == data@,
            d.index == 0,
            d.remaining() == data@,
    {
        let d = McDeserializer { data, index: 0 };
        assert(data@.subrange(0, data@.len() as int) == data@);
        d
    }

    /// The bytes not yet read.
    pub open spec fn remaining(&self) -> Seq<u8> {
        if self.index <= self.data@.len() {
            self.data@.subrange(self.index as int, self.data@.len() as int)
        } else {
            Seq::<u8>::empty()
        }
    }

    /// Whether every byte has been read.
    pub fn is_at_end(&self) -> (b: bool)
        ensures
            b == (self.remaining().len() == 0),
    {
        self.index >= self.data.len()
    }

    /// Read one byte.
    pub fn pop_u8(&mut self) -> (r: Result<u8, SerializingErr>)
        ensures
            final(self).data@ == old(self).data@,
            old(self).remaining().len() == 0 ==> (r matches Err(e) && e.kind() == ErrKind::InputEnded),
            old(self).remaining().len() > 0 ==> r == Ok::<u8, SerializingErr>(old(self).remaining()[0])
                && final(self).index == old(self).index + 1,
    {
        if self.index < self.data.len() {
            let b = self.data[self.index];
            self.index = self.index + 1;
            Ok(b)
        } else {
            Err(SerializingErr::InputEnded)
        }
    }

    /// Read the next `n` bytes.
    pub fn take_bytes(&mut self, n: usize) -> (r: Result<&'a [u8], SerializingErr>)
        ensures
            final(self).data@ == old(self).data@,
            old(self).remaining().len() < n ==> (r matches Err(e) && e.kind() == ErrKind::InputEnded),
            old(self).remaining().len() >= n ==> (r matches Ok(b) && b@ == old(self).remaining().subrange(0, n as int)
                && final(self).index == old(self).index + n),
    {
        if self.index <= self.data.len() && n <= self.data.len() - self.index {
            let start = self.index;
            let b = &self.data[start..start + n];
            self.index = start + n;
            assert(b@ == old(self).remaining().subrange(0, n as int));
            Ok(b)
        } else if n == 0 {
            let b = &self.data[0..0];
            assert(b@ == old(self).remaining().subrange(0, 0));
            Ok(b)
        } else {
            Err(SerializingErr::InputEnded)
        }
    }

    /// Split off a deserializer over the next `n` bytes; this one moves past them.
    pub fn sub_deserializer_length(&mut self, n: usize) -> (r: Result<McDeserializer<'a>, SerializingErr>)
        ensures
            final(self).data@ == old(self).data@,
            old(self).remaining().len() < n ==> (r matches Err(e) && e.kind() == ErrKind::InputEnded),
            old(self).remaining().len() >= n ==> (r matches Ok(sub) && sub.remaining() == old(self).remaining().subrange(0, n as int)
                && sub.index == 0 && final(self).index == old(self).index + n),
    {
        match self.take_bytes(n) {
            Ok(b) => Ok(McDeserializer::new(b)),
            Err(e) => Err(e),
        }
    }
}

/// After reading `n` of the remaining bytes, the rest remain.
pub proof fn lemma_remaining_advance(before: McDeserializer, after: McDeserializer, n: nat)
    requires
        after.data@ == before.data@,
        after.index == before.index + n,
        n <= before.remaining().len(),
    ensures
        after.remaining() == before.remaining().skip(n as int),
{
    if before.index <= before.data@.len() {
        assert(after.remaining() =~= before.remaining().skip(n as int));
    } else {
        assert(after.remaining() =~= before.remaining().skip(n as int));
    }
}

/// How a deserializing call that started at `old_index` and left the deserializer at `new_index`
/// agrees with the specified parse `spec` of the bytes that were remaining.
pub open spec fn deserialized<T: DeepView>(
    spec: ParseResult<T::V>,
    old_index: usize,
    new_index: usize,
    r: Result<T, SerializingErr>,
) -> bool {
    match spec {
        Ok((v, n)) => r matches Ok(x) && x.deep_view() == v && new_index == old_index + n,
        Err(k) => r matches Err(e) && e.kind() == k,
    }
}

/// A type with a specified encoding on the wire.
pub trait McSerialize: DeepView + Sized {
    /// The bytes that stand for the value `v`.
    spec fn spec_serialize(v: <Self as DeepView>::V) -> Seq<u8>;

    /// Whether `v` can be written (some encodings carry a counter that must not overflow).
    spec fn spec_can_serialize(v: <Self as DeepView>::V) -> bool;

    fn mc_serialize(&self, serializer: &mut McSerializer) -> (r: Result<(), SerializingErr>)
        requires
            Self::spec_can_serialize(self.deep_view()),
        ensures
            r is Ok,
            final(serializer).output@ == old(serializer).output@ + Self::spec_serialize(self.deep_view()),
    ;
}

/// A type that can be read back from its encoding.
pub trait McDeserialize: DeepView + Sized {
    /// The parse of the bytes `s`: the value they begin with and its length, or the error met.
    spec fn spec_deserialize(s: Seq<u8>) -> ParseResult<<Self as DeepView>::V>;

    /// A parse never takes more bytes than there are.
    proof fn lemma_deserialize_len(s: Seq<u8>)
        ensures
            Self::spec_deserialize(s) matches Ok((v, n)) ==> n <= s.len(),
    ;

    fn mc_deserialize(deserializer: &mut McDeserializer) -> (r: Result<Self, SerializingErr>)
        ensures
            final(deserializer).data@ == old(deserializer).data@,
            deserialized(Self::spec_deserialize(old(deserializer).remaining()), old(deserializer).index, final(deserializer).index, r),
    ;
}

/// A type whose encoding reads back as the value that was written, whatever bytes follow it.
pub trait McRoundTrip: McSerialize + McDeserialize {
    /// Whether `v` keeps the invariants of its type. Only such values are promised to read back
    /// as they were written: a value that breaks them may be written, but reads back otherwise.
    spec fn spec_well_formed(v: <Self as DeepView>::V) -> bool;

    proof fn lemma_round_trip(v: <Self as DeepView>::V, rest: Seq<u8>)
        requires
            Self::spec_can_serialize(v),
            Self::spec_well_formed(v),
        ensures
            Self::spec_deserialize(Self::spec_serialize(v) + rest) == Ok::<(<Self as DeepView>::V, nat), ErrKind>((v, Self::spec_serialize(v).len())),
    ;
}

} // verus!
