//! Packet parts about sounds.

use crate::protocol::serialization::serializer_types::{
    deserialize_option, serialize_option, spec_option_bytes, spec_option_parse, PrefixedArray,
    PrefixedOptional,
};
use crate::protocol::serialization::var_int::{
    lemma_varint_round_trip, read_varint, spec_varint_bytes, spec_varint_parse, write_varint, VarInt,
};
use crate::protocol::serialization::{
    lemma_remaining_advance, ErrKind, McDeserialize, McDeserializer, McRoundTrip, McSerialize, McSerializer, ParseResult,
    SerializingErr,
};
use vstd::prelude::*;

verus! {

/// One of the values of `SoundSource`, sent as a variable-length integer.
#[derive(Debug, Clone, Copy, PartialEq, Eq, Structural, Hash)]
pub enum SoundSource {
    Master,
    Music,
    Record,
    Weather,
    Block,
    Hostile,
    Neutral,
    Player,
    Ambient,
    Voice,
}

impl SoundSource {
    /// The number that stands for this value on the wire.
    pub open spec fn spec_code(self) -> int {
        match self {
            SoundSource::Master => 0,
            SoundSource::Music => 1,
            SoundSource::Record => 2,
            SoundSource::Weather => 3,
            SoundSource::Block => 4,
            SoundSource::Hostile => 5,
            SoundSource::Neutral => 6,
            SoundSource::Player => 7,
            SoundSource::Ambient => 8,
            SoundSource::Voice => 9,
        }
    }

    /// The value that the number `code` stands for, if any.
    pub open spec fn spec_from_code(code: int) -> Option<SoundSource> {
        if code == 0 {
            Some(SoundSource::Master)
        } else if code == 1 {
            Some(SoundSource::Music)
        } else if code == 2 {
            Some(SoundSource::Record)
        } else if code == 3 {
            Some(SoundSource::Weather)
        } else if code == 4 {
            Some(SoundSource::Block)
        } else if code == 5 {
            Some(SoundSource::Hostile)
        } else if code == 6 {
            Some(SoundSource::Neutral)
        } else if code == 7 {
            Some(SoundSource::Player)
        } else if code == 8 {
            Some(SoundSource::Ambient)
        } else if code == 9 {
            Some(SoundSource::Voice)
        } else {
            None
        }
    }

    /// The number that stands for this value on the wire.
    pub fn code(&self) -> (c: i32)
        ensures
            c == self.spec_code(),
    {
        match self {
            SoundSource::Master => 0,
            SoundSource::Music => 1,
            SoundSource::Record => 2,
            SoundSource::Weather => 3,
            SoundSource::Block => 4,
            SoundSource::Hostile => 5,
            SoundSource::Neutral => 6,
            SoundSource::Player => 7,
            SoundSource::Ambient => 8,
            SoundSource::Voice => 9,
        }
    }

    /// The value that the number `code` stands for, if any.
    pub fn from_code(code: i32) -> (r: Option<SoundSource>)
        ensures
            r == SoundSource::spec_from_code(code as int),
    {
        match code {
            0 => Some(SoundSource::Master),
            1 => Some(SoundSource::Music),
            2 => Some(SoundSource::Record),
            3 => Some(SoundSource::Weather),
            4 => Some(SoundSource::Block),
            5 => Some(SoundSource::Hostile),
            6 => Some(SoundSource::Neutral),
            7 => Some(SoundSource::Player),
            8 => Some(SoundSource::Ambient),
            9 => Some(SoundSource::Voice),
            _ => None,
        }
    }
}

impl DeepView for SoundSource {
    type V = SoundSource;

    open spec fn deep_view(&self) -> SoundSource {
        *self
    }
}

impl McSerialize for SoundSource {
    open spec fn spec_serialize(v: SoundSource) -> Seq<u8> {
        spec_varint_bytes(v.spec_code() as i32)
    }

    open spec fn spec_can_serialize(v: SoundSource) -> bool {
        true
    }

    fn mc_serialize(&self, serializer: &mut McSerializer) -> (r: Result<(), SerializingErr>) {
        write_varint(&mut serializer.output, self.code());
        Ok(())
    }
}

impl McDeserialize for SoundSource {
    /// The number, then the value it stands for; an unknown number is refused.
    open spec fn spec_deserialize(s: Seq<u8>) -> ParseResult<SoundSource> {
        match spec_varint_parse(s) {
            Ok((x, n)) => match SoundSource::spec_from_code(x.0 as int) {
                Some(v) => Ok((v, n)),
                None => Err(ErrKind::InvalidEnumValue(x.0 as i8)),
            },
            Err(e) => Err(e),
        }
    }

    proof fn lemma_deserialize_len(s: Seq<u8>) {
        VarInt::lemma_deserialize_len(s);
    }

    fn mc_deserialize(deserializer: &mut McDeserializer) -> (r: Result<SoundSource, SerializingErr>) {
        let code = read_varint(deserializer)?.0;
        match SoundSource::from_code(code) {
            Some(v) => Ok(v),
            None => Err(SerializingErr::InvalidEnumValue(#[verifier::truncate] (code as i8))),
        }
    }
}

impl McRoundTrip for SoundSource {
    open spec fn spec_well_formed(v: SoundSource) -> bool {
        true
    }

    proof fn lemma_round_trip(v: SoundSource, rest: Seq<u8>) {
        lemma_varint_round_trip(v.spec_code() as i32, rest);
    }
}

/// Which parts a Stop Sound packet carries, one bit each in a byte.
#[derive(Debug, Clone, Copy, PartialEq, Eq, Structural, Hash)]
pub struct SoundControlFlags {
    pub source: bool,
    pub sound: bool,
}

impl DeepView for SoundControlFlags {
    type V = SoundControlFlags;

    open spec fn deep_view(&self) -> SoundControlFlags {
        *self
    }
}

impl SoundControlFlags {
    /// The byte that holds the flags: flag `i` in bit `i`, in the order the fields are declared.
    pub open spec fn spec_bits(v: SoundControlFlags) -> u8 {
        ((if v.source { 1u8 } else { 0u8 }) | (if v.sound { 2u8 } else { 0u8 })) as u8
    }

    /// The flags that the byte `b` holds; bits past the last flag are ignored.
    pub open spec fn spec_from_bits(b: u8) -> SoundControlFlags {
        SoundControlFlags { source: b & 1u8 != 0, sound: b & 2u8 != 0 }
    }

    pub fn bits(&self) -> (b: u8)
        ensures
            b == SoundControlFlags::spec_bits(*self),
    {
        let x0: u8 = if self.source { 1u8 } else { 0u8 };
        let x1: u8 = if self.sound { 2u8 } else { 0u8 };
        let b: u8 = x0 | x1;
        b
    }

    pub fn new(source: bool, sound: bool) -> (v: SoundControlFlags)
        ensures
            v == (SoundControlFlags { source, sound }),
    {
        SoundControlFlags { source, sound }
    }

    pub fn source(&self) -> (b: bool)
        ensures
            b == self.source,
    {
        self.source
    }

    pub fn sound(&self) -> (b: bool)
        ensures
            b == self.sound,
    {
        self.sound
    }

    pub fn from_bits(b: u8) -> (v: SoundControlFlags)
        ensures
            v == SoundControlFlags::spec_from_bits(b),
    {
        SoundControlFlags { source: b & 1u8 != 0, sound: b & 2u8 != 0 }
    }
}

impl McSerialize for SoundControlFlags {
    open spec fn spec_serialize(v: SoundControlFlags) -> Seq<u8> {
        seq![SoundControlFlags::spec_bits(v)]
    }

    open spec fn spec_can_serialize(v: SoundControlFlags) -> bool {
        true
    }

    fn mc_serialize(&self, serializer: &mut McSerializer) -> (r: Result<(), SerializingErr>) {
        serializer.serialize_u8(self.bits());
        Ok(())
    }
}

impl McDeserialize for SoundControlFlags {
    open spec fn spec_deserialize(s: Seq<u8>) -> ParseResult<SoundControlFlags> {
        if s.len() == 0 {
            Err(ErrKind::InputEnded)
        } else {
            Ok((SoundControlFlags::spec_from_bits(s[0]), 1nat))
        }
    }

    proof fn lemma_deserialize_len(s: Seq<u8>) {
    }

    fn mc_deserialize(deserializer: &mut McDeserializer) -> (r: Result<SoundControlFlags, SerializingErr>) {
        let b = deserializer.pop_u8()?;
        Ok(SoundControlFlags::from_bits(b))
    }
}

impl McRoundTrip for SoundControlFlags {
    open spec fn spec_well_formed(v: SoundControlFlags) -> bool {
        true
    }

    proof fn lemma_round_trip(v: SoundControlFlags, rest: Seq<u8>) {
        let x0: u8 = if v.source { 1u8 } else { 0u8 };
        let x1: u8 = if v.sound { 2u8 } else { 0u8 };
        let b = SoundControlFlags::spec_bits(v);
        assert(b == (x0 | x1) as u8);
        assert(((b & 1u8 != 0) == (x0 == 1u8)) && ((b & 2u8 != 0) == (x1 == 2u8))) by (bit_vector)
            requires
                b == (x0 | x1) as u8,
                x0 == 0u8 || x0 == 1u8,
                x1 == 0u8 || x1 == 2u8,
        ;
        assert((seq![b] + rest)[0] == b);
    }
}

/// What a Stop Sound packet stops: sounds of a source, a named sound, both, or all sounds.
#[derive(Debug, Clone, PartialEq)]
pub struct StopSoundDetails {
    source: Option<SoundSource>,
    sound: Option<String>,
}

impl DeepView for StopSoundDetails {
    type V = (Option<SoundSource>, Option<Seq<char>>);

    closed spec fn deep_view(&self) -> Self::V {
        (self.source, self.sound.deep_view())
    }
}

impl StopSoundDetails {
    pub fn new(source: Option<SoundSource>, sound: Option<String>) -> (d: Self)
        ensures
            d.deep_view() == (source, sound.deep_view()),
    {
        StopSoundDetails { source, sound }
    }
}

impl McSerialize for StopSoundDetails {
    /// The flags saying which parts are there, then the parts that are.
    open spec fn spec_serialize(v: Self::V) -> Seq<u8> {
        SoundControlFlags::spec_serialize(SoundControlFlags { source: v.0 is Some, sound: v.1 is Some })
            + spec_option_bytes::<SoundSource>(v.0) + spec_option_bytes::<String>(v.1)
    }

    open spec fn spec_can_serialize(v: Self::V) -> bool {
        v.1 matches Some(x) ==> String::spec_can_serialize(x)
    }

    fn mc_serialize(&self, serializer: &mut McSerializer) -> (r: Result<(), SerializingErr>) {
        let flags = SoundControlFlags::new(self.source.is_some(), self.sound.is_some());
        let _ = flags.mc_serialize(serializer);
        serialize_option(&self.source, serializer);
        serialize_option(&self.sound, serializer);
        Ok(())
    }
}

impl McDeserialize for StopSoundDetails {
    open spec fn spec_deserialize(s: Seq<u8>) -> ParseResult<Self::V> {
        match SoundControlFlags::spec_deserialize(s) {
            Ok((f, n1)) => match spec_option_parse::<SoundSource>(s.skip(n1 as int), f.source) {
                Ok((source, n2)) => match spec_option_parse::<String>(s.skip((n1 + n2) as int), f.sound) {
                    Ok((sound, n3)) => Ok(((source, sound), n1 + n2 + n3)),
                    Err(e) => Err(e),
                },
                Err(e) => Err(e),
            },
            Err(e) => Err(e),
        }
    }

    proof fn lemma_deserialize_len(s: Seq<u8>) {
        if let Ok((f, n1)) = SoundControlFlags::spec_deserialize(s) {
            SoundSource::lemma_deserialize_len(s.skip(n1 as int));
            if let Ok((source, n2)) = spec_option_parse::<SoundSource>(s.skip(n1 as int), f.source) {
                String::lemma_deserialize_len(s.skip((n1 + n2) as int));
            }
        }
    }

    fn mc_deserialize(deserializer: &mut McDeserializer) -> (r: Result<StopSoundDetails, SerializingErr>) {
        let ghost d0 = *deserializer;
        let flags = SoundControlFlags::mc_deserialize(deserializer)?;
        let ghost d1 = *deserializer;
        proof {
            lemma_remaining_advance(d0, d1, 1);
        }
        let source = deserialize_option::<SoundSource>(deserializer, flags.source())?;
        proof {
            SoundSource::lemma_deserialize_len(d1.remaining());
            lemma_remaining_advance(d1, *deserializer, (deserializer.index - d1.index) as nat);
            assert(d1.remaining().skip((deserializer.index - d1.index) as int) == d0.remaining().skip(deserializer.index - d0.index));
        }
        let sound = deserialize_option::<String>(deserializer, flags.sound())?;
        Ok(StopSoundDetails { source, sound })
    }
}

impl McRoundTrip for StopSoundDetails {
    open spec fn spec_well_formed(v: Self::V) -> bool {
        true
    }

    proof fn lemma_round_trip(v: Self::V, rest: Seq<u8>) {
        let f = SoundControlFlags { source: v.0 is Some, sound: v.1 is Some };
        let fb = SoundControlFlags::spec_serialize(f);
        let sb = spec_option_bytes::<SoundSource>(v.0);
        let nb = spec_option_bytes::<String>(v.1);
        let s = Self::spec_serialize(v) + rest;
        assert(s == fb + (sb + (nb + rest)));
        SoundControlFlags::lemma_round_trip(f, sb + (nb + rest));
        assert(s.skip(fb.len() as int) == sb + (nb + rest));
        if let Some(x) = v.0 {
            SoundSource::lemma_round_trip(x, nb + rest);
        } else {
            assert(sb + (nb + rest) == nb + rest);
        }
        assert(s.skip((fb.len() + sb.len()) as int) == nb + rest);
        if let Some(x) = v.1 {
            String::lemma_round_trip(x, rest);
        }
    }
}

} // verus!
