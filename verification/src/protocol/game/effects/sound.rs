//! Sound effects.

use crate::protocol::serialization::{
    ErrKind, McDeserialize, McDeserializer, McSerialize, McSerializer, ParseResult, SerializingErr,
};
use vstd::prelude::*;

verus! {

/// The category of a sound, which the client's volume settings act on.
#[derive(Debug, Clone, Copy, PartialEq, Eq, Structural, PartialOrd)]
pub enum SoundCategory {
    Master,
    Music,
    Records,
    Weather,
    Blocks,
    Hostile,
    Neutral,
    Player,
    Ambient,
    Voice,
}

impl SoundCategory {
    /// The number that stands for this value on the wire.
    pub open spec fn spec_code(self) -> int {
        match self {
            SoundCategory::Master => 0,
            SoundCategory::Music => 1,
            SoundCategory::Records => 2,
            SoundCategory::Weather => 3,
            SoundCategory::Blocks => 4,
            SoundCategory::Hostile => 5,
            SoundCategory::Neutral => 6,
            SoundCategory::Player => 7,
            SoundCategory::Ambient => 8,
            SoundCategory::Voice => 9,
        }
    }

    /// The value that the number `code` stands for, if any.
    pub open spec fn spec_from_code(code: int) -> Option<SoundCategory> {
        if code == 0 {
            Some(SoundCategory::Master)
        } else if code == 1 {
            Some(SoundCategory::Music)
        } else if code == 2 {
            Some(SoundCategory::Records)
        } else if code == 3 {
            Some(SoundCategory::Weather)
        } else if code == 4 {
            Some(SoundCategory::Blocks)
        } else if code == 5 {
            Some(SoundCategory::Hostile)
        } else if code == 6 {
            Some(SoundCategory::Neutral)
        } else if code == 7 {
            Some(SoundCategory::Player)
        } else if code == 8 {
            Some(SoundCategory::Ambient)
        } else if code == 9 {
            Some(SoundCategory::Voice)
        } else {
            None
        }
    }

    /// The number that stands for this value on the wire.
    pub fn code(&self) -> (c: u8)
        ensures
            c == self.spec_code(),
    {
        match self {
            SoundCategory::Master => 0,
            SoundCategory::Music => 1,
            SoundCategory::Records => 2,
            SoundCategory::Weather => 3,
            SoundCategory::Blocks => 4,
            SoundCategory::Hostile => 5,
            SoundCategory::Neutral => 6,
            SoundCategory::Player => 7,
            SoundCategory::Ambient => 8,
            SoundCategory::Voice => 9,
        }
    }

    /// The value that the number `code` stands for, if any.
    pub fn from_code(code: u8) -> (r: Option<SoundCategory>)
        ensures
            r == SoundCategory::spec_from_code(code as int),
    {
        match code {
            0 => Some(SoundCategory::Master),
            1 => Some(SoundCategory::Music),
            2 => Some(SoundCategory::Records),
            3 => Some(SoundCategory::Weather),
            4 => Some(SoundCategory::Blocks),
            5 => Some(SoundCategory::Hostile),
            6 => Some(SoundCategory::Neutral),
            7 => Some(SoundCategory::Player),
            8 => Some(SoundCategory::Ambient),
            9 => Some(SoundCategory::Voice),
            _ => None,
        }
    }
}

impl DeepView for SoundCategory {
    type V = SoundCategory;

    open spec fn deep_view(&self) -> SoundCategory {
        *self
    }
}

impl McSerialize for SoundCategory {
    /// The number of the category, as a 32-bit big-endian int. (It is read back as one byte.)
    open spec fn spec_serialize(v: SoundCategory) -> Seq<u8> {
        i32::spec_serialize(v.spec_code() as i32)
    }

    open spec fn spec_can_serialize(v: SoundCategory) -> bool {
        true
    }

    fn mc_serialize(&self, serializer: &mut McSerializer) -> (r: Result<(), SerializingErr>) {
        let code: i32 = self.code() as i32;
        let _ = code.mc_serialize(serializer);
        Ok(())
    }
}

impl McDeserialize for SoundCategory {
    /// The number, then the value it stands for; an unknown number is refused.
    open spec fn spec_deserialize(s: Seq<u8>) -> ParseResult<SoundCategory> {
        match u8::spec_deserialize(s) {
            Ok((x, n)) => match SoundCategory::spec_from_code(x as int) {
                Some(v) => Ok((v, n)),
                None => Err(ErrKind::InvalidEnumValue(x as i8)),
            },
            Err(e) => Err(e),
        }
    }

    proof fn lemma_deserialize_len(s: Seq<u8>) {
        u8::lemma_deserialize_len(s);
    }

    fn mc_deserialize(deserializer: &mut McDeserializer) -> (r: Result<SoundCategory, SerializingErr>) {
        let code = u8::mc_deserialize(deserializer)?;
        match SoundCategory::from_code(code) {
            Some(v) => Ok(v),
            None => Err(SerializingErr::InvalidEnumValue(#[verifier::truncate] (code as i8))),
        }
    }
}

} // verus!
