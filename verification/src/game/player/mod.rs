//! Player state kept by the game.

use crate::protocol::serialization::{
    ErrKind, McDeserialize, McDeserializer, McRoundTrip, McSerialize, McSerializer, ParseResult,
    SerializingErr,
};
use vstd::prelude::*;

verus! {

/// A player's game mode, sent as a byte; -1 stands for none.
#[derive(Debug, Clone, Copy, PartialEq, Eq, Structural, Hash)]
pub enum PlayerGamemode {
    UNDEFINED,
    SURVIVAL,
    CREATIVE,
    ADVENTURE,
    SPECTATOR,
}

impl PlayerGamemode {
    /// The number that stands for this value on the wire.
    pub open spec fn spec_code(self) -> int {
        match self {
            PlayerGamemode::UNDEFINED => -1,
            PlayerGamemode::SURVIVAL => 0,
            PlayerGamemode::CREATIVE => 1,
            PlayerGamemode::ADVENTURE => 2,
            PlayerGamemode::SPECTATOR => 3,
        }
    }

    /// The value that the number `code` stands for, if any.
    pub open spec fn spec_from_code(code: int) -> Option<PlayerGamemode> {
        if code == -1 {
            Some(PlayerGamemode::UNDEFINED)
        } else if code == 0 {
            Some(PlayerGamemode::SURVIVAL)
        } else if code == 1 {
            Some(PlayerGamemode::CREATIVE)
        } else if code == 2 {
            Some(PlayerGamemode::ADVENTURE)
        } else if code == 3 {
            Some(PlayerGamemode::SPECTATOR)
        } else {
            None
        }
    }

    /// The number that stands for this value on the wire.
    pub fn code(&self) -> (c: i8)
        ensures
            c == self.spec_code(),
    {
        match self {
            PlayerGamemode::UNDEFINED => -1,
            PlayerGamemode::SURVIVAL => 0,
            PlayerGamemode::CREATIVE => 1,
            PlayerGamemode::ADVENTURE => 2,
            PlayerGamemode::SPECTATOR => 3,
        }
    }

    /// The value that the number `code` stands for, if any.
    pub fn from_code(code: i8) -> (r: Option<PlayerGamemode>)
        ensures
            r == PlayerGamemode::spec_from_code(code as int),
    {
        match code {
            -1 => Some(PlayerGamemode::UNDEFINED),
            0 => Some(PlayerGamemode::SURVIVAL),
            1 => Some(PlayerGamemode::CREATIVE),
            2 => Some(PlayerGamemode::ADVENTURE),
            3 => Some(PlayerGamemode::SPECTATOR),
            _ => None,
        }
    }
}

impl DeepView for PlayerGamemode {
    type V = PlayerGamemode;

    open spec fn deep_view(&self) -> PlayerGamemode {
        *self
    }
}

impl McSerialize for PlayerGamemode {
    open spec fn spec_serialize(v: PlayerGamemode) -> Seq<u8> {
        i8::spec_serialize(v.spec_code() as i8)
    }

    open spec fn spec_can_serialize(v: PlayerGamemode) -> bool {
        true
    }

    fn mc_serialize(&self, serializer: &mut McSerializer) -> (r: Result<(), SerializingErr>) {
        let _ = self.code().mc_serialize(serializer);
        Ok(())
    }
}

impl McDeserialize for PlayerGamemode {
    /// The number, then the value it stands for; an unknown number is refused.
    open spec fn spec_deserialize(s: Seq<u8>) -> ParseResult<PlayerGamemode> {
        match i8::spec_deserialize(s) {
            Ok((x, n)) => match PlayerGamemode::spec_from_code(x as int) {
                Some(v) => Ok((v, n)),
                None => Err(ErrKind::InvalidEnumValue(x as i8)),
            },
            Err(e) => Err(e),
        }
    }

    proof fn lemma_deserialize_len(s: Seq<u8>) {
        i8::lemma_deserialize_len(s);
    }

    fn mc_deserialize(deserializer: &mut McDeserializer) -> (r: Result<PlayerGamemode, SerializingErr>) {
        let code = i8::mc_deserialize(deserializer)?;
        match PlayerGamemode::from_code(code) {
            Some(v) => Ok(v),
            None => Err(SerializingErr::InvalidEnumValue(code as i8)),
        }
    }
}

impl McRoundTrip for PlayerGamemode {
    open spec fn spec_well_formed(v: PlayerGamemode) -> bool {
        true
    }

    proof fn lemma_round_trip(v: PlayerGamemode, rest: Seq<u8>) {
        i8::lemma_round_trip(v.spec_code() as i8, rest);
    }
}

} // verus!
