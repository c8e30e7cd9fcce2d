//! Types that item components are made of.

use crate::protocol::serialization::var_int::{
    lemma_varint_round_trip, read_varint, spec_varint_bytes, spec_varint_parse, write_varint, VarInt,
};
use crate::protocol::serialization::{
    ErrKind, McDeserialize, McDeserializer, McRoundTrip, McSerialize, McSerializer, ParseResult,
    SerializingErr,
};
use vstd::prelude::*;

verus! {

/// The message for an unknown dye color number, formatted by std's `format!`.
#[verifier::external_body]
fn dye_color_message(id: i32) -> String {
    format!("Invalid DyeColor id: {}", id)
}

/// One of the sixteen dye colors, by its number.
#[derive(Debug, Clone, Copy, PartialEq, Eq, Structural, Hash)]
pub enum DyeColor {
    White,
    Orange,
    Magenta,
    LightBlue,
    Yellow,
    Lime,
    Pink,
    Gray,
    LightGray,
    Cyan,
    Purple,
    Blue,
    Brown,
    Green,
    Red,
    Black,
}

impl DyeColor {
    /// The number that stands for this value on the wire.
    pub open spec fn spec_code(self) -> int {
        match self {
            DyeColor::White => 0,
            DyeColor::Orange => 1,
            DyeColor::Magenta => 2,
            DyeColor::LightBlue => 3,
            DyeColor::Yellow => 4,
            DyeColor::Lime => 5,
            DyeColor::Pink => 6,
            DyeColor::Gray => 7,
            DyeColor::LightGray => 8,
            DyeColor::Cyan => 9,
            DyeColor::Purple => 10,
            DyeColor::Blue => 11,
            DyeColor::Brown => 12,
            DyeColor::Green => 13,
            DyeColor::Red => 14,
            DyeColor::Black => 15,
        }
    }

    /// The value that the number `code` stands for, if any.
    pub open spec fn spec_from_code(code: int) -> Option<DyeColor> {
        if code == 0 {
            Some(DyeColor::White)
        } else if code == 1 {
            Some(DyeColor::Orange)
        } else if code == 2 {
            Some(DyeColor::Magenta)
        } else if code == 3 {
            Some(DyeColor::LightBlue)
        } else if code == 4 {
            Some(DyeColor::Yellow)
        } else if code == 5 {
            Some(DyeColor::Lime)
        } else if code == 6 {
            Some(DyeColor::Pink)
        } else if code == 7 {
            Some(DyeColor::Gray)
        } else if code == 8 {
            Some(DyeColor::LightGray)
        } else if code == 9 {
            Some(DyeColor::Cyan)
        } else if code == 10 {
            Some(DyeColor::Purple)
        } else if code == 11 {
            Some(DyeColor::Blue)
        } else if code == 12 {
            Some(DyeColor::Brown)
        } else if code == 13 {
            Some(DyeColor::Green)
        } else if code == 14 {
            Some(DyeColor::Red)
        } else if code == 15 {
            Some(DyeColor::Black)
        } else {
            None
        }
    }

    /// The number that stands for this value on the wire.
    pub fn code(&self) -> (c: i32)
        ensures
            c == self.spec_code(),
    {
        match self {
            DyeColor::White => 0,
            DyeColor::Orange => 1,
            DyeColor::Magenta => 2,
            DyeColor::LightBlue => 3,
            DyeColor::Yellow => 4,
            DyeColor::Lime => 5,
            DyeColor::Pink => 6,
            DyeColor::Gray => 7,
            DyeColor::LightGray => 8,
            DyeColor::Cyan => 9,
            DyeColor::Purple => 10,
            DyeColor::Blue => 11,
            DyeColor::Brown => 12,
            DyeColor::Green => 13,
            DyeColor::Red => 14,
            DyeColor::Black => 15,
        }
    }

    /// The value that the number `code` stands for, if any.
    pub fn from_code(code: i32) -> (r: Option<DyeColor>)
        ensures
            r == DyeColor::spec_from_code(code as int),
    {
        match code {
            0 => Some(DyeColor::White),
            1 => Some(DyeColor::Orange),
            2 => Some(DyeColor::Magenta),
            3 => Some(DyeColor::LightBlue),
            4 => Some(DyeColor::Yellow),
            5 => Some(DyeColor::Lime),
            6 => Some(DyeColor::Pink),
            7 => Some(DyeColor::Gray),
            8 => Some(DyeColor::LightGray),
            9 => Some(DyeColor::Cyan),
            10 => Some(DyeColor::Purple),
            11 => Some(DyeColor::Blue),
            12 => Some(DyeColor::Brown),
            13 => Some(DyeColor::Green),
            14 => Some(DyeColor::Red),
            15 => Some(DyeColor::Black),
            _ => None,
        }
    }
}

impl DeepView for DyeColor {
    type V = DyeColor;

    open spec fn deep_view(&self) -> DyeColor {
        *self
    }
}

impl McSerialize for DyeColor {
    open spec fn spec_serialize(v: DyeColor) -> Seq<u8> {
        spec_varint_bytes(v.spec_code() as i32)
    }

    open spec fn spec_can_serialize(v: DyeColor) -> bool {
        true
    }

    fn mc_serialize(&self, serializer: &mut McSerializer) -> (r: Result<(), SerializingErr>) {
        write_varint(&mut serializer.output, self.code());
        Ok(())
    }
}

impl McDeserialize for DyeColor {
    /// The number, then the color it stands for; an unknown number is refused as undecodable.
    open spec fn spec_deserialize(s: Seq<u8>) -> ParseResult<DyeColor> {
        match spec_varint_parse(s) {
            Ok((x, n)) => match DyeColor::spec_from_code(x.0 as int) {
                Some(v) => Ok((v, n)),
                None => Err(ErrKind::DeserializationError),
            },
            Err(e) => Err(e),
        }
    }

    proof fn lemma_deserialize_len(s: Seq<u8>) {
        VarInt::lemma_deserialize_len(s);
    }

    fn mc_deserialize(deserializer: &mut McDeserializer) -> (r: Result<DyeColor, SerializingErr>) {
        let code = read_varint(deserializer)?.0;
        match DyeColor::from_code(code) {
            Some(v) => Ok(v),
            None => Err(SerializingErr::DeserializationError(dye_color_message(code))),
        }
    }
}

impl McRoundTrip for DyeColor {
    open spec fn spec_well_formed(v: DyeColor) -> bool {
        true
    }

    proof fn lemma_round_trip(v: DyeColor, rest: Seq<u8>) {
        lemma_varint_round_trip(v.spec_code() as i32, rest);
    }
}

} // verus!
