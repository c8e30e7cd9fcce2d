//! Packet parts of scoreboards and teams.

use crate::protocol::serialization::serializer_types::{PrefixedArray, PrefixedOptional};
use crate::protocol::serialization::var_int::{
    lemma_varint_round_trip, read_varint, spec_varint_bytes, spec_varint_parse, write_varint, VarInt,
};
use crate::protocol::serialization::{
    ErrKind, McDeserialize, McDeserializer, McRoundTrip, McSerialize, McSerializer, ParseResult,
    SerializingErr,
};
use vstd::prelude::*;

verus! {

/// One of the values of `ObjectiveType`, sent as a variable-length integer.
#[derive(Debug, Clone, Copy, PartialEq, Eq, Structural, Hash)]
pub enum ObjectiveType {
    Integer,
    Hearts,
}

impl ObjectiveType {
    /// The number that stands for this value on the wire.
    pub open spec fn spec_code(self) -> int {
        match self {
            ObjectiveType::Integer => 0,
            ObjectiveType::Hearts => 1,
        }
    }

    /// The value that the number `code` stands for, if any.
    pub open spec fn spec_from_code(code: int) -> Option<ObjectiveType> {
        if code == 0 {
            Some(ObjectiveType::Integer)
        } else if code == 1 {
            Some(ObjectiveType::Hearts)
        } else {
            None
        }
    }

    /// The number that stands for this value on the wire.
    pub fn code(&self) -> (c: i32)
        ensures
            c == self.spec_code(),
    {
        match self {
            ObjectiveType::Integer => 0,
            ObjectiveType::Hearts => 1,
        }
    }

    /// The value that the number `code` stands for, if any.
    pub fn from_code(code: i32) -> (r: Option<ObjectiveType>)
        ensures
            r == ObjectiveType::spec_from_code(code as int),
    {
        match code {
            0 => Some(ObjectiveType::Integer),
            1 => Some(ObjectiveType::Hearts),
            _ => None,
        }
    }
}

impl DeepView for ObjectiveType {
    type V = ObjectiveType;

    open spec fn deep_view(&self) -> ObjectiveType {
        *self
    }
}

impl McSerialize for ObjectiveType {
    open spec fn spec_serialize(v: ObjectiveType) -> Seq<u8> {
        spec_varint_bytes(v.spec_code() as i32)
    }

    open spec fn spec_can_serialize(v: ObjectiveType) -> bool {
        true
    }

    fn mc_serialize(&self, serializer: &mut McSerializer) -> (r: Result<(), SerializingErr>) {
        write_varint(&mut serializer.output, self.code());
        Ok(())
    }
}

impl McDeserialize for ObjectiveType {
    /// The number, then the value it stands for; an unknown number is refused.
    open spec fn spec_deserialize(s: Seq<u8>) -> ParseResult<ObjectiveType> {
        match spec_varint_parse(s) {
            Ok((x, n)) => match ObjectiveType::spec_from_code(x.0 as int) {
                Some(v) => Ok((v, n)),
                None => Err(ErrKind::InvalidEnumValue(x.0 as i8)),
            },
            Err(e) => Err(e),
        }
    }

    proof fn lemma_deserialize_len(s: Seq<u8>) {
        VarInt::lemma_deserialize_len(s);
    }

    fn mc_deserialize(deserializer: &mut McDeserializer) -> (r: Result<ObjectiveType, SerializingErr>) {
        let code = read_varint(deserializer)?.0;
        match ObjectiveType::from_code(code) {
            Some(v) => Ok(v),
            None => Err(SerializingErr::InvalidEnumValue(#[verifier::truncate] (code as i8))),
        }
    }
}

impl McRoundTrip for ObjectiveType {
    open spec fn spec_well_formed(v: ObjectiveType) -> bool {
        true
    }

    proof fn lemma_round_trip(v: ObjectiveType, rest: Seq<u8>) {
        lemma_varint_round_trip(v.spec_code() as i32, rest);
    }
}

/// One of the values of `NameTagVisibility`, sent as a variable-length integer.
#[derive(Debug, Clone, Copy, PartialEq, Eq, Structural, Hash)]
pub enum NameTagVisibility {
    Always,
    Never,
    HideForOtherTeams,
    HideForOwnTeams,
}

impl NameTagVisibility {
    /// The number that stands for this value on the wire.
    pub open spec fn spec_code(self) -> int {
        match self {
            NameTagVisibility::Always => 0,
            NameTagVisibility::Never => 1,
            NameTagVisibility::HideForOtherTeams => 2,
            NameTagVisibility::HideForOwnTeams => 3,
        }
    }

    /// The value that the number `code` stands for, if any.
    pub open spec fn spec_from_code(code: int) -> Option<NameTagVisibility> {
        if code == 0 {
            Some(NameTagVisibility::Always)
        } else if code == 1 {
            Some(NameTagVisibility::Never)
        } else if code == 2 {
            Some(NameTagVisibility::HideForOtherTeams)
        } else if code == 3 {
            Some(NameTagVisibility::HideForOwnTeams)
        } else {
            None
        }
    }

    /// The number that stands for this value on the wire.
    pub fn code(&self) -> (c: i32)
        ensures
            c == self.spec_code(),
    {
        match self {
            NameTagVisibility::Always => 0,
            NameTagVisibility::Never => 1,
            NameTagVisibility::HideForOtherTeams => 2,
            NameTagVisibility::HideForOwnTeams => 3,
        }
    }

    /// The value that the number `code` stands for, if any.
    pub fn from_code(code: i32) -> (r: Option<NameTagVisibility>)
        ensures
            r == NameTagVisibility::spec_from_code(code as int),
    {
        match code {
            0 => Some(NameTagVisibility::Always),
            1 => Some(NameTagVisibility::Never),
            2 => Some(NameTagVisibility::HideForOtherTeams),
            3 => Some(NameTagVisibility::HideForOwnTeams),
            _ => None,
        }
    }
}

impl DeepView for NameTagVisibility {
    type V = NameTagVisibility;

    open spec fn deep_view(&self) -> NameTagVisibility {
        *self
    }
}

impl McSerialize for NameTagVisibility {
    open spec fn spec_serialize(v: NameTagVisibility) -> Seq<u8> {
        spec_varint_bytes(v.spec_code() as i32)
    }

    open spec fn spec_can_serialize(v: NameTagVisibility) -> bool {
        true
    }

    fn mc_serialize(&self, serializer: &mut McSerializer) -> (r: Result<(), SerializingErr>) {
        write_varint(&mut serializer.output, self.code());
        Ok(())
    }
}

impl McDeserialize for NameTagVisibility {
    /// The number, then the value it stands for; an unknown number is refused.
    open spec fn spec_deserialize(s: Seq<u8>) -> ParseResult<NameTagVisibility> {
        match spec_varint_parse(s) {
            Ok((x, n)) => match NameTagVisibility::spec_from_code(x.0 as int) {
                Some(v) => Ok((v, n)),
                None => Err(ErrKind::InvalidEnumValue(x.0 as i8)),
            },
            Err(e) => Err(e),
        }
    }

    proof fn lemma_deserialize_len(s: Seq<u8>) {
        VarInt::lemma_deserialize_len(s);
    }

    fn mc_deserialize(deserializer: &mut McDeserializer) -> (r: Result<NameTagVisibility, SerializingErr>) {
        let code = read_varint(deserializer)?.0;
        match NameTagVisibility::from_code(code) {
            Some(v) => Ok(v),
            None => Err(SerializingErr::InvalidEnumValue(#[verifier::truncate] (code as i8))),
        }
    }
}

impl McRoundTrip for NameTagVisibility {
    open spec fn spec_well_formed(v: NameTagVisibility) -> bool {
        true
    }

    proof fn lemma_round_trip(v: NameTagVisibility, rest: Seq<u8>) {
        lemma_varint_round_trip(v.spec_code() as i32, rest);
    }
}

/// One of the values of `CollisionRule`, sent as a variable-length integer.
#[derive(Debug, Clone, Copy, PartialEq, Eq, Structural, Hash)]
pub enum CollisionRule {
    Always,
    Never,
    PushOtherTeams,
    PushOwnTeam,
}

impl CollisionRule {
    /// The number that stands for this value on the wire.
    pub open spec fn spec_code(self) -> int {
        match self {
            CollisionRule::Always => 0,
            CollisionRule::Never => 1,
            CollisionRule::PushOtherTeams => 2,
            CollisionRule::PushOwnTeam => 3,
        }
    }

    /// The value that the number `code` stands for, if any.
    pub open spec fn spec_from_code(code: int) -> Option<CollisionRule> {
        if code == 0 {
            Some(CollisionRule::Always)
        } else if code == 1 {
            Some(CollisionRule::Never)
        } else if code == 2 {
            Some(CollisionRule::PushOtherTeams)
        } else if code == 3 {
            Some(CollisionRule::PushOwnTeam)
        } else {
            None
        }
    }

    /// The number that stands for this value on the wire.
    pub fn code(&self) -> (c: i32)
        ensures
            c == self.spec_code(),
    {
        match self {
            CollisionRule::Always => 0,
            CollisionRule::Never => 1,
            CollisionRule::PushOtherTeams => 2,
            CollisionRule::PushOwnTeam => 3,
        }
    }

    /// The value that the number `code` stands for, if any.
    pub fn from_code(code: i32) -> (r: Option<CollisionRule>)
        ensures
            r == CollisionRule::spec_from_code(code as int),
    {
        match code {
            0 => Some(CollisionRule::Always),
            1 => Some(CollisionRule::Never),
            2 => Some(CollisionRule::PushOtherTeams),
            3 => Some(CollisionRule::PushOwnTeam),
            _ => None,
        }
    }
}

impl DeepView for CollisionRule {
    type V = CollisionRule;

    open spec fn deep_view(&self) -> CollisionRule {
        *self
    }
}

impl McSerialize for CollisionRule {
    open spec fn spec_serialize(v: CollisionRule) -> Seq<u8> {
        spec_varint_bytes(v.spec_code() as i32)
    }

    open spec fn spec_can_serialize(v: CollisionRule) -> bool {
        true
    }

    fn mc_serialize(&self, serializer: &mut McSerializer) -> (r: Result<(), SerializingErr>) {
        write_varint(&mut serializer.output, self.code());
        Ok(())
    }
}

impl McDeserialize for CollisionRule {
    /// The number, then the value it stands for; an unknown number is refused.
    open spec fn spec_deserialize(s: Seq<u8>) -> ParseResult<CollisionRule> {
        match spec_varint_parse(s) {
            Ok((x, n)) => match CollisionRule::spec_from_code(x.0 as int) {
                Some(v) => Ok((v, n)),
                None => Err(ErrKind::InvalidEnumValue(x.0 as i8)),
            },
            Err(e) => Err(e),
        }
    }

    proof fn lemma_deserialize_len(s: Seq<u8>) {
        VarInt::lemma_deserialize_len(s);
    }

    fn mc_deserialize(deserializer: &mut McDeserializer) -> (r: Result<CollisionRule, SerializingErr>) {
        let code = read_varint(deserializer)?.0;
        match CollisionRule::from_code(code) {
            Some(v) => Ok(v),
            None => Err(SerializingErr::InvalidEnumValue(#[verifier::truncate] (code as i8))),
        }
    }
}

impl McRoundTrip for CollisionRule {
    open spec fn spec_well_formed(v: CollisionRule) -> bool {
        true
    }

    proof fn lemma_round_trip(v: CollisionRule, rest: Seq<u8>) {
        lemma_varint_round_trip(v.spec_code() as i32, rest);
    }
}

/// One of the values of `TeamColor`, sent as a variable-length integer.
#[derive(Debug, Clone, Copy, PartialEq, Eq, Structural, Hash)]
pub enum TeamColor {
    Black,
    DarkBlue,
    DarkGreen,
    DarkAqua,
    DarkRed,
    DarkPurple,
    Gold,
    Gray,
    DarkGray,
    Blue,
    Green,
    Aqua,
    Red,
    LightPurple,
    Yellow,
    White,
    Obfuscated,
    Bold,
    Strikethrough,
    Underlined,
    Italic,
    Reset,
}

impl TeamColor {
    /// The number that stands for this value on the wire.
    pub open spec fn spec_code(self) -> int {
        match self {
            TeamColor::Black => 0,
            TeamColor::DarkBlue => 1,
            TeamColor::DarkGreen => 2,
            TeamColor::DarkAqua => 3,
            TeamColor::DarkRed => 4,
            TeamColor::DarkPurple => 5,
            TeamColor::Gold => 6,
            TeamColor::Gray => 7,
            TeamColor::DarkGray => 8,
            TeamColor::Blue => 9,
            TeamColor::Green => 10,
            TeamColor::Aqua => 11,
            TeamColor::Red => 12,
            TeamColor::LightPurple => 13,
            TeamColor::Yellow => 14,
            TeamColor::White => 15,
            TeamColor::Obfuscated => 16,
            TeamColor::Bold => 17,
            TeamColor::Strikethrough => 18,
            TeamColor::Underlined => 19,
            TeamColor::Italic => 20,
            TeamColor::Reset => 21,
        }
    }

    /// The value that the number `code` stands for, if any.
    pub open spec fn spec_from_code(code: int) -> Option<TeamColor> {
        if code == 0 {
            Some(TeamColor::Black)
        } else if code == 1 {
            Some(TeamColor::DarkBlue)
        } else if code == 2 {
            Some(TeamColor::DarkGreen)
        } else if code == 3 {
            Some(TeamColor::DarkAqua)
        } else if code == 4 {
            Some(TeamColor::DarkRed)
        } else if code == 5 {
            Some(TeamColor::DarkPurple)
        } else if code == 6 {
            Some(TeamColor::Gold)
        } else if code == 7 {
            Some(TeamColor::Gray)
        } else if code == 8 {
            Some(TeamColor::DarkGray)
        } else if code == 9 {
            Some(TeamColor::Blue)
        } else if code == 10 {
            Some(TeamColor::Green)
        } else if code == 11 {
            Some(TeamColor::Aqua)
        } else if code == 12 {
            Some(TeamColor::Red)
        } else if code == 13 {
            Some(TeamColor::LightPurple)
        } else if code == 14 {
            Some(TeamColor::Yellow)
        } else if code == 15 {
            Some(TeamColor::White)
        } else if code == 16 {
            Some(TeamColor::Obfuscated)
        } else if code == 17 {
            Some(TeamColor::Bold)
        } else if code == 18 {
            Some(TeamColor::Strikethrough)
        } else if code == 19 {
            Some(TeamColor::Underlined)
        } else if code == 20 {
            Some(TeamColor::Italic)
        } else if code == 21 {
            Some(TeamColor::Reset)
        } else {
            None
        }
    }

    /// The number that stands for this value on the wire.
    pub fn code(&self) -> (c: i32)
        ensures
            c == self.spec_code(),
    {
        match self {
            TeamColor::Black => 0,
            TeamColor::DarkBlue => 1,
            TeamColor::DarkGreen => 2,
            TeamColor::DarkAqua => 3,
            TeamColor::DarkRed => 4,
            TeamColor::DarkPurple => 5,
            TeamColor::Gold => 6,
            TeamColor::Gray => 7,
            TeamColor::DarkGray => 8,
            TeamColor::Blue => 9,
            TeamColor::Green => 10,
            TeamColor::Aqua => 11,
            TeamColor::Red => 12,
            TeamColor::LightPurple => 13,
            TeamColor::Yellow => 14,
            TeamColor::White => 15,
            TeamColor::Obfuscated => 16,
            TeamColor::Bold => 17,
            TeamColor::Strikethrough => 18,
            TeamColor::Underlined => 19,
            TeamColor::Italic => 20,
            TeamColor::Reset => 21,
        }
    }

    /// The value that the number `code` stands for, if any.
    pub fn from_code(code: i32) -> (r: Option<TeamColor>)
        ensures
            r == TeamColor::spec_from_code(code as int),
    {
        match code {
            0 => Some(TeamColor::Black),
            1 => Some(TeamColor::DarkBlue),
            2 => Some(TeamColor::DarkGreen),
            3 => Some(TeamColor::DarkAqua),
            4 => Some(TeamColor::DarkRed),
            5 => Some(TeamColor::DarkPurple),
            6 => Some(TeamColor::Gold),
            7 => Some(TeamColor::Gray),
            8 => Some(TeamColor::DarkGray),
            9 => Some(TeamColor::Blue),
            10 => Some(TeamColor::Green),
            11 => Some(TeamColor::Aqua),
            12 => Some(TeamColor::Red),
            13 => Some(TeamColor::LightPurple),
            14 => Some(TeamColor::Yellow),
            15 => Some(TeamColor::White),
            16 => Some(TeamColor::Obfuscated),
            17 => Some(TeamColor::Bold),
            18 => Some(TeamColor::Strikethrough),
            19 => Some(TeamColor::Underlined),
            20 => Some(TeamColor::Italic),
            21 => Some(TeamColor::Reset),
            _ => None,
        }
    }
}

impl DeepView for TeamColor {
    type V = TeamColor;

    open spec fn deep_view(&self) -> TeamColor {
        *self
    }
}

impl McSerialize for TeamColor {
    open spec fn spec_serialize(v: TeamColor) -> Seq<u8> {
        spec_varint_bytes(v.spec_code() as i32)
    }

    open spec fn spec_can_serialize(v: TeamColor) -> bool {
        true
    }

    fn mc_serialize(&self, serializer: &mut McSerializer) -> (r: Result<(), SerializingErr>) {
        write_varint(&mut serializer.output, self.code());
        Ok(())
    }
}

impl McDeserialize for TeamColor {
    /// The number, then the value it stands for; an unknown number is refused.
    open spec fn spec_deserialize(s: Seq<u8>) -> ParseResult<TeamColor> {
        match spec_varint_parse(s) {
            Ok((x, n)) => match TeamColor::spec_from_code(x.0 as int) {
                Some(v) => Ok((v, n)),
                None => Err(ErrKind::InvalidEnumValue(x.0 as i8)),
            },
            Err(e) => Err(e),
        }
    }

    proof fn lemma_deserialize_len(s: Seq<u8>) {
        VarInt::lemma_deserialize_len(s);
    }

    fn mc_deserialize(deserializer: &mut McDeserializer) -> (r: Result<TeamColor, SerializingErr>) {
        let code = read_varint(deserializer)?.0;
        match TeamColor::from_code(code) {
            Some(v) => Ok(v),
            None => Err(SerializingErr::InvalidEnumValue(#[verifier::truncate] (code as i8))),
        }
    }
}

impl McRoundTrip for TeamColor {
    open spec fn spec_well_formed(v: TeamColor) -> bool {
        true
    }

    proof fn lemma_round_trip(v: TeamColor, rest: Seq<u8>) {
        lemma_varint_round_trip(v.spec_code() as i32, rest);
    }
}

/// The friendly-fire flags of a team, one bit each in a byte.
#[derive(Debug, Clone, Copy, PartialEq, Eq, Structural, Hash)]
pub struct FriendlyFlags {
    pub allow_friendly_fire: bool,
    pub can_see_invisble_teammates: bool,
}

impl DeepView for FriendlyFlags {
    type V = FriendlyFlags;

    open spec fn deep_view(&self) -> FriendlyFlags {
        *self
    }
}

impl FriendlyFlags {
    /// The byte that holds the flags: flag `i` in bit `i`, in the order the fields are declared.
    pub open spec fn spec_bits(v: FriendlyFlags) -> u8 {
        ((if v.allow_friendly_fire { 1u8 } else { 0u8 }) | (if v.can_see_invisble_teammates { 2u8 } else { 0u8 })) as u8
    }

    /// The flags that the byte `b` holds; bits past the last flag are ignored.
    pub open spec fn spec_from_bits(b: u8) -> FriendlyFlags {
        FriendlyFlags { allow_friendly_fire: b & 1u8 != 0, can_see_invisble_teammates: b & 2u8 != 0 }
    }

    pub fn bits(&self) -> (b: u8)
        ensures
            b == FriendlyFlags::spec_bits(*self),
    {
        let x0: u8 = if self.allow_friendly_fire { 1u8 } else { 0u8 };
        let x1: u8 = if self.can_see_invisble_teammates { 2u8 } else { 0u8 };
        let b: u8 = x0 | x1;
        b
    }

    pub fn new(allow_friendly_fire: bool, can_see_invisble_teammates: bool) -> (v: FriendlyFlags)
        ensures
            v == (FriendlyFlags { allow_friendly_fire, can_see_invisble_teammates }),
    {
        FriendlyFlags { allow_friendly_fire, can_see_invisble_teammates }
    }

    pub fn allow_friendly_fire(&self) -> (b: bool)
        ensures
            b == self.allow_friendly_fire,
    {
        self.allow_friendly_fire
    }

    pub fn can_see_invisble_teammates(&self) -> (b: bool)
        ensures
            b == self.can_see_invisble_teammates,
    {
        self.can_see_invisble_teammates
    }

    pub fn from_bits(b: u8) -> (v: FriendlyFlags)
        ensures
            v == FriendlyFlags::spec_from_bits(b),
    {
        FriendlyFlags { allow_friendly_fire: b & 1u8 != 0, can_see_invisble_teammates: b & 2u8 != 0 }
    }
}

impl McSerialize for FriendlyFlags {
    open spec fn spec_serialize(v: FriendlyFlags) -> Seq<u8> {
        seq![FriendlyFlags::spec_bits(v)]
    }

    open spec fn spec_can_serialize(v: FriendlyFlags) -> bool {
        true
    }

    fn mc_serialize(&self, serializer: &mut McSerializer) -> (r: Result<(), SerializingErr>) {
        serializer.serialize_u8(self.bits());
        Ok(())
    }
}

impl McDeserialize for FriendlyFlags {
    open spec fn spec_deserialize(s: Seq<u8>) -> ParseResult<FriendlyFlags> {
        if s.len() == 0 {
            Err(ErrKind::InputEnded)
        } else {
            Ok((FriendlyFlags::spec_from_bits(s[0]), 1nat))
        }
    }

    proof fn lemma_deserialize_len(s: Seq<u8>) {
    }

    fn mc_deserialize(deserializer: &mut McDeserializer) -> (r: Result<FriendlyFlags, SerializingErr>) {
        let b = deserializer.pop_u8()?;
        Ok(FriendlyFlags::from_bits(b))
    }
}

impl McRoundTrip for FriendlyFlags {
    open spec fn spec_well_formed(v: FriendlyFlags) -> bool {
        true
    }

    proof fn lemma_round_trip(v: FriendlyFlags, rest: Seq<u8>) {
        let x0: u8 = if v.allow_friendly_fire { 1u8 } else { 0u8 };
        let x1: u8 = if v.can_see_invisble_teammates { 2u8 } else { 0u8 };
        let b = FriendlyFlags::spec_bits(v);
        assert(b == (x0 | x1) as u8);
        assert(((b & 1u8 != 0) == (x0 == 1u8)) && ((b & 2u8 != 0) == (x1 == 2u8))) by (bit_vector)
            requires
                b == (x0 | x1) as u8,
                x0 == 0u8 || x0 == 1u8,
                x1 == 0u8 || x1 == 2u8,
        ;
        assert((seq![b] + rest)[0] == b);
    }
}

} // verus!
