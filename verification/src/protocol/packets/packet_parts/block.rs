//! Packet parts about blocks.

use crate::protocol::serialization::serializer_types::{
    deserialize_option, serialize_option, spec_option_bytes, spec_option_parse, PrefixedArray,
    PrefixedOptional,
};
use crate::protocol::serialization::var_int::{
    lemma_varint_round_trip, read_varint, spec_varint_bytes, spec_varint_parse, write_varint, VarInt,
};
use crate::protocol::serialization::{
    lemma_remaining_advance, ErrKind, McDeserialize, McDeserializer, McRoundTrip, McSerialize, McSerializer, ParseResult,
    SerializingErr,
};
use vstd::prelude::*;

verus! {

/// # Command Block Mode (Packet Part)
/// The mode for a command block
///
/// https://minecraft.wiki/w/Java_Edition_protocol/Packets#Program_Command_Block
#[derive(Debug, Clone, Copy, PartialEq, Eq, Structural, Hash)]
pub enum CommandBlockMode {
    Chain,
    Repeating,
    Impulse,
}

impl CommandBlockMode {
    /// The number that stands for this value on the wire.
    pub open spec fn spec_code(self) -> int {
        match self {
            CommandBlockMode::Chain => 0,
            CommandBlockMode::Repeating => 1,
            CommandBlockMode::Impulse => 2,
        }
    }

    /// The value that the number `code` stands for, if any.
    pub open spec fn spec_from_code(code: int) -> Option<CommandBlockMode> {
        if code == 0 {
            Some(CommandBlockMode::Chain)
        } else if code == 1 {
            Some(CommandBlockMode::Repeating)
        } else if code == 2 {
            Some(CommandBlockMode::Impulse)
        } else {
            None
        }
    }

    /// The number that stands for this value on the wire.
    pub fn code(&self) -> (c: i32)
        ensures
            c == self.spec_code(),
    {
        match self {
            CommandBlockMode::Chain => 0,
            CommandBlockMode::Repeating => 1,
            CommandBlockMode::Impulse => 2,
        }
    }

    /// The value that the number `code` stands for, if any.
    pub fn from_code(code: i32) -> (r: Option<CommandBlockMode>)
        ensures
            r == CommandBlockMode::spec_from_code(code as int),
    {
        match code {
            0 => Some(CommandBlockMode::Chain),
            1 => Some(CommandBlockMode::Repeating),
            2 => Some(CommandBlockMode::Impulse),
            _ => None,
        }
    }
}

impl DeepView for CommandBlockMode {
    type V = CommandBlockMode;

    open spec fn deep_view(&self) -> CommandBlockMode {
        *self
    }
}

impl McSerialize for CommandBlockMode {
    open spec fn spec_serialize(v: CommandBlockMode) -> Seq<u8> {
        spec_varint_bytes(v.spec_code() as i32)
    }

    open spec fn spec_can_serialize(v: CommandBlockMode) -> bool {
        true
    }

    fn mc_serialize(&self, serializer: &mut McSerializer) -> (r: Result<(), SerializingErr>) {
        write_varint(&mut serializer.output, self.code());
        Ok(())
    }
}

impl McDeserialize for CommandBlockMode {
    /// The number, then the value it stands for; an unknown number is refused.
    open spec fn spec_deserialize(s: Seq<u8>) -> ParseResult<CommandBlockMode> {
        match spec_varint_parse(s) {
            Ok((x, n)) => match CommandBlockMode::spec_from_code(x.0 as int) {
                Some(v) => Ok((v, n)),
                None => Err(ErrKind::InvalidEnumValue(x.0 as i8)),
            },
            Err(e) => Err(e),
        }
    }

    proof fn lemma_deserialize_len(s: Seq<u8>) {
        VarInt::lemma_deserialize_len(s);
    }

    fn mc_deserialize(deserializer: &mut McDeserializer) -> (r: Result<CommandBlockMode, SerializingErr>) {
        let code = read_varint(deserializer)?.0;
        match CommandBlockMode::from_code(code) {
            Some(v) => Ok(v),
            None => Err(SerializingErr::InvalidEnumValue(#[verifier::truncate] (code as i8))),
        }
    }
}

impl McRoundTrip for CommandBlockMode {
    open spec fn spec_well_formed(v: CommandBlockMode) -> bool {
        true
    }

    proof fn lemma_round_trip(v: CommandBlockMode, rest: Seq<u8>) {
        lemma_varint_round_trip(v.spec_code() as i32, rest);
    }
}

/// # Structure Block Action (Packet Part)
/// The action being undertaken by the stucture block
///
/// https://minecraft.wiki/w/Java_Edition_protocol/Packets#Program_Structure_Block
#[derive(Debug, Clone, Copy, PartialEq, Eq, Structural, Hash)]
pub enum StructureBlockAction {
    UpdateData,
    SaveStructure,
    LoadStructure,
    DetectSize,
}

impl StructureBlockAction {
    /// The number that stands for this value on the wire.
    pub open spec fn spec_code(self) -> int {
        match self {
            StructureBlockAction::UpdateData => 0,
            StructureBlockAction::SaveStructure => 1,
            StructureBlockAction::LoadStructure => 2,
            StructureBlockAction::DetectSize => 3,
        }
    }

    /// The value that the number `code` stands for, if any.
    pub open spec fn spec_from_code(code: int) -> Option<StructureBlockAction> {
        if code == 0 {
            Some(StructureBlockAction::UpdateData)
        } else if code == 1 {
            Some(StructureBlockAction::SaveStructure)
        } else if code == 2 {
            Some(StructureBlockAction::LoadStructure)
        } else if code == 3 {
            Some(StructureBlockAction::DetectSize)
        } else {
            None
        }
    }

    /// The number that stands for this value on the wire.
    pub fn code(&self) -> (c: i32)
        ensures
            c == self.spec_code(),
    {
        match self {
            StructureBlockAction::UpdateData => 0,
            StructureBlockAction::SaveStructure => 1,
            StructureBlockAction::LoadStructure => 2,
            StructureBlockAction::DetectSize => 3,
        }
    }

    /// The value that the number `code` stands for, if any.
    pub fn from_code(code: i32) -> (r: Option<StructureBlockAction>)
        ensures
            r == StructureBlockAction::spec_from_code(code as int),
    {
        match code {
            0 => Some(StructureBlockAction::UpdateData),
            1 => Some(StructureBlockAction::SaveStructure),
            2 => Some(StructureBlockAction::LoadStructure),
            3 => Some(StructureBlockAction::DetectSize),
            _ => None,
        }
    }
}

impl DeepView for StructureBlockAction {
    type V = StructureBlockAction;

    open spec fn deep_view(&self) -> StructureBlockAction {
        *self
    }
}

impl McSerialize for StructureBlockAction {
    open spec fn spec_serialize(v: StructureBlockAction) -> Seq<u8> {
        spec_varint_bytes(v.spec_code() as i32)
    }

    open spec fn spec_can_serialize(v: StructureBlockAction) -> bool {
        true
    }

    fn mc_serialize(&self, serializer: &mut McSerializer) -> (r: Result<(), SerializingErr>) {
        write_varint(&mut serializer.output, self.code());
        Ok(())
    }
}

impl McDeserialize for StructureBlockAction {
    /// The number, then the value it stands for; an unknown number is refused.
    open spec fn spec_deserialize(s: Seq<u8>) -> ParseResult<StructureBlockAction> {
        match spec_varint_parse(s) {
            Ok((x, n)) => match StructureBlockAction::spec_from_code(x.0 as int) {
                Some(v) => Ok((v, n)),
                None => Err(ErrKind::InvalidEnumValue(x.0 as i8)),
            },
            Err(e) => Err(e),
        }
    }

    proof fn lemma_deserialize_len(s: Seq<u8>) {
        VarInt::lemma_deserialize_len(s);
    }

    fn mc_deserialize(deserializer: &mut McDeserializer) -> (r: Result<StructureBlockAction, SerializingErr>) {
        let code = read_varint(deserializer)?.0;
        match StructureBlockAction::from_code(code) {
            Some(v) => Ok(v),
            None => Err(SerializingErr::InvalidEnumValue(#[verifier::truncate] (code as i8))),
        }
    }
}

impl McRoundTrip for StructureBlockAction {
    open spec fn spec_well_formed(v: StructureBlockAction) -> bool {
        true
    }

    proof fn lemma_round_trip(v: StructureBlockAction, rest: Seq<u8>) {
        lemma_varint_round_trip(v.spec_code() as i32, rest);
    }
}

/// # Structure Block Mode (Packet Part)
/// The mode of the structure block
///
/// https://minecraft.wiki/w/Java_Edition_protocol/Packets#Program_Structure_Block
#[derive(Debug, Clone, Copy, PartialEq, Eq, Structural, Hash)]
pub enum StructureBlockMode {
    Save,
    Load,
    Corner,
    Data,
}

impl StructureBlockMode {
    /// The number that stands for this value on the wire.
    pub open spec fn spec_code(self) -> int {
        match self {
            StructureBlockMode::Save => 0,
            StructureBlockMode::Load => 1,
            StructureBlockMode::Corner => 2,
            StructureBlockMode::Data => 3,
        }
    }

    /// The value that the number `code` stands for, if any.
    pub open spec fn spec_from_code(code: int) -> Option<StructureBlockMode> {
        if code == 0 {
            Some(StructureBlockMode::Save)
        } else if code == 1 {
            Some(StructureBlockMode::Load)
        } else if code == 2 {
            Some(StructureBlockMode::Corner)
        } else if code == 3 {
            Some(StructureBlockMode::Data)
        } else {
            None
        }
    }

    /// The number that stands for this value on the wire.
    pub fn code(&self) -> (c: i32)
        ensures
            c == self.spec_code(),
    {
        match self {
            StructureBlockMode::Save => 0,
            StructureBlockMode::Load => 1,
            StructureBlockMode::Corner => 2,
            StructureBlockMode::Data => 3,
        }
    }

    /// The value that the number `code` stands for, if any.
    pub fn from_code(code: i32) -> (r: Option<StructureBlockMode>)
        ensures
            r == StructureBlockMode::spec_from_code(code as int),
    {
        match code {
            0 => Some(StructureBlockMode::Save),
            1 => Some(StructureBlockMode::Load),
            2 => Some(StructureBlockMode::Corner),
            3 => Some(StructureBlockMode::Data),
            _ => None,
        }
    }
}

impl DeepView for StructureBlockMode {
    type V = StructureBlockMode;

    open spec fn deep_view(&self) -> StructureBlockMode {
        *self
    }
}

impl McSerialize for StructureBlockMode {
    open spec fn spec_serialize(v: StructureBlockMode) -> Seq<u8> {
        spec_varint_bytes(v.spec_code() as i32)
    }

    open spec fn spec_can_serialize(v: StructureBlockMode) -> bool {
        true
    }

    fn mc_serialize(&self, serializer: &mut McSerializer) -> (r: Result<(), SerializingErr>) {
        write_varint(&mut serializer.output, self.code());
        Ok(())
    }
}

impl McDeserialize for StructureBlockMode {
    /// The number, then the value it stands for; an unknown number is refused.
    open spec fn spec_deserialize(s: Seq<u8>) -> ParseResult<StructureBlockMode> {
        match spec_varint_parse(s) {
            Ok((x, n)) => match StructureBlockMode::spec_from_code(x.0 as int) {
                Some(v) => Ok((v, n)),
                None => Err(ErrKind::InvalidEnumValue(x.0 as i8)),
            },
            Err(e) => Err(e),
        }
    }

    proof fn lemma_deserialize_len(s: Seq<u8>) {
        VarInt::lemma_deserialize_len(s);
    }

    fn mc_deserialize(deserializer: &mut McDeserializer) -> (r: Result<StructureBlockMode, SerializingErr>) {
        let code = read_varint(deserializer)?.0;
        match StructureBlockMode::from_code(code) {
            Some(v) => Ok(v),
            None => Err(SerializingErr::InvalidEnumValue(#[verifier::truncate] (code as i8))),
        }
    }
}

impl McRoundTrip for StructureBlockMode {
    open spec fn spec_well_formed(v: StructureBlockMode) -> bool {
        true
    }

    proof fn lemma_round_trip(v: StructureBlockMode, rest: Seq<u8>) {
        lemma_varint_round_trip(v.spec_code() as i32, rest);
    }
}

/// # Structure Block Mirror State (Packet Part)
/// The mirror state of the structure block
///
/// https://minecraft.wiki/w/Java_Edition_protocol/Packets#Program_Structure_Block
#[derive(Debug, Clone, Copy, PartialEq, Eq, Structural, Hash)]
pub enum StructureBlockMirror {
    NoMirror,
    LeftRight,
    FrontBack,
}

impl StructureBlockMirror {
    /// The number that stands for this value on the wire.
    pub open spec fn spec_code(self) -> int {
        match self {
            StructureBlockMirror::NoMirror => 0,
            StructureBlockMirror::LeftRight => 1,
            StructureBlockMirror::FrontBack => 2,
        }
    }

    /// The value that the number `code` stands for, if any.
    pub open spec fn spec_from_code(code: int) -> Option<StructureBlockMirror> {
        if code == 0 {
            Some(StructureBlockMirror::NoMirror)
        } else if code == 1 {
            Some(StructureBlockMirror::LeftRight)
        } else if code == 2 {
            Some(StructureBlockMirror::FrontBack)
        } else {
            None
        }
    }

    /// The number that stands for this value on the wire.
    pub fn code(&self) -> (c: i32)
        ensures
            c == self.spec_code(),
    {
        match self {
            StructureBlockMirror::NoMirror => 0,
            StructureBlockMirror::LeftRight => 1,
            StructureBlockMirror::FrontBack => 2,
        }
    }

    /// The value that the number `code` stands for, if any.
    pub fn from_code(code: i32) -> (r: Option<StructureBlockMirror>)
        ensures
            r == StructureBlockMirror::spec_from_code(code as int),
    {
        match code {
            0 => Some(StructureBlockMirror::NoMirror),
            1 => Some(StructureBlockMirror::LeftRight),
            2 => Some(StructureBlockMirror::FrontBack),
            _ => None,
        }
    }
}

impl DeepView for StructureBlockMirror {
    type V = StructureBlockMirror;

    open spec fn deep_view(&self) -> StructureBlockMirror {
        *self
    }
}

impl McSerialize for StructureBlockMirror {
    open spec fn spec_serialize(v: StructureBlockMirror) -> Seq<u8> {
        spec_varint_bytes(v.spec_code() as i32)
    }

    open spec fn spec_can_serialize(v: StructureBlockMirror) -> bool {
        true
    }

    fn mc_serialize(&self, serializer: &mut McSerializer) -> (r: Result<(), SerializingErr>) {
        write_varint(&mut serializer.output, self.code());
        Ok(())
    }
}

impl McDeserialize for StructureBlockMirror {
    /// The number, then the value it stands for; an unknown number is refused.
    open spec fn spec_deserialize(s: Seq<u8>) -> ParseResult<StructureBlockMirror> {
        match spec_varint_parse(s) {
            Ok((x, n)) => match StructureBlockMirror::spec_from_code(x.0 as int) {
                Some(v) => Ok((v, n)),
                None => Err(ErrKind::InvalidEnumValue(x.0 as i8)),
            },
            Err(e) => Err(e),
        }
    }

    proof fn lemma_deserialize_len(s: Seq<u8>) {
        VarInt::lemma_deserialize_len(s);
    }

    fn mc_deserialize(deserializer: &mut McDeserializer) -> (r: Result<StructureBlockMirror, SerializingErr>) {
        let code = read_varint(deserializer)?.0;
        match StructureBlockMirror::from_code(code) {
            Some(v) => Ok(v),
            None => Err(SerializingErr::InvalidEnumValue(#[verifier::truncate] (code as i8))),
        }
    }
}

impl McRoundTrip for StructureBlockMirror {
    open spec fn spec_well_formed(v: StructureBlockMirror) -> bool {
        true
    }

    proof fn lemma_round_trip(v: StructureBlockMirror, rest: Seq<u8>) {
        lemma_varint_round_trip(v.spec_code() as i32, rest);
    }
}

/// # Special Block Rotation (Packet Part)
/// The rotation state of a special block
///
/// https://minecraft.wiki/w/Java_Edition_protocol/Packets#Program_Structure_Block <br>
/// https://minecraft.wiki/w/Java_Edition_protocol/Packets#Test_Instance_Block_Action
#[derive(Debug, Clone, Copy, PartialEq, Eq, Structural, Hash)]
pub enum SpecialBlockRotation {
    NoRotation,
    Clockwise90,
    Clockwise180,
    CounterClockwise90,
}

impl SpecialBlockRotation {
    /// The number that stands for this value on the wire.
    pub open spec fn spec_code(self) -> int {
        match self {
            SpecialBlockRotation::NoRotation => 0,
            SpecialBlockRotation::Clockwise90 => 1,
            SpecialBlockRotation::Clockwise180 => 2,
            SpecialBlockRotation::CounterClockwise90 => 3,
        }
    }

    /// The value that the number `code` stands for, if any.
    pub open spec fn spec_from_code(code: int) -> Option<SpecialBlockRotation> {
        if code == 0 {
            Some(SpecialBlockRotation::NoRotation)
        } else if code == 1 {
            Some(SpecialBlockRotation::Clockwise90)
        } else if code == 2 {
            Some(SpecialBlockRotation::Clockwise180)
        } else if code == 3 {
            Some(SpecialBlockRotation::CounterClockwise90)
        } else {
            None
        }
    }

    /// The number that stands for this value on the wire.
    pub fn code(&self) -> (c: i32)
        ensures
            c == self.spec_code(),
    {
        match self {
            SpecialBlockRotation::NoRotation => 0,
            SpecialBlockRotation::Clockwise90 => 1,
            SpecialBlockRotation::Clockwise180 => 2,
            SpecialBlockRotation::CounterClockwise90 => 3,
        }
    }

    /// The value that the number `code` stands for, if any.
    pub fn from_code(code: i32) -> (r: Option<SpecialBlockRotation>)
        ensures
            r == SpecialBlockRotation::spec_from_code(code as int),
    {
        match code {
            0 => Some(SpecialBlockRotation::NoRotation),
            1 => Some(SpecialBlockRotation::Clockwise90),
            2 => Some(SpecialBlockRotation::Clockwise180),
            3 => Some(SpecialBlockRotation::CounterClockwise90),
            _ => None,
        }
    }
}

impl DeepView for SpecialBlockRotation {
    type V = SpecialBlockRotation;

    open spec fn deep_view(&self) -> SpecialBlockRotation {
        *self
    }
}

impl McSerialize for SpecialBlockRotation {
    open spec fn spec_serialize(v: SpecialBlockRotation) -> Seq<u8> {
        spec_varint_bytes(v.spec_code() as i32)
    }

    open spec fn spec_can_serialize(v: SpecialBlockRotation) -> bool {
        true
    }

    fn mc_serialize(&self, serializer: &mut McSerializer) -> (r: Result<(), SerializingErr>) {
        write_varint(&mut serializer.output, self.code());
        Ok(())
    }
}

impl McDeserialize for SpecialBlockRotation {
    /// The number, then the value it stands for; an unknown number is refused.
    open spec fn spec_deserialize(s: Seq<u8>) -> ParseResult<SpecialBlockRotation> {
        match spec_varint_parse(s) {
            Ok((x, n)) => match SpecialBlockRotation::spec_from_code(x.0 as int) {
                Some(v) => Ok((v, n)),
                None => Err(ErrKind::InvalidEnumValue(x.0 as i8)),
            },
            Err(e) => Err(e),
        }
    }

    proof fn lemma_deserialize_len(s: Seq<u8>) {
        VarInt::lemma_deserialize_len(s);
    }

    fn mc_deserialize(deserializer: &mut McDeserializer) -> (r: Result<SpecialBlockRotation, SerializingErr>) {
        let code = read_varint(deserializer)?.0;
        match SpecialBlockRotation::from_code(code) {
            Some(v) => Ok(v),
            None => Err(SerializingErr::InvalidEnumValue(#[verifier::truncate] (code as i8))),
        }
    }
}

impl McRoundTrip for SpecialBlockRotation {
    open spec fn spec_well_formed(v: SpecialBlockRotation) -> bool {
        true
    }

    proof fn lemma_round_trip(v: SpecialBlockRotation, rest: Seq<u8>) {
        lemma_varint_round_trip(v.spec_code() as i32, rest);
    }
}

/// # Test Block Mode (Packet Part)
/// The mode of the test block
///
/// https://minecraft.wiki/w/Java_Edition_protocol/Packets#Set_Test_Block
#[derive(Debug, Clone, Copy, PartialEq, Eq, Structural, Hash)]
pub enum TestBlockMode {
    Start,
    Log,
    Fail,
    Accept,
}

impl TestBlockMode {
    /// The number that stands for this value on the wire.
    pub open spec fn spec_code(self) -> int {
        match self {
            TestBlockMode::Start => 0,
            TestBlockMode::Log => 1,
            TestBlockMode::Fail => 2,
            TestBlockMode::Accept => 3,
        }
    }

    /// The value that the number `code` stands for, if any.
    pub open spec fn spec_from_code(code: int) -> Option<TestBlockMode> {
        if code == 0 {
            Some(TestBlockMode::Start)
        } else if code == 1 {
            Some(TestBlockMode::Log)
        } else if code == 2 {
            Some(TestBlockMode::Fail)
        } else if code == 3 {
            Some(TestBlockMode::Accept)
        } else {
            None
        }
    }

    /// The number that stands for this value on the wire.
    pub fn code(&self) -> (c: i32)
        ensures
            c == self.spec_code(),
    {
        match self {
            TestBlockMode::Start => 0,
            TestBlockMode::Log => 1,
            TestBlockMode::Fail => 2,
            TestBlockMode::Accept => 3,
        }
    }

    /// The value that the number `code` stands for, if any.
    pub fn from_code(code: i32) -> (r: Option<TestBlockMode>)
        ensures
            r == TestBlockMode::spec_from_code(code as int),
    {
        match code {
            0 => Some(TestBlockMode::Start),
            1 => Some(TestBlockMode::Log),
            2 => Some(TestBlockMode::Fail),
            3 => Some(TestBlockMode::Accept),
            _ => None,
        }
    }
}

impl DeepView for TestBlockMode {
    type V = TestBlockMode;

    open spec fn deep_view(&self) -> TestBlockMode {
        *self
    }
}

impl McSerialize for TestBlockMode {
    open spec fn spec_serialize(v: TestBlockMode) -> Seq<u8> {
        spec_varint_bytes(v.spec_code() as i32)
    }

    open spec fn spec_can_serialize(v: TestBlockMode) -> bool {
        true
    }

    fn mc_serialize(&self, serializer: &mut McSerializer) -> (r: Result<(), SerializingErr>) {
        write_varint(&mut serializer.output, self.code());
        Ok(())
    }
}

impl McDeserialize for TestBlockMode {
    /// The number, then the value it stands for; an unknown number is refused.
    open spec fn spec_deserialize(s: Seq<u8>) -> ParseResult<TestBlockMode> {
        match spec_varint_parse(s) {
            Ok((x, n)) => match TestBlockMode::spec_from_code(x.0 as int) {
                Some(v) => Ok((v, n)),
                None => Err(ErrKind::InvalidEnumValue(x.0 as i8)),
            },
            Err(e) => Err(e),
        }
    }

    proof fn lemma_deserialize_len(s: Seq<u8>) {
        VarInt::lemma_deserialize_len(s);
    }

    fn mc_deserialize(deserializer: &mut McDeserializer) -> (r: Result<TestBlockMode, SerializingErr>) {
        let code = read_varint(deserializer)?.0;
        match TestBlockMode::from_code(code) {
            Some(v) => Ok(v),
            None => Err(SerializingErr::InvalidEnumValue(#[verifier::truncate] (code as i8))),
        }
    }
}

impl McRoundTrip for TestBlockMode {
    open spec fn spec_well_formed(v: TestBlockMode) -> bool {
        true
    }

    proof fn lemma_round_trip(v: TestBlockMode, rest: Seq<u8>) {
        lemma_varint_round_trip(v.spec_code() as i32, rest);
    }
}

/// # Test Instance Block State (Packet Part)
/// Describes the current attempted action for a Test Instance Block
///
/// https://minecraft.wiki/w/Java_Edition_protocol/Packets#Test_Instance_Block_Action
#[derive(Debug, Clone, Copy, PartialEq, Eq, Structural, Hash)]
pub enum TestInstanceBlockActionAction {
    Init,
    Query,
    SetTest,
    Reset,
    Save,
    Export,
    Run,
}

impl TestInstanceBlockActionAction {
    /// The number that stands for this value on the wire.
    pub open spec fn spec_code(self) -> int {
        match self {
            TestInstanceBlockActionAction::Init => 0,
            TestInstanceBlockActionAction::Query => 1,
            TestInstanceBlockActionAction::SetTest => 2,
            TestInstanceBlockActionAction::Reset => 3,
            TestInstanceBlockActionAction::Save => 4,
            TestInstanceBlockActionAction::Export => 5,
            TestInstanceBlockActionAction::Run => 6,
        }
    }

    /// The value that the number `code` stands for, if any.
    pub open spec fn spec_from_code(code: int) -> Option<TestInstanceBlockActionAction> {
        if code == 0 {
            Some(TestInstanceBlockActionAction::Init)
        } else if code == 1 {
            Some(TestInstanceBlockActionAction::Query)
        } else if code == 2 {
            Some(TestInstanceBlockActionAction::SetTest)
        } else if code == 3 {
            Some(TestInstanceBlockActionAction::Reset)
        } else if code == 4 {
            Some(TestInstanceBlockActionAction::Save)
        } else if code == 5 {
            Some(TestInstanceBlockActionAction::Export)
        } else if code == 6 {
            Some(TestInstanceBlockActionAction::Run)
        } else {
            None
        }
    }

    /// The number that stands for this value on the wire.
    pub fn code(&self) -> (c: i32)
        ensures
            c == self.spec_code(),
    {
        match self {
            TestInstanceBlockActionAction::Init => 0,
            TestInstanceBlockActionAction::Query => 1,
            TestInstanceBlockActionAction::SetTest => 2,
            TestInstanceBlockActionAction::Reset => 3,
            TestInstanceBlockActionAction::Save => 4,
            TestInstanceBlockActionAction::Export => 5,
            TestInstanceBlockActionAction::Run => 6,
        }
    }

    /// The value that the number `code` stands for, if any.
    pub fn from_code(code: i32) -> (r: Option<TestInstanceBlockActionAction>)
        ensures
            r == TestInstanceBlockActionAction::spec_from_code(code as int),
    {
        match code {
            0 => Some(TestInstanceBlockActionAction::Init),
            1 => Some(TestInstanceBlockActionAction::Query),
            2 => Some(TestInstanceBlockActionAction::SetTest),
            3 => Some(TestInstanceBlockActionAction::Reset),
            4 => Some(TestInstanceBlockActionAction::Save),
            5 => Some(TestInstanceBlockActionAction::Export),
            6 => Some(TestInstanceBlockActionAction::Run),
            _ => None,
        }
    }
}

impl DeepView for TestInstanceBlockActionAction {
    type V = TestInstanceBlockActionAction;

    open spec fn deep_view(&self) -> TestInstanceBlockActionAction {
        *self
    }
}

impl McSerialize for TestInstanceBlockActionAction {
    open spec fn spec_serialize(v: TestInstanceBlockActionAction) -> Seq<u8> {
        spec_varint_bytes(v.spec_code() as i32)
    }

    open spec fn spec_can_serialize(v: TestInstanceBlockActionAction) -> bool {
        true
    }

    fn mc_serialize(&self, serializer: &mut McSerializer) -> (r: Result<(), SerializingErr>) {
        write_varint(&mut serializer.output, self.code());
        Ok(())
    }
}

impl McDeserialize for TestInstanceBlockActionAction {
    /// The number, then the value it stands for; an unknown number is refused.
    open spec fn spec_deserialize(s: Seq<u8>) -> ParseResult<TestInstanceBlockActionAction> {
        match spec_varint_parse(s) {
            Ok((x, n)) => match TestInstanceBlockActionAction::spec_from_code(x.0 as int) {
                Some(v) => Ok((v, n)),
                None => Err(ErrKind::InvalidEnumValue(x.0 as i8)),
            },
            Err(e) => Err(e),
        }
    }

    proof fn lemma_deserialize_len(s: Seq<u8>) {
        VarInt::lemma_deserialize_len(s);
    }

    fn mc_deserialize(deserializer: &mut McDeserializer) -> (r: Result<TestInstanceBlockActionAction, SerializingErr>) {
        let code = read_varint(deserializer)?.0;
        match TestInstanceBlockActionAction::from_code(code) {
            Some(v) => Ok(v),
            None => Err(SerializingErr::InvalidEnumValue(#[verifier::truncate] (code as i8))),
        }
    }
}

impl McRoundTrip for TestInstanceBlockActionAction {
    open spec fn spec_well_formed(v: TestInstanceBlockActionAction) -> bool {
        true
    }

    proof fn lemma_round_trip(v: TestInstanceBlockActionAction, rest: Seq<u8>) {
        lemma_varint_round_trip(v.spec_code() as i32, rest);
    }
}

/// # Test Instance Status
/// The status of the test instance.
///
/// https://minecraft.wiki/w/Java_Edition_protocol/Packets#Test_Instance_Block_Action
#[derive(Debug, Clone, Copy, PartialEq, Eq, Structural, Hash)]
pub enum TestInstanceStatus {
    Cleared,
    Running,
    Finished,
}

impl TestInstanceStatus {
    /// The number that stands for this value on the wire.
    pub open spec fn spec_code(self) -> int {
        match self {
            TestInstanceStatus::Cleared => 0,
            TestInstanceStatus::Running => 1,
            TestInstanceStatus::Finished => 2,
        }
    }

    /// The value that the number `code` stands for, if any.
    pub open spec fn spec_from_code(code: int) -> Option<TestInstanceStatus> {
        if code == 0 {
            Some(TestInstanceStatus::Cleared)
        } else if code == 1 {
            Some(TestInstanceStatus::Running)
        } else if code == 2 {
            Some(TestInstanceStatus::Finished)
        } else {
            None
        }
    }

    /// The number that stands for this value on the wire.
    pub fn code(&self) -> (c: i32)
        ensures
            c == self.spec_code(),
    {
        match self {
            TestInstanceStatus::Cleared => 0,
            TestInstanceStatus::Running => 1,
            TestInstanceStatus::Finished => 2,
        }
    }

    /// The value that the number `code` stands for, if any.
    pub fn from_code(code: i32) -> (r: Option<TestInstanceStatus>)
        ensures
            r == TestInstanceStatus::spec_from_code(code as int),
    {
        match code {
            0 => Some(TestInstanceStatus::Cleared),
            1 => Some(TestInstanceStatus::Running),
            2 => Some(TestInstanceStatus::Finished),
            _ => None,
        }
    }
}

impl DeepView for TestInstanceStatus {
    type V = TestInstanceStatus;

    open spec fn deep_view(&self) -> TestInstanceStatus {
        *self
    }
}

impl McSerialize for TestInstanceStatus {
    open spec fn spec_serialize(v: TestInstanceStatus) -> Seq<u8> {
        spec_varint_bytes(v.spec_code() as i32)
    }

    open spec fn spec_can_serialize(v: TestInstanceStatus) -> bool {
        true
    }

    fn mc_serialize(&self, serializer: &mut McSerializer) -> (r: Result<(), SerializingErr>) {
        write_varint(&mut serializer.output, self.code());
        Ok(())
    }
}

impl McDeserialize for TestInstanceStatus {
    /// The number, then the value it stands for; an unknown number is refused.
    open spec fn spec_deserialize(s: Seq<u8>) -> ParseResult<TestInstanceStatus> {
        match spec_varint_parse(s) {
            Ok((x, n)) => match TestInstanceStatus::spec_from_code(x.0 as int) {
                Some(v) => Ok((v, n)),
                None => Err(ErrKind::InvalidEnumValue(x.0 as i8)),
            },
            Err(e) => Err(e),
        }
    }

    proof fn lemma_deserialize_len(s: Seq<u8>) {
        VarInt::lemma_deserialize_len(s);
    }

    fn mc_deserialize(deserializer: &mut McDeserializer) -> (r: Result<TestInstanceStatus, SerializingErr>) {
        let code = read_varint(deserializer)?.0;
        match TestInstanceStatus::from_code(code) {
            Some(v) => Ok(v),
            None => Err(SerializingErr::InvalidEnumValue(#[verifier::truncate] (code as i8))),
        }
    }
}

impl McRoundTrip for TestInstanceStatus {
    open spec fn spec_well_formed(v: TestInstanceStatus) -> bool {
        true
    }

    proof fn lemma_round_trip(v: TestInstanceStatus, rest: Seq<u8>) {
        lemma_varint_round_trip(v.spec_code() as i32, rest);
    }
}

/// One of the values of `BlockFace`, sent as a variable-length integer.
#[derive(Debug, Clone, Copy, PartialEq, Eq, Structural, Hash)]
pub enum BlockFace {
    Bottom,
    Top,
    North,
    South,
    West,
    East,
}

impl BlockFace {
    /// The number that stands for this value on the wire.
    pub open spec fn spec_code(self) -> int {
        match self {
            BlockFace::Bottom => 0,
            BlockFace::Top => 1,
            BlockFace::North => 2,
            BlockFace::South => 3,
            BlockFace::West => 4,
            BlockFace::East => 5,
        }
    }

    /// The value that the number `code` stands for, if any.
    pub open spec fn spec_from_code(code: int) -> Option<BlockFace> {
        if code == 0 {
            Some(BlockFace::Bottom)
        } else if code == 1 {
            Some(BlockFace::Top)
        } else if code == 2 {
            Some(BlockFace::North)
        } else if code == 3 {
            Some(BlockFace::South)
        } else if code == 4 {
            Some(BlockFace::West)
        } else if code == 5 {
            Some(BlockFace::East)
        } else {
            None
        }
    }

    /// The number that stands for this value on the wire.
    pub fn code(&self) -> (c: i32)
        ensures
            c == self.spec_code(),
    {
        match self {
            BlockFace::Bottom => 0,
            BlockFace::Top => 1,
            BlockFace::North => 2,
            BlockFace::South => 3,
            BlockFace::West => 4,
            BlockFace::East => 5,
        }
    }

    /// The value that the number `code` stands for, if any.
    pub fn from_code(code: i32) -> (r: Option<BlockFace>)
        ensures
            r == BlockFace::spec_from_code(code as int),
    {
        match code {
            0 => Some(BlockFace::Bottom),
            1 => Some(BlockFace::Top),
            2 => Some(BlockFace::North),
            3 => Some(BlockFace::South),
            4 => Some(BlockFace::West),
            5 => Some(BlockFace::East),
            _ => None,
        }
    }
}

impl DeepView for BlockFace {
    type V = BlockFace;

    open spec fn deep_view(&self) -> BlockFace {
        *self
    }
}

impl McSerialize for BlockFace {
    open spec fn spec_serialize(v: BlockFace) -> Seq<u8> {
        spec_varint_bytes(v.spec_code() as i32)
    }

    open spec fn spec_can_serialize(v: BlockFace) -> bool {
        true
    }

    fn mc_serialize(&self, serializer: &mut McSerializer) -> (r: Result<(), SerializingErr>) {
        write_varint(&mut serializer.output, self.code());
        Ok(())
    }
}

impl McDeserialize for BlockFace {
    /// The number, then the value it stands for; an unknown number is refused.
    open spec fn spec_deserialize(s: Seq<u8>) -> ParseResult<BlockFace> {
        match spec_varint_parse(s) {
            Ok((x, n)) => match BlockFace::spec_from_code(x.0 as int) {
                Some(v) => Ok((v, n)),
                None => Err(ErrKind::InvalidEnumValue(x.0 as i8)),
            },
            Err(e) => Err(e),
        }
    }

    proof fn lemma_deserialize_len(s: Seq<u8>) {
        VarInt::lemma_deserialize_len(s);
    }

    fn mc_deserialize(deserializer: &mut McDeserializer) -> (r: Result<BlockFace, SerializingErr>) {
        let code = read_varint(deserializer)?.0;
        match BlockFace::from_code(code) {
            Some(v) => Ok(v),
            None => Err(SerializingErr::InvalidEnumValue(#[verifier::truncate] (code as i8))),
        }
    }
}

impl McRoundTrip for BlockFace {
    open spec fn spec_well_formed(v: BlockFace) -> bool {
        true
    }

    proof fn lemma_round_trip(v: BlockFace, rest: Seq<u8>) {
        lemma_varint_round_trip(v.spec_code() as i32, rest);
    }
}

/// A condition on one property of a block state: an exact value, or a range of values.
#[derive(Debug, Clone, PartialEq)]
pub struct BlockProperty {
    pub name: String,
    pub is_exact: bool,
    pub exact_value: Option<String>,
    pub min_value: Option<String>,
    pub max_value: Option<String>,
}

impl DeepView for BlockProperty {
    type V = (Seq<char>, bool, Option<Seq<char>>, Option<Seq<char>>, Option<Seq<char>>);

    open spec fn deep_view(&self) -> Self::V {
        (self.name@, self.is_exact, self.exact_value.deep_view(), self.min_value.deep_view(), self.max_value.deep_view())
    }
}

impl McSerialize for BlockProperty {
    /// The name, the flag, then the exact value when the flag is set and the least and greatest
    /// values when it is not; a value that is absent is not written.
    open spec fn spec_serialize(v: Self::V) -> Seq<u8> {
        String::spec_serialize(v.0) + bool::spec_serialize(v.1) + if v.1 {
            spec_option_bytes::<String>(v.2)
        } else {
            spec_option_bytes::<String>(v.3) + spec_option_bytes::<String>(v.4)
        }
    }

    open spec fn spec_can_serialize(v: Self::V) -> bool {
        &&& String::spec_can_serialize(v.0)
        &&& v.2 matches Some(x) ==> String::spec_can_serialize(x)
        &&& v.3 matches Some(x) ==> String::spec_can_serialize(x)
        &&& v.4 matches Some(x) ==> String::spec_can_serialize(x)
    }

    fn mc_serialize(&self, serializer: &mut McSerializer) -> (r: Result<(), SerializingErr>) {
        let _ = self.name.mc_serialize(serializer);
        let _ = self.is_exact.mc_serialize(serializer);
        if self.is_exact {
            serialize_option(&self.exact_value, serializer);
        } else {
            serialize_option(&self.min_value, serializer);
            serialize_option(&self.max_value, serializer);
        }
        Ok(())
    }
}

impl McDeserialize for BlockProperty {
    open spec fn spec_deserialize(s: Seq<u8>) -> ParseResult<Self::V> {
        match String::spec_deserialize(s) {
            Ok((name, n1)) => match bool::spec_deserialize(s.skip(n1 as int)) {
                Ok((exact, n2)) => if exact {
                    match String::spec_deserialize(s.skip((n1 + n2) as int)) {
                        Ok((x, n3)) => Ok(((name, exact, Some(x), None, None), n1 + n2 + n3)),
                        Err(e) => Err(e),
                    }
                } else {
                    match <(String, String)>::spec_deserialize(s.skip((n1 + n2) as int)) {
                        Ok((mm, n3)) => Ok(((name, exact, None, Some(mm.0), Some(mm.1)), n1 + n2 + n3)),
                        Err(e) => Err(e),
                    }
                },
                Err(e) => Err(e),
            },
            Err(e) => Err(e),
        }
    }

    proof fn lemma_deserialize_len(s: Seq<u8>) {
        String::lemma_deserialize_len(s);
        if let Ok((name, n1)) = String::spec_deserialize(s) {
            bool::lemma_deserialize_len(s.skip(n1 as int));
            if let Ok((exact, n2)) = bool::spec_deserialize(s.skip(n1 as int)) {
                String::lemma_deserialize_len(s.skip((n1 + n2) as int));
                <(String, String)>::lemma_deserialize_len(s.skip((n1 + n2) as int));
            }
        }
    }

    fn mc_deserialize(deserializer: &mut McDeserializer) -> (r: Result<BlockProperty, SerializingErr>) {
        let ghost d0 = *deserializer;
        let name = String::mc_deserialize(deserializer)?;
        let ghost d1 = *deserializer;
        proof {
            String::lemma_deserialize_len(d0.remaining());
            lemma_remaining_advance(d0, d1, (d1.index - d0.index) as nat);
        }
        let is_exact = bool::mc_deserialize(deserializer)?;
        proof {
            lemma_remaining_advance(d1, *deserializer, 1);
            assert(d1.remaining().skip(1) == d0.remaining().skip(deserializer.index - d0.index));
        }
        if is_exact {
            let x = String::mc_deserialize(deserializer)?;
            Ok(BlockProperty { name, is_exact, exact_value: Some(x), min_value: None, max_value: None })
        } else {
            let (lo, hi) = <(String, String)>::mc_deserialize(deserializer)?;
            Ok(BlockProperty { name, is_exact, exact_value: None, min_value: Some(lo), max_value: Some(hi) })
        }
    }
}

impl McRoundTrip for BlockProperty {
    /// An exact condition has its exact value and no range; a range has both ends and no exact
    /// value.
    open spec fn spec_well_formed(v: Self::V) -> bool {
        if v.1 {
            v.2 is Some && v.3 is None && v.4 is None
        } else {
            v.2 is None && v.3 is Some && v.4 is Some
        }
    }

    proof fn lemma_round_trip(v: Self::V, rest: Seq<u8>) {
        let nb = String::spec_serialize(v.0);
        let fb = bool::spec_serialize(v.1);
        let tail = if v.1 {
            spec_option_bytes::<String>(v.2)
        } else {
            spec_option_bytes::<String>(v.3) + spec_option_bytes::<String>(v.4)
        };
        let s = Self::spec_serialize(v) + rest;
        assert(s == nb + (fb + (tail + rest)));
        String::lemma_round_trip(v.0, fb + (tail + rest));
        assert(s.skip(nb.len() as int) == fb + (tail + rest));
        bool::lemma_round_trip(v.1, tail + rest);
        assert(s.skip((nb.len() + fb.len()) as int) == tail + rest);
        if v.1 {
            String::lemma_round_trip(v.2.unwrap(), rest);
        } else {
            <(String, String)>::lemma_round_trip((v.3.unwrap(), v.4.unwrap()), rest);
        }
    }
}

} // verus!
