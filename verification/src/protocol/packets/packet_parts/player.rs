//! Packet parts about players.

use crate::protocol::serialization::serializer_types::{PrefixedArray, PrefixedOptional};
use crate::protocol::serialization::var_int::{
    lemma_varint_round_trip, read_varint, spec_varint_bytes, spec_varint_parse, write_varint, VarInt,
};
use crate::protocol::serialization::{
    ErrKind, McDeserialize, McDeserializer, McRoundTrip, McSerialize, McSerializer, ParseResult,
    SerializingErr,
};
use vstd::prelude::*;

verus! {

/// One of the values of `WaypointOperation`, sent as a variable-length integer.
#[derive(Debug, Clone, Copy, PartialEq, Eq, Structural, Hash)]
pub enum WaypointOperation {
    Track,
    Untrack,
    Update,
}

impl WaypointOperation {
    /// The number that stands for this value on the wire.
    pub open spec fn spec_code(self) -> int {
        match self {
            WaypointOperation::Track => 0,
            WaypointOperation::Untrack => 1,
            WaypointOperation::Update => 2,
        }
    }

    /// The value that the number `code` stands for, if any.
    pub open spec fn spec_from_code(code: int) -> Option<WaypointOperation> {
        if code == 0 {
            Some(WaypointOperation::Track)
        } else if code == 1 {
            Some(WaypointOperation::Untrack)
        } else if code == 2 {
            Some(WaypointOperation::Update)
        } else {
            None
        }
    }

    /// The number that stands for this value on the wire.
    pub fn code(&self) -> (c: i32)
        ensures
            c == self.spec_code(),
    {
        match self {
            WaypointOperation::Track => 0,
            WaypointOperation::Untrack => 1,
            WaypointOperation::Update => 2,
        }
    }

    /// The value that the number `code` stands for, if any.
    pub fn from_code(code: i32) -> (r: Option<WaypointOperation>)
        ensures
            r == WaypointOperation::spec_from_code(code as int),
    {
        match code {
            0 => Some(WaypointOperation::Track),
            1 => Some(WaypointOperation::Untrack),
            2 => Some(WaypointOperation::Update),
            _ => None,
        }
    }
}

impl DeepView for WaypointOperation {
    type V = WaypointOperation;

    open spec fn deep_view(&self) -> WaypointOperation {
        *self
    }
}

impl McSerialize for WaypointOperation {
    open spec fn spec_serialize(v: WaypointOperation) -> Seq<u8> {
        spec_varint_bytes(v.spec_code() as i32)
    }

    open spec fn spec_can_serialize(v: WaypointOperation) -> bool {
        true
    }

    fn mc_serialize(&self, serializer: &mut McSerializer) -> (r: Result<(), SerializingErr>) {
        write_varint(&mut serializer.output, self.code());
        Ok(())
    }
}

impl McDeserialize for WaypointOperation {
    /// The number, then the value it stands for; an unknown number is refused.
    open spec fn spec_deserialize(s: Seq<u8>) -> ParseResult<WaypointOperation> {
        match spec_varint_parse(s) {
            Ok((x, n)) => match WaypointOperation::spec_from_code(x.0 as int) {
                Some(v) => Ok((v, n)),
                None => Err(ErrKind::InvalidEnumValue(x.0 as i8)),
            },
            Err(e) => Err(e),
        }
    }

    proof fn lemma_deserialize_len(s: Seq<u8>) {
        VarInt::lemma_deserialize_len(s);
    }

    fn mc_deserialize(deserializer: &mut McDeserializer) -> (r: Result<WaypointOperation, SerializingErr>) {
        let code = read_varint(deserializer)?.0;
        match WaypointOperation::from_code(code) {
            Some(v) => Ok(v),
            None => Err(SerializingErr::InvalidEnumValue(#[verifier::truncate] (code as i8))),
        }
    }
}

impl McRoundTrip for WaypointOperation {
    open spec fn spec_well_formed(v: WaypointOperation) -> bool {
        true
    }

    proof fn lemma_round_trip(v: WaypointOperation, rest: Seq<u8>) {
        lemma_varint_round_trip(v.spec_code() as i32, rest);
    }
}

/// # Player Action Status (Packet Part)
/// Used to communicate a change in player status.
///
/// https://minecraft.wiki/w/Java_Edition_protocol/Packets#Player_Action
#[derive(Debug, Clone, Copy, PartialEq, Eq, Structural, Hash)]
pub enum PlayerActionStatus {
    StartedDigging,
    CancelledDigging,
    FinishedDigging,
    DropItemStack,
    DropItem,
    ShootArrowOrFinishEating,
    SwapItemInHand,
}

impl PlayerActionStatus {
    /// The number that stands for this value on the wire.
    pub open spec fn spec_code(self) -> int {
        match self {
            PlayerActionStatus::StartedDigging => 0,
            PlayerActionStatus::CancelledDigging => 1,
            PlayerActionStatus::FinishedDigging => 2,
            PlayerActionStatus::DropItemStack => 3,
            PlayerActionStatus::DropItem => 4,
            PlayerActionStatus::ShootArrowOrFinishEating => 5,
            PlayerActionStatus::SwapItemInHand => 6,
        }
    }

    /// The value that the number `code` stands for, if any.
    pub open spec fn spec_from_code(code: int) -> Option<PlayerActionStatus> {
        if code == 0 {
            Some(PlayerActionStatus::StartedDigging)
        } else if code == 1 {
            Some(PlayerActionStatus::CancelledDigging)
        } else if code == 2 {
            Some(PlayerActionStatus::FinishedDigging)
        } else if code == 3 {
            Some(PlayerActionStatus::DropItemStack)
        } else if code == 4 {
            Some(PlayerActionStatus::DropItem)
        } else if code == 5 {
            Some(PlayerActionStatus::ShootArrowOrFinishEating)
        } else if code == 6 {
            Some(PlayerActionStatus::SwapItemInHand)
        } else {
            None
        }
    }

    /// The number that stands for this value on the wire.
    pub fn code(&self) -> (c: i32)
        ensures
            c == self.spec_code(),
    {
        match self {
            PlayerActionStatus::StartedDigging => 0,
            PlayerActionStatus::CancelledDigging => 1,
            PlayerActionStatus::FinishedDigging => 2,
            PlayerActionStatus::DropItemStack => 3,
            PlayerActionStatus::DropItem => 4,
            PlayerActionStatus::ShootArrowOrFinishEating => 5,
            PlayerActionStatus::SwapItemInHand => 6,
        }
    }

    /// The value that the number `code` stands for, if any.
    pub fn from_code(code: i32) -> (r: Option<PlayerActionStatus>)
        ensures
            r == PlayerActionStatus::spec_from_code(code as int),
    {
        match code {
            0 => Some(PlayerActionStatus::StartedDigging),
            1 => Some(PlayerActionStatus::CancelledDigging),
            2 => Some(PlayerActionStatus::FinishedDigging),
            3 => Some(PlayerActionStatus::DropItemStack),
            4 => Some(PlayerActionStatus::DropItem),
            5 => Some(PlayerActionStatus::ShootArrowOrFinishEating),
            6 => Some(PlayerActionStatus::SwapItemInHand),
            _ => None,
        }
    }
}

impl DeepView for PlayerActionStatus {
    type V = PlayerActionStatus;

    open spec fn deep_view(&self) -> PlayerActionStatus {
        *self
    }
}

impl McSerialize for PlayerActionStatus {
    open spec fn spec_serialize(v: PlayerActionStatus) -> Seq<u8> {
        spec_varint_bytes(v.spec_code() as i32)
    }

    open spec fn spec_can_serialize(v: PlayerActionStatus) -> bool {
        true
    }

    fn mc_serialize(&self, serializer: &mut McSerializer) -> (r: Result<(), SerializingErr>) {
        write_varint(&mut serializer.output, self.code());
        Ok(())
    }
}

impl McDeserialize for PlayerActionStatus {
    /// The number, then the value it stands for; an unknown number is refused.
    open spec fn spec_deserialize(s: Seq<u8>) -> ParseResult<PlayerActionStatus> {
        match spec_varint_parse(s) {
            Ok((x, n)) => match PlayerActionStatus::spec_from_code(x.0 as int) {
                Some(v) => Ok((v, n)),
                None => Err(ErrKind::InvalidEnumValue(x.0 as i8)),
            },
            Err(e) => Err(e),
        }
    }

    proof fn lemma_deserialize_len(s: Seq<u8>) {
        VarInt::lemma_deserialize_len(s);
    }

    fn mc_deserialize(deserializer: &mut McDeserializer) -> (r: Result<PlayerActionStatus, SerializingErr>) {
        let code = read_varint(deserializer)?.0;
        match PlayerActionStatus::from_code(code) {
            Some(v) => Ok(v),
            None => Err(SerializingErr::InvalidEnumValue(#[verifier::truncate] (code as i8))),
        }
    }
}

impl McRoundTrip for PlayerActionStatus {
    open spec fn spec_well_formed(v: PlayerActionStatus) -> bool {
        true
    }

    proof fn lemma_round_trip(v: PlayerActionStatus, rest: Seq<u8>) {
        lemma_varint_round_trip(v.spec_code() as i32, rest);
    }
}

/// # Seen Advancement Action (Packet Part)
/// Action that occurs when interacting with Advancements tab
///
/// https://minecraft.wiki/w/Java_Edition_protocol/Packets#Seen_Advancements
#[derive(Debug, Clone, Copy, PartialEq, Eq, Structural, Hash)]
pub enum SeenAdvancementsAction {
    OpenedTab,
    ClosedScreen,
}

impl SeenAdvancementsAction {
    /// The number that stands for this value on the wire.
    pub open spec fn spec_code(self) -> int {
        match self {
            SeenAdvancementsAction::OpenedTab => 0,
            SeenAdvancementsAction::ClosedScreen => 1,
        }
    }

    /// The value that the number `code` stands for, if any.
    pub open spec fn spec_from_code(code: int) -> Option<SeenAdvancementsAction> {
        if code == 0 {
            Some(SeenAdvancementsAction::OpenedTab)
        } else if code == 1 {
            Some(SeenAdvancementsAction::ClosedScreen)
        } else {
            None
        }
    }

    /// The number that stands for this value on the wire.
    pub fn code(&self) -> (c: i32)
        ensures
            c == self.spec_code(),
    {
        match self {
            SeenAdvancementsAction::OpenedTab => 0,
            SeenAdvancementsAction::ClosedScreen => 1,
        }
    }

    /// The value that the number `code` stands for, if any.
    pub fn from_code(code: i32) -> (r: Option<SeenAdvancementsAction>)
        ensures
            r == SeenAdvancementsAction::spec_from_code(code as int),
    {
        match code {
            0 => Some(SeenAdvancementsAction::OpenedTab),
            1 => Some(SeenAdvancementsAction::ClosedScreen),
            _ => None,
        }
    }
}

impl DeepView for SeenAdvancementsAction {
    type V = SeenAdvancementsAction;

    open spec fn deep_view(&self) -> SeenAdvancementsAction {
        *self
    }
}

impl McSerialize for SeenAdvancementsAction {
    open spec fn spec_serialize(v: SeenAdvancementsAction) -> Seq<u8> {
        spec_varint_bytes(v.spec_code() as i32)
    }

    open spec fn spec_can_serialize(v: SeenAdvancementsAction) -> bool {
        true
    }

    fn mc_serialize(&self, serializer: &mut McSerializer) -> (r: Result<(), SerializingErr>) {
        write_varint(&mut serializer.output, self.code());
        Ok(())
    }
}

impl McDeserialize for SeenAdvancementsAction {
    /// The number, then the value it stands for; an unknown number is refused.
    open spec fn spec_deserialize(s: Seq<u8>) -> ParseResult<SeenAdvancementsAction> {
        match spec_varint_parse(s) {
            Ok((x, n)) => match SeenAdvancementsAction::spec_from_code(x.0 as int) {
                Some(v) => Ok((v, n)),
                None => Err(ErrKind::InvalidEnumValue(x.0 as i8)),
            },
            Err(e) => Err(e),
        }
    }

    proof fn lemma_deserialize_len(s: Seq<u8>) {
        VarInt::lemma_deserialize_len(s);
    }

    fn mc_deserialize(deserializer: &mut McDeserializer) -> (r: Result<SeenAdvancementsAction, SerializingErr>) {
        let code = read_varint(deserializer)?.0;
        match SeenAdvancementsAction::from_code(code) {
            Some(v) => Ok(v),
            None => Err(SerializingErr::InvalidEnumValue(#[verifier::truncate] (code as i8))),
        }
    }
}

impl McRoundTrip for SeenAdvancementsAction {
    open spec fn spec_well_formed(v: SeenAdvancementsAction) -> bool {
        true
    }

    proof fn lemma_round_trip(v: SeenAdvancementsAction, rest: Seq<u8>) {
        lemma_varint_round_trip(v.spec_code() as i32, rest);
    }
}

/// The fields of [`PositionVarInt`] as they are sent, in order.
pub type PositionVarIntFields = (VarInt, (VarInt, VarInt));

/// A position given as three variable-length integers.
#[derive(Debug, Clone, PartialEq)]
pub struct PositionVarInt {
    pub x: VarInt,
    pub y: VarInt,
    pub z: VarInt,
}

impl DeepView for PositionVarInt {
    type V = <PositionVarIntFields as DeepView>::V;

    open spec fn deep_view(&self) -> Self::V {
        (self.x.deep_view(), (self.y.deep_view(), self.z.deep_view()))
    }
}

impl McSerialize for PositionVarInt {
    open spec fn spec_serialize(v: Self::V) -> Seq<u8> {
        PositionVarIntFields::spec_serialize(v)
    }

    open spec fn spec_can_serialize(v: Self::V) -> bool {
        PositionVarIntFields::spec_can_serialize(v)
    }

    fn mc_serialize(&self, serializer: &mut McSerializer) -> (r: Result<(), SerializingErr>) {
        let _ = self.x.mc_serialize(serializer);
        let _ = self.y.mc_serialize(serializer);
        let _ = self.z.mc_serialize(serializer);
        assert(serializer.output@ == old(serializer).output@ + Self::spec_serialize(self.deep_view()));
        Ok(())
    }
}

impl McDeserialize for PositionVarInt {
    open spec fn spec_deserialize(s: Seq<u8>) -> ParseResult<Self::V> {
        PositionVarIntFields::spec_deserialize(s)
    }

    proof fn lemma_deserialize_len(s: Seq<u8>) {
        PositionVarIntFields::lemma_deserialize_len(s);
    }

    fn mc_deserialize(deserializer: &mut McDeserializer) -> (r: Result<PositionVarInt, SerializingErr>) {
        let (x, (y, z)) = PositionVarIntFields::mc_deserialize(deserializer)?;
        Ok(PositionVarInt { x, y, z })
    }
}

impl McRoundTrip for PositionVarInt {
    open spec fn spec_well_formed(v: Self::V) -> bool {
        PositionVarIntFields::spec_well_formed(v)
    }

    proof fn lemma_round_trip(v: Self::V, rest: Seq<u8>) {
        PositionVarIntFields::lemma_round_trip(v, rest);
    }
}

/// The fields of [`ChunkPositionVarInt`] as they are sent, in order.
pub type ChunkPositionVarIntFields = (VarInt, VarInt);

/// A chunk position given as two variable-length integers.
#[derive(Debug, Clone, PartialEq)]
pub struct ChunkPositionVarInt {
    pub x: VarInt,
    pub z: VarInt,
}

impl DeepView for ChunkPositionVarInt {
    type V = <ChunkPositionVarIntFields as DeepView>::V;

    open spec fn deep_view(&self) -> Self::V {
        (self.x.deep_view(), self.z.deep_view())
    }
}

impl McSerialize for ChunkPositionVarInt {
    open spec fn spec_serialize(v: Self::V) -> Seq<u8> {
        ChunkPositionVarIntFields::spec_serialize(v)
    }

    open spec fn spec_can_serialize(v: Self::V) -> bool {
        ChunkPositionVarIntFields::spec_can_serialize(v)
    }

    fn mc_serialize(&self, serializer: &mut McSerializer) -> (r: Result<(), SerializingErr>) {
        let _ = self.x.mc_serialize(serializer);
        let _ = self.z.mc_serialize(serializer);
        assert(serializer.output@ == old(serializer).output@ + Self::spec_serialize(self.deep_view()));
        Ok(())
    }
}

impl McDeserialize for ChunkPositionVarInt {
    open spec fn spec_deserialize(s: Seq<u8>) -> ParseResult<Self::V> {
        ChunkPositionVarIntFields::spec_deserialize(s)
    }

    proof fn lemma_deserialize_len(s: Seq<u8>) {
        ChunkPositionVarIntFields::lemma_deserialize_len(s);
    }

    fn mc_deserialize(deserializer: &mut McDeserializer) -> (r: Result<ChunkPositionVarInt, SerializingErr>) {
        let (x, z) = ChunkPositionVarIntFields::mc_deserialize(deserializer)?;
        Ok(ChunkPositionVarInt { x, z })
    }
}

impl McRoundTrip for ChunkPositionVarInt {
    open spec fn spec_well_formed(v: Self::V) -> bool {
        ChunkPositionVarIntFields::spec_well_formed(v)
    }

    proof fn lemma_round_trip(v: Self::V, rest: Seq<u8>) {
        ChunkPositionVarIntFields::lemma_round_trip(v, rest);
    }
}

} // verus!
