//! Packet parts of debug information.

use crate::protocol_types::datatypes::game_types::Position;
use crate::protocol::serialization::serializer_types::{PrefixedArray, PrefixedOptional};
use crate::protocol::serialization::var_int::{
    lemma_varint_round_trip, read_varint, spec_varint_bytes, spec_varint_parse, write_varint, VarInt,
};
use crate::protocol::serialization::{
    ErrKind, McDeserialize, McDeserializer, McRoundTrip, McSerialize, McSerializer, ParseResult,
    SerializingErr,
};
use vstd::prelude::*;

verus! {

/// One of the values of `EntityBlockIntersectionType`, sent as a variable-length integer.
#[derive(Debug, Clone, Copy, PartialEq, Eq, Structural, Hash)]
pub enum EntityBlockIntersectionType {
    InBlock,
    InFluid,
    InAir,
}

impl EntityBlockIntersectionType {
    /// The number that stands for this value on the wire.
    pub open spec fn spec_code(self) -> int {
        match self {
            EntityBlockIntersectionType::InBlock => 0,
            EntityBlockIntersectionType::InFluid => 1,
            EntityBlockIntersectionType::InAir => 2,
        }
    }

    /// The value that the number `code` stands for, if any.
    pub open spec fn spec_from_code(code: int) -> Option<EntityBlockIntersectionType> {
        if code == 0 {
            Some(EntityBlockIntersectionType::InBlock)
        } else if code == 1 {
            Some(EntityBlockIntersectionType::InFluid)
        } else if code == 2 {
            Some(EntityBlockIntersectionType::InAir)
        } else {
            None
        }
    }

    /// The number that stands for this value on the wire.
    pub fn code(&self) -> (c: i32)
        ensures
            c == self.spec_code(),
    {
        match self {
            EntityBlockIntersectionType::InBlock => 0,
            EntityBlockIntersectionType::InFluid => 1,
            EntityBlockIntersectionType::InAir => 2,
        }
    }

    /// The value that the number `code` stands for, if any.
    pub fn from_code(code: i32) -> (r: Option<EntityBlockIntersectionType>)
        ensures
            r == EntityBlockIntersectionType::spec_from_code(code as int),
    {
        match code {
            0 => Some(EntityBlockIntersectionType::InBlock),
            1 => Some(EntityBlockIntersectionType::InFluid),
            2 => Some(EntityBlockIntersectionType::InAir),
            _ => None,
        }
    }
}

impl DeepView for EntityBlockIntersectionType {
    type V = EntityBlockIntersectionType;

    open spec fn deep_view(&self) -> EntityBlockIntersectionType {
        *self
    }
}

impl McSerialize for EntityBlockIntersectionType {
    open spec fn spec_serialize(v: EntityBlockIntersectionType) -> Seq<u8> {
        spec_varint_bytes(v.spec_code() as i32)
    }

    open spec fn spec_can_serialize(v: EntityBlockIntersectionType) -> bool {
        true
    }

    fn mc_serialize(&self, serializer: &mut McSerializer) -> (r: Result<(), SerializingErr>) {
        write_varint(&mut serializer.output, self.code());
        Ok(())
    }
}

impl McDeserialize for EntityBlockIntersectionType {
    /// The number, then the value it stands for; an unknown number is refused.
    open spec fn spec_deserialize(s: Seq<u8>) -> ParseResult<EntityBlockIntersectionType> {
        match spec_varint_parse(s) {
            Ok((x, n)) => match EntityBlockIntersectionType::spec_from_code(x.0 as int) {
                Some(v) => Ok((v, n)),
                None => Err(ErrKind::InvalidEnumValue(x.0 as i8)),
            },
            Err(e) => Err(e),
        }
    }

    proof fn lemma_deserialize_len(s: Seq<u8>) {
        VarInt::lemma_deserialize_len(s);
    }

    fn mc_deserialize(deserializer: &mut McDeserializer) -> (r: Result<EntityBlockIntersectionType, SerializingErr>) {
        let code = read_varint(deserializer)?.0;
        match EntityBlockIntersectionType::from_code(code) {
            Some(v) => Ok(v),
            None => Err(SerializingErr::InvalidEnumValue(#[verifier::truncate] (code as i8))),
        }
    }
}

impl McRoundTrip for EntityBlockIntersectionType {
    open spec fn spec_well_formed(v: EntityBlockIntersectionType) -> bool {
        true
    }

    proof fn lemma_round_trip(v: EntityBlockIntersectionType, rest: Seq<u8>) {
        lemma_varint_round_trip(v.spec_code() as i32, rest);
    }
}

/// One of the values of `DebugPathNodeType`, sent as a variable-length integer.
#[derive(Debug, Clone, Copy, PartialEq, Eq, Structural, Hash)]
pub enum DebugPathNodeType {
    Blocked,
    Open,
    Walkable,
    WalkableDoor,
    Trapdoor,
    PowderSnow,
    DangerPowderSnow,
    Fence,
    Lava,
    Water,
    WaterBorder,
    Rail,
    UnpassableRail,
    DangerFire,
    DamageFire,
    DangerOther,
    DamageOther,
    DoorOpen,
    DoorWoodClosed,
    DoorIronClosed,
    Breach,
    Leaves,
    StickyHoney,
    Cocoa,
    DamageCautious,
    DangerTrapdoor,
}

impl DebugPathNodeType {
    /// The number that stands for this value on the wire.
    pub open spec fn spec_code(self) -> int {
        match self {
            DebugPathNodeType::Blocked => 0,
            DebugPathNodeType::Open => 1,
            DebugPathNodeType::Walkable => 2,
            DebugPathNodeType::WalkableDoor => 3,
            DebugPathNodeType::Trapdoor => 4,
            DebugPathNodeType::PowderSnow => 5,
            DebugPathNodeType::DangerPowderSnow => 6,
            DebugPathNodeType::Fence => 7,
            DebugPathNodeType::Lava => 8,
            DebugPathNodeType::Water => 9,
            DebugPathNodeType::WaterBorder => 10,
            DebugPathNodeType::Rail => 11,
            DebugPathNodeType::UnpassableRail => 12,
            DebugPathNodeType::DangerFire => 13,
            DebugPathNodeType::DamageFire => 14,
            DebugPathNodeType::DangerOther => 15,
            DebugPathNodeType::DamageOther => 16,
            DebugPathNodeType::DoorOpen => 17,
            DebugPathNodeType::DoorWoodClosed => 18,
            DebugPathNodeType::DoorIronClosed => 19,
            DebugPathNodeType::Breach => 20,
            DebugPathNodeType::Leaves => 21,
            DebugPathNodeType::StickyHoney => 22,
            DebugPathNodeType::Cocoa => 23,
            DebugPathNodeType::DamageCautious => 24,
            DebugPathNodeType::DangerTrapdoor => 25,
        }
    }

    /// The value that the number `code` stands for, if any.
    pub open spec fn spec_from_code(code: int) -> Option<DebugPathNodeType> {
        if code == 0 {
            Some(DebugPathNodeType::Blocked)
        } else if code == 1 {
            Some(DebugPathNodeType::Open)
        } else if code == 2 {
            Some(DebugPathNodeType::Walkable)
        } else if code == 3 {
            Some(DebugPathNodeType::WalkableDoor)
        } else if code == 4 {
            Some(DebugPathNodeType::Trapdoor)
        } else if code == 5 {
            Some(DebugPathNodeType::PowderSnow)
        } else if code == 6 {
            Some(DebugPathNodeType::DangerPowderSnow)
        } else if code == 7 {
            Some(DebugPathNodeType::Fence)
        } else if code == 8 {
            Some(DebugPathNodeType::Lava)
        } else if code == 9 {
            Some(DebugPathNodeType::Water)
        } else if code == 10 {
            Some(DebugPathNodeType::WaterBorder)
        } else if code == 11 {
            Some(DebugPathNodeType::Rail)
        } else if code == 12 {
            Some(DebugPathNodeType::UnpassableRail)
        } else if code == 13 {
            Some(DebugPathNodeType::DangerFire)
        } else if code == 14 {
            Some(DebugPathNodeType::DamageFire)
        } else if code == 15 {
            Some(DebugPathNodeType::DangerOther)
        } else if code == 16 {
            Some(DebugPathNodeType::DamageOther)
        } else if code == 17 {
            Some(DebugPathNodeType::DoorOpen)
        } else if code == 18 {
            Some(DebugPathNodeType::DoorWoodClosed)
        } else if code == 19 {
            Some(DebugPathNodeType::DoorIronClosed)
        } else if code == 20 {
            Some(DebugPathNodeType::Breach)
        } else if code == 21 {
            Some(DebugPathNodeType::Leaves)
        } else if code == 22 {
            Some(DebugPathNodeType::StickyHoney)
        } else if code == 23 {
            Some(DebugPathNodeType::Cocoa)
        } else if code == 24 {
            Some(DebugPathNodeType::DamageCautious)
        } else if code == 25 {
            Some(DebugPathNodeType::DangerTrapdoor)
        } else {
            None
        }
    }

    /// The number that stands for this value on the wire.
    pub fn code(&self) -> (c: i32)
        ensures
            c == self.spec_code(),
    {
        match self {
            DebugPathNodeType::Blocked => 0,
            DebugPathNodeType::Open => 1,
            DebugPathNodeType::Walkable => 2,
            DebugPathNodeType::WalkableDoor => 3,
            DebugPathNodeType::Trapdoor => 4,
            DebugPathNodeType::PowderSnow => 5,
            DebugPathNodeType::DangerPowderSnow => 6,
            DebugPathNodeType::Fence => 7,
            DebugPathNodeType::Lava => 8,
            DebugPathNodeType::Water => 9,
            DebugPathNodeType::WaterBorder => 10,
            DebugPathNodeType::Rail => 11,
            DebugPathNodeType::UnpassableRail => 12,
            DebugPathNodeType::DangerFire => 13,
            DebugPathNodeType::DamageFire => 14,
            DebugPathNodeType::DangerOther => 15,
            DebugPathNodeType::DamageOther => 16,
            DebugPathNodeType::DoorOpen => 17,
            DebugPathNodeType::DoorWoodClosed => 18,
            DebugPathNodeType::DoorIronClosed => 19,
            DebugPathNodeType::Breach => 20,
            DebugPathNodeType::Leaves => 21,
            DebugPathNodeType::StickyHoney => 22,
            DebugPathNodeType::Cocoa => 23,
            DebugPathNodeType::DamageCautious => 24,
            DebugPathNodeType::DangerTrapdoor => 25,
        }
    }

    /// The value that the number `code` stands for, if any.
    pub fn from_code(code: i32) -> (r: Option<DebugPathNodeType>)
        ensures
            r == DebugPathNodeType::spec_from_code(code as int),
    {
        match code {
            0 => Some(DebugPathNodeType::Blocked),
            1 => Some(DebugPathNodeType::Open),
            2 => Some(DebugPathNodeType::Walkable),
            3 => Some(DebugPathNodeType::WalkableDoor),
            4 => Some(DebugPathNodeType::Trapdoor),
            5 => Some(DebugPathNodeType::PowderSnow),
            6 => Some(DebugPathNodeType::DangerPowderSnow),
            7 => Some(DebugPathNodeType::Fence),
            8 => Some(DebugPathNodeType::Lava),
            9 => Some(DebugPathNodeType::Water),
            10 => Some(DebugPathNodeType::WaterBorder),
            11 => Some(DebugPathNodeType::Rail),
            12 => Some(DebugPathNodeType::UnpassableRail),
            13 => Some(DebugPathNodeType::DangerFire),
            14 => Some(DebugPathNodeType::DamageFire),
            15 => Some(DebugPathNodeType::DangerOther),
            16 => Some(DebugPathNodeType::DamageOther),
            17 => Some(DebugPathNodeType::DoorOpen),
            18 => Some(DebugPathNodeType::DoorWoodClosed),
            19 => Some(DebugPathNodeType::DoorIronClosed),
            20 => Some(DebugPathNodeType::Breach),
            21 => Some(DebugPathNodeType::Leaves),
            22 => Some(DebugPathNodeType::StickyHoney),
            23 => Some(DebugPathNodeType::Cocoa),
            24 => Some(DebugPathNodeType::DamageCautious),
            25 => Some(DebugPathNodeType::DangerTrapdoor),
            _ => None,
        }
    }
}

impl DeepView for DebugPathNodeType {
    type V = DebugPathNodeType;

    open spec fn deep_view(&self) -> DebugPathNodeType {
        *self
    }
}

impl McSerialize for DebugPathNodeType {
    open spec fn spec_serialize(v: DebugPathNodeType) -> Seq<u8> {
        spec_varint_bytes(v.spec_code() as i32)
    }

    open spec fn spec_can_serialize(v: DebugPathNodeType) -> bool {
        true
    }

    fn mc_serialize(&self, serializer: &mut McSerializer) -> (r: Result<(), SerializingErr>) {
        write_varint(&mut serializer.output, self.code());
        Ok(())
    }
}

impl McDeserialize for DebugPathNodeType {
    /// The number, then the value it stands for; an unknown number is refused.
    open spec fn spec_deserialize(s: Seq<u8>) -> ParseResult<DebugPathNodeType> {
        match spec_varint_parse(s) {
            Ok((x, n)) => match DebugPathNodeType::spec_from_code(x.0 as int) {
                Some(v) => Ok((v, n)),
                None => Err(ErrKind::InvalidEnumValue(x.0 as i8)),
            },
            Err(e) => Err(e),
        }
    }

    proof fn lemma_deserialize_len(s: Seq<u8>) {
        VarInt::lemma_deserialize_len(s);
    }

    fn mc_deserialize(deserializer: &mut McDeserializer) -> (r: Result<DebugPathNodeType, SerializingErr>) {
        let code = read_varint(deserializer)?.0;
        match DebugPathNodeType::from_code(code) {
            Some(v) => Ok(v),
            None => Err(SerializingErr::InvalidEnumValue(#[verifier::truncate] (code as i8))),
        }
    }
}

impl McRoundTrip for DebugPathNodeType {
    open spec fn spec_well_formed(v: DebugPathNodeType) -> bool {
        true
    }

    proof fn lemma_round_trip(v: DebugPathNodeType, rest: Seq<u8>) {
        lemma_varint_round_trip(v.spec_code() as i32, rest);
    }
}

/// The type of a debug sample, determining how the accompanying `Prefixed Array of Long` is
/// interpreted.
#[derive(Debug, Clone, Copy, PartialEq, Eq, Structural, Hash)]
pub enum DebugSampleType {
    /// and idle time.
    TickTime,
}

impl DebugSampleType {
    /// The number that stands for this value on the wire.
    pub open spec fn spec_code(self) -> int {
        match self {
            DebugSampleType::TickTime => 0,
        }
    }

    /// The value that the number `code` stands for, if any.
    pub open spec fn spec_from_code(code: int) -> Option<DebugSampleType> {
        if code == 0 {
            Some(DebugSampleType::TickTime)
        } else {
            None
        }
    }

    /// The number that stands for this value on the wire.
    pub fn code(&self) -> (c: i32)
        ensures
            c == self.spec_code(),
    {
        match self {
            DebugSampleType::TickTime => 0,
        }
    }

    /// The value that the number `code` stands for, if any.
    pub fn from_code(code: i32) -> (r: Option<DebugSampleType>)
        ensures
            r == DebugSampleType::spec_from_code(code as int),
    {
        match code {
            0 => Some(DebugSampleType::TickTime),
            _ => None,
        }
    }
}

impl DeepView for DebugSampleType {
    type V = DebugSampleType;

    open spec fn deep_view(&self) -> DebugSampleType {
        *self
    }
}

impl McSerialize for DebugSampleType {
    open spec fn spec_serialize(v: DebugSampleType) -> Seq<u8> {
        spec_varint_bytes(v.spec_code() as i32)
    }

    open spec fn spec_can_serialize(v: DebugSampleType) -> bool {
        true
    }

    fn mc_serialize(&self, serializer: &mut McSerializer) -> (r: Result<(), SerializingErr>) {
        write_varint(&mut serializer.output, self.code());
        Ok(())
    }
}

impl McDeserialize for DebugSampleType {
    /// The number, then the value it stands for; an unknown number is refused.
    open spec fn spec_deserialize(s: Seq<u8>) -> ParseResult<DebugSampleType> {
        match spec_varint_parse(s) {
            Ok((x, n)) => match DebugSampleType::spec_from_code(x.0 as int) {
                Some(v) => Ok((v, n)),
                None => Err(ErrKind::InvalidEnumValue(x.0 as i8)),
            },
            Err(e) => Err(e),
        }
    }

    proof fn lemma_deserialize_len(s: Seq<u8>) {
        VarInt::lemma_deserialize_len(s);
    }

    fn mc_deserialize(deserializer: &mut McDeserializer) -> (r: Result<DebugSampleType, SerializingErr>) {
        let code = read_varint(deserializer)?.0;
        match DebugSampleType::from_code(code) {
            Some(v) => Ok(v),
            None => Err(SerializingErr::InvalidEnumValue(#[verifier::truncate] (code as i8))),
        }
    }
}

impl McRoundTrip for DebugSampleType {
    open spec fn spec_well_formed(v: DebugSampleType) -> bool {
        true
    }

    proof fn lemma_round_trip(v: DebugSampleType, rest: Seq<u8>) {
        lemma_varint_round_trip(v.spec_code() as i32, rest);
    }
}

/// The fields of [`BeeDebugData`] as they are sent, in order.
pub type BeeDebugDataFields = (PrefixedOptional<Position>, (PrefixedOptional<Position>, (VarInt, PrefixedArray<Position>)));

/// Debug data of a bee.
#[derive(Debug, Clone, PartialEq)]
pub struct BeeDebugData {
    pub hive_position: PrefixedOptional<Position>,
    pub flower_position: PrefixedOptional<Position>,
    pub travel_ticks: VarInt,
    pub blacklisted_hives: PrefixedArray<Position>,
}

impl DeepView for BeeDebugData {
    type V = <BeeDebugDataFields as DeepView>::V;

    open spec fn deep_view(&self) -> Self::V {
        (self.hive_position.deep_view(), (self.flower_position.deep_view(), (self.travel_ticks.deep_view(), self.blacklisted_hives.deep_view())))
    }
}

impl McSerialize for BeeDebugData {
    open spec fn spec_serialize(v: Self::V) -> Seq<u8> {
        BeeDebugDataFields::spec_serialize(v)
    }

    open spec fn spec_can_serialize(v: Self::V) -> bool {
        BeeDebugDataFields::spec_can_serialize(v)
    }

    fn mc_serialize(&self, serializer: &mut McSerializer) -> (r: Result<(), SerializingErr>) {
        let _ = self.hive_position.mc_serialize(serializer);
        let _ = self.flower_position.mc_serialize(serializer);
        let _ = self.travel_ticks.mc_serialize(serializer);
        let _ = self.blacklisted_hives.mc_serialize(serializer);
        assert(serializer.output@ == old(serializer).output@ + Self::spec_serialize(self.deep_view()));
        Ok(())
    }
}

impl McDeserialize for BeeDebugData {
    open spec fn spec_deserialize(s: Seq<u8>) -> ParseResult<Self::V> {
        BeeDebugDataFields::spec_deserialize(s)
    }

    proof fn lemma_deserialize_len(s: Seq<u8>) {
        BeeDebugDataFields::lemma_deserialize_len(s);
    }

    fn mc_deserialize(deserializer: &mut McDeserializer) -> (r: Result<BeeDebugData, SerializingErr>) {
        let (hive_position, (flower_position, (travel_ticks, blacklisted_hives))) = BeeDebugDataFields::mc_deserialize(deserializer)?;
        Ok(BeeDebugData { hive_position, flower_position, travel_ticks, blacklisted_hives })
    }
}

impl McRoundTrip for BeeDebugData {
    open spec fn spec_well_formed(v: Self::V) -> bool {
        BeeDebugDataFields::spec_well_formed(v)
    }

    proof fn lemma_round_trip(v: Self::V, rest: Seq<u8>) {
        BeeDebugDataFields::lemma_round_trip(v, rest);
    }
}

/// The fields of [`BreezeDebugData`] as they are sent, in order.
pub type BreezeDebugDataFields = (PrefixedOptional<VarInt>, PrefixedOptional<Position>);

/// Debug data of a breeze.
#[derive(Debug, Clone, PartialEq)]
pub struct BreezeDebugData {
    pub attack_target: PrefixedOptional<VarInt>,
    pub jump_target: PrefixedOptional<Position>,
}

impl DeepView for BreezeDebugData {
    type V = <BreezeDebugDataFields as DeepView>::V;

    open spec fn deep_view(&self) -> Self::V {
        (self.attack_target.deep_view(), self.jump_target.deep_view())
    }
}

impl McSerialize for BreezeDebugData {
    open spec fn spec_serialize(v: Self::V) -> Seq<u8> {
        BreezeDebugDataFields::spec_serialize(v)
    }

    open spec fn spec_can_serialize(v: Self::V) -> bool {
        BreezeDebugDataFields::spec_can_serialize(v)
    }

    fn mc_serialize(&self, serializer: &mut McSerializer) -> (r: Result<(), SerializingErr>) {
        let _ = self.attack_target.mc_serialize(serializer);
        let _ = self.jump_target.mc_serialize(serializer);
        assert(serializer.output@ == old(serializer).output@ + Self::spec_serialize(self.deep_view()));
        Ok(())
    }
}

impl McDeserialize for BreezeDebugData {
    open spec fn spec_deserialize(s: Seq<u8>) -> ParseResult<Self::V> {
        BreezeDebugDataFields::spec_deserialize(s)
    }

    proof fn lemma_deserialize_len(s: Seq<u8>) {
        BreezeDebugDataFields::lemma_deserialize_len(s);
    }

    fn mc_deserialize(deserializer: &mut McDeserializer) -> (r: Result<BreezeDebugData, SerializingErr>) {
        let (attack_target, jump_target) = BreezeDebugDataFields::mc_deserialize(deserializer)?;
        Ok(BreezeDebugData { attack_target, jump_target })
    }
}

impl McRoundTrip for BreezeDebugData {
    open spec fn spec_well_formed(v: Self::V) -> bool {
        BreezeDebugDataFields::spec_well_formed(v)
    }

    proof fn lemma_round_trip(v: Self::V, rest: Seq<u8>) {
        BreezeDebugDataFields::lemma_round_trip(v, rest);
    }
}

/// The fields of [`GoalSelectorDebugData`] as they are sent, in order.
pub type GoalSelectorDebugDataFields = (VarInt, (bool, String));

/// Debug data of one goal of a mob.
#[derive(Debug, Clone, PartialEq)]
pub struct GoalSelectorDebugData {
    pub priority: VarInt,
    pub is_running: bool,
    pub name: String,
}

impl DeepView for GoalSelectorDebugData {
    type V = <GoalSelectorDebugDataFields as DeepView>::V;

    open spec fn deep_view(&self) -> Self::V {
        (self.priority.deep_view(), (self.is_running.deep_view(), self.name.deep_view()))
    }
}

impl McSerialize for GoalSelectorDebugData {
    open spec fn spec_serialize(v: Self::V) -> Seq<u8> {
        GoalSelectorDebugDataFields::spec_serialize(v)
    }

    open spec fn spec_can_serialize(v: Self::V) -> bool {
        GoalSelectorDebugDataFields::spec_can_serialize(v)
    }

    fn mc_serialize(&self, serializer: &mut McSerializer) -> (r: Result<(), SerializingErr>) {
        let _ = self.priority.mc_serialize(serializer);
        let _ = self.is_running.mc_serialize(serializer);
        let _ = self.name.mc_serialize(serializer);
        assert(serializer.output@ == old(serializer).output@ + Self::spec_serialize(self.deep_view()));
        Ok(())
    }
}

impl McDeserialize for GoalSelectorDebugData {
    open spec fn spec_deserialize(s: Seq<u8>) -> ParseResult<Self::V> {
        GoalSelectorDebugDataFields::spec_deserialize(s)
    }

    proof fn lemma_deserialize_len(s: Seq<u8>) {
        GoalSelectorDebugDataFields::lemma_deserialize_len(s);
    }

    fn mc_deserialize(deserializer: &mut McDeserializer) -> (r: Result<GoalSelectorDebugData, SerializingErr>) {
        let (priority, (is_running, name)) = GoalSelectorDebugDataFields::mc_deserialize(deserializer)?;
        Ok(GoalSelectorDebugData { priority, is_running, name })
    }
}

impl McRoundTrip for GoalSelectorDebugData {
    open spec fn spec_well_formed(v: Self::V) -> bool {
        GoalSelectorDebugDataFields::spec_well_formed(v)
    }

    proof fn lemma_round_trip(v: Self::V, rest: Seq<u8>) {
        GoalSelectorDebugDataFields::lemma_round_trip(v, rest);
    }
}

/// The fields of [`BeeHiveDebugData`] as they are sent, in order.
pub type BeeHiveDebugDataFields = (VarInt, (VarInt, (VarInt, bool)));

/// Debug data of a bee hive; `typ` is an ID in the `minecraft:block` registry.
#[derive(Debug, Clone, PartialEq)]
pub struct BeeHiveDebugData {
    pub typ: VarInt,
    pub occupant_count: VarInt,
    pub honey_level: VarInt,
    pub sedated: bool,
}

impl DeepView for BeeHiveDebugData {
    type V = <BeeHiveDebugDataFields as DeepView>::V;

    open spec fn deep_view(&self) -> Self::V {
        (self.typ.deep_view(), (self.occupant_count.deep_view(), (self.honey_level.deep_view(), self.sedated.deep_view())))
    }
}

impl McSerialize for BeeHiveDebugData {
    open spec fn spec_serialize(v: Self::V) -> Seq<u8> {
        BeeHiveDebugDataFields::spec_serialize(v)
    }

    open spec fn spec_can_serialize(v: Self::V) -> bool {
        BeeHiveDebugDataFields::spec_can_serialize(v)
    }

    fn mc_serialize(&self, serializer: &mut McSerializer) -> (r: Result<(), SerializingErr>) {
        let _ = self.typ.mc_serialize(serializer);
        let _ = self.occupant_count.mc_serialize(serializer);
        let _ = self.honey_level.mc_serialize(serializer);
        let _ = self.sedated.mc_serialize(serializer);
        assert(serializer.output@ == old(serializer).output@ + Self::spec_serialize(self.deep_view()));
        Ok(())
    }
}

impl McDeserialize for BeeHiveDebugData {
    open spec fn spec_deserialize(s: Seq<u8>) -> ParseResult<Self::V> {
        BeeHiveDebugDataFields::spec_deserialize(s)
    }

    proof fn lemma_deserialize_len(s: Seq<u8>) {
        BeeHiveDebugDataFields::lemma_deserialize_len(s);
    }

    fn mc_deserialize(deserializer: &mut McDeserializer) -> (r: Result<BeeHiveDebugData, SerializingErr>) {
        let (typ, (occupant_count, (honey_level, sedated))) = BeeHiveDebugDataFields::mc_deserialize(deserializer)?;
        Ok(BeeHiveDebugData { typ, occupant_count, honey_level, sedated })
    }
}

impl McRoundTrip for BeeHiveDebugData {
    open spec fn spec_well_formed(v: Self::V) -> bool {
        BeeHiveDebugDataFields::spec_well_formed(v)
    }

    proof fn lemma_round_trip(v: Self::V, rest: Seq<u8>) {
        BeeHiveDebugDataFields::lemma_round_trip(v, rest);
    }
}

/// The fields of [`PoiDebugData`] as they are sent, in order.
pub type PoiDebugDataFields = (Position, (VarInt, VarInt));

/// Debug data of a point of interest; `typ` is an ID in the `minecraft:point_of_interest_type` registry.
#[derive(Debug, Clone, PartialEq)]
pub struct PoiDebugData {
    pub position: Position,
    pub typ: VarInt,
    pub free_ticket_count: VarInt,
}

impl DeepView for PoiDebugData {
    type V = <PoiDebugDataFields as DeepView>::V;

    open spec fn deep_view(&self) -> Self::V {
        (self.position.deep_view(), (self.typ.deep_view(), self.free_ticket_count.deep_view()))
    }
}

impl McSerialize for PoiDebugData {
    open spec fn spec_serialize(v: Self::V) -> Seq<u8> {
        PoiDebugDataFields::spec_serialize(v)
    }

    open spec fn spec_can_serialize(v: Self::V) -> bool {
        PoiDebugDataFields::spec_can_serialize(v)
    }

    fn mc_serialize(&self, serializer: &mut McSerializer) -> (r: Result<(), SerializingErr>) {
        let _ = self.position.mc_serialize(serializer);
        let _ = self.typ.mc_serialize(serializer);
        let _ = self.free_ticket_count.mc_serialize(serializer);
        assert(serializer.output@ == old(serializer).output@ + Self::spec_serialize(self.deep_view()));
        Ok(())
    }
}

impl McDeserialize for PoiDebugData {
    open spec fn spec_deserialize(s: Seq<u8>) -> ParseResult<Self::V> {
        PoiDebugDataFields::spec_deserialize(s)
    }

    proof fn lemma_deserialize_len(s: Seq<u8>) {
        PoiDebugDataFields::lemma_deserialize_len(s);
    }

    fn mc_deserialize(deserializer: &mut McDeserializer) -> (r: Result<PoiDebugData, SerializingErr>) {
        let (position, (typ, free_ticket_count)) = PoiDebugDataFields::mc_deserialize(deserializer)?;
        Ok(PoiDebugData { position, typ, free_ticket_count })
    }
}

impl McRoundTrip for PoiDebugData {
    open spec fn spec_well_formed(v: Self::V) -> bool {
        PoiDebugDataFields::spec_well_formed(v)
    }

    proof fn lemma_round_trip(v: Self::V, rest: Seq<u8>) {
        PoiDebugDataFields::lemma_round_trip(v, rest);
    }
}

/// The fields of [`RaidDebugData`] as they are sent, in order.
pub type RaidDebugDataFields = PrefixedArray<Position>;

/// Debug data of raids: where they are.
#[derive(Debug, Clone, PartialEq)]
pub struct RaidDebugData {
    pub positions: PrefixedArray<Position>,
}

impl DeepView for RaidDebugData {
    type V = <RaidDebugDataFields as DeepView>::V;

    open spec fn deep_view(&self) -> Self::V {
        self.positions.deep_view()
    }
}

impl McSerialize for RaidDebugData {
    open spec fn spec_serialize(v: Self::V) -> Seq<u8> {
        RaidDebugDataFields::spec_serialize(v)
    }

    open spec fn spec_can_serialize(v: Self::V) -> bool {
        RaidDebugDataFields::spec_can_serialize(v)
    }

    fn mc_serialize(&self, serializer: &mut McSerializer) -> (r: Result<(), SerializingErr>) {
        let _ = self.positions.mc_serialize(serializer);
        Ok(())
    }
}

impl McDeserialize for RaidDebugData {
    open spec fn spec_deserialize(s: Seq<u8>) -> ParseResult<Self::V> {
        RaidDebugDataFields::spec_deserialize(s)
    }

    proof fn lemma_deserialize_len(s: Seq<u8>) {
        RaidDebugDataFields::lemma_deserialize_len(s);
    }

    fn mc_deserialize(deserializer: &mut McDeserializer) -> (r: Result<RaidDebugData, SerializingErr>) {
        let positions = RaidDebugDataFields::mc_deserialize(deserializer)?;
        Ok(RaidDebugData { positions })
    }
}

impl McRoundTrip for RaidDebugData {
    open spec fn spec_well_formed(v: Self::V) -> bool {
        RaidDebugDataFields::spec_well_formed(v)
    }

    proof fn lemma_round_trip(v: Self::V, rest: Seq<u8>) {
        RaidDebugDataFields::lemma_round_trip(v, rest);
    }
}

/// The fields of [`DebugStructurePiece`] as they are sent, in order.
pub type DebugStructurePieceFields = (Position, (Position, bool));

/// One piece of a structure, for debugging.
#[derive(Debug, Clone, PartialEq)]
pub struct DebugStructurePiece {
    pub bounding_box_min: Position,
    pub bounding_box_max: Position,
    pub is_start: bool,
}

impl DeepView for DebugStructurePiece {
    type V = <DebugStructurePieceFields as DeepView>::V;

    open spec fn deep_view(&self) -> Self::V {
        (self.bounding_box_min.deep_view(), (self.bounding_box_max.deep_view(), self.is_start.deep_view()))
    }
}

impl McSerialize for DebugStructurePiece {
    open spec fn spec_serialize(v: Self::V) -> Seq<u8> {
        DebugStructurePieceFields::spec_serialize(v)
    }

    open spec fn spec_can_serialize(v: Self::V) -> bool {
        DebugStructurePieceFields::spec_can_serialize(v)
    }

    fn mc_serialize(&self, serializer: &mut McSerializer) -> (r: Result<(), SerializingErr>) {
        let _ = self.bounding_box_min.mc_serialize(serializer);
        let _ = self.bounding_box_max.mc_serialize(serializer);
        let _ = self.is_start.mc_serialize(serializer);
        assert(serializer.output@ == old(serializer).output@ + Self::spec_serialize(self.deep_view()));
        Ok(())
    }
}

impl McDeserialize for DebugStructurePiece {
    open spec fn spec_deserialize(s: Seq<u8>) -> ParseResult<Self::V> {
        DebugStructurePieceFields::spec_deserialize(s)
    }

    proof fn lemma_deserialize_len(s: Seq<u8>) {
        DebugStructurePieceFields::lemma_deserialize_len(s);
    }

    fn mc_deserialize(deserializer: &mut McDeserializer) -> (r: Result<DebugStructurePiece, SerializingErr>) {
        let (bounding_box_min, (bounding_box_max, is_start)) = DebugStructurePieceFields::mc_deserialize(deserializer)?;
        Ok(DebugStructurePiece { bounding_box_min, bounding_box_max, is_start })
    }
}

impl McRoundTrip for DebugStructurePiece {
    open spec fn spec_well_formed(v: Self::V) -> bool {
        DebugStructurePieceFields::spec_well_formed(v)
    }

    proof fn lemma_round_trip(v: Self::V, rest: Seq<u8>) {
        DebugStructurePieceFields::lemma_round_trip(v, rest);
    }
}

/// The fields of [`DebugStructureInfo`] as they are sent, in order.
pub type DebugStructureInfoFields = (Position, (Position, PrefixedArray<DebugStructurePiece>));

/// A structure and its pieces, for debugging.
#[derive(Debug, Clone, PartialEq)]
pub struct DebugStructureInfo {
    pub bounding_box_min: Position,
    pub bounding_box_max: Position,
    pub pieces: PrefixedArray<DebugStructurePiece>,
}

impl DeepView for DebugStructureInfo {
    type V = <DebugStructureInfoFields as DeepView>::V;

    open spec fn deep_view(&self) -> Self::V {
        (self.bounding_box_min.deep_view(), (self.bounding_box_max.deep_view(), self.pieces.deep_view()))
    }
}

impl McSerialize for DebugStructureInfo {
    open spec fn spec_serialize(v: Self::V) -> Seq<u8> {
        DebugStructureInfoFields::spec_serialize(v)
    }

    open spec fn spec_can_serialize(v: Self::V) -> bool {
        DebugStructureInfoFields::spec_can_serialize(v)
    }

    fn mc_serialize(&self, serializer: &mut McSerializer) -> (r: Result<(), SerializingErr>) {
        let _ = self.bounding_box_min.mc_serialize(serializer);
        let _ = self.bounding_box_max.mc_serialize(serializer);
        let _ = self.pieces.mc_serialize(serializer);
        assert(serializer.output@ == old(serializer).output@ + Self::spec_serialize(self.deep_view()));
        Ok(())
    }
}

impl McDeserialize for DebugStructureInfo {
    open spec fn spec_deserialize(s: Seq<u8>) -> ParseResult<Self::V> {
        DebugStructureInfoFields::spec_deserialize(s)
    }

    proof fn lemma_deserialize_len(s: Seq<u8>) {
        DebugStructureInfoFields::lemma_deserialize_len(s);
    }

    fn mc_deserialize(deserializer: &mut McDeserializer) -> (r: Result<DebugStructureInfo, SerializingErr>) {
        let (bounding_box_min, (bounding_box_max, pieces)) = DebugStructureInfoFields::mc_deserialize(deserializer)?;
        Ok(DebugStructureInfo { bounding_box_min, bounding_box_max, pieces })
    }
}

impl McRoundTrip for DebugStructureInfo {
    open spec fn spec_well_formed(v: Self::V) -> bool {
        DebugStructureInfoFields::spec_well_formed(v)
    }

    proof fn lemma_round_trip(v: Self::V, rest: Seq<u8>) {
        DebugStructureInfoFields::lemma_round_trip(v, rest);
    }
}

/// The fields of [`StructureDebugData`] as they are sent, in order.
pub type StructureDebugDataFields = PrefixedArray<DebugStructureInfo>;

/// Debug data of structures.
#[derive(Debug, Clone, PartialEq)]
pub struct StructureDebugData {
    pub structures: PrefixedArray<DebugStructureInfo>,
}

impl DeepView for StructureDebugData {
    type V = <StructureDebugDataFields as DeepView>::V;

    open spec fn deep_view(&self) -> Self::V {
        self.structures.deep_view()
    }
}

impl McSerialize for StructureDebugData {
    open spec fn spec_serialize(v: Self::V) -> Seq<u8> {
        StructureDebugDataFields::spec_serialize(v)
    }

    open spec fn spec_can_serialize(v: Self::V) -> bool {
        StructureDebugDataFields::spec_can_serialize(v)
    }

    fn mc_serialize(&self, serializer: &mut McSerializer) -> (r: Result<(), SerializingErr>) {
        let _ = self.structures.mc_serialize(serializer);
        Ok(())
    }
}

impl McDeserialize for StructureDebugData {
    open spec fn spec_deserialize(s: Seq<u8>) -> ParseResult<Self::V> {
        StructureDebugDataFields::spec_deserialize(s)
    }

    proof fn lemma_deserialize_len(s: Seq<u8>) {
        StructureDebugDataFields::lemma_deserialize_len(s);
    }

    fn mc_deserialize(deserializer: &mut McDeserializer) -> (r: Result<StructureDebugData, SerializingErr>) {
        let structures = StructureDebugDataFields::mc_deserialize(deserializer)?;
        Ok(StructureDebugData { structures })
    }
}

impl McRoundTrip for StructureDebugData {
    open spec fn spec_well_formed(v: Self::V) -> bool {
        StructureDebugDataFields::spec_well_formed(v)
    }

    proof fn lemma_round_trip(v: Self::V, rest: Seq<u8>) {
        StructureDebugDataFields::lemma_round_trip(v, rest);
    }
}

/// The fields of [`CustomReportDetail`] as they are sent, in order.
pub type CustomReportDetailFields = (String, String);

/// One detail of a custom report.
#[derive(Debug, Clone, PartialEq)]
pub struct CustomReportDetail {
    pub title: String,
    pub description: String,
}

impl DeepView for CustomReportDetail {
    type V = <CustomReportDetailFields as DeepView>::V;

    open spec fn deep_view(&self) -> Self::V {
        (self.title.deep_view(), self.description.deep_view())
    }
}

impl McSerialize for CustomReportDetail {
    open spec fn spec_serialize(v: Self::V) -> Seq<u8> {
        CustomReportDetailFields::spec_serialize(v)
    }

    open spec fn spec_can_serialize(v: Self::V) -> bool {
        CustomReportDetailFields::spec_can_serialize(v)
    }

    fn mc_serialize(&self, serializer: &mut McSerializer) -> (r: Result<(), SerializingErr>) {
        let _ = self.title.mc_serialize(serializer);
        let _ = self.description.mc_serialize(serializer);
        assert(serializer.output@ == old(serializer).output@ + Self::spec_serialize(self.deep_view()));
        Ok(())
    }
}

impl McDeserialize for CustomReportDetail {
    open spec fn spec_deserialize(s: Seq<u8>) -> ParseResult<Self::V> {
        CustomReportDetailFields::spec_deserialize(s)
    }

    proof fn lemma_deserialize_len(s: Seq<u8>) {
        CustomReportDetailFields::lemma_deserialize_len(s);
    }

    fn mc_deserialize(deserializer: &mut McDeserializer) -> (r: Result<CustomReportDetail, SerializingErr>) {
        let (title, description) = CustomReportDetailFields::mc_deserialize(deserializer)?;
        Ok(CustomReportDetail { title, description })
    }
}

impl McRoundTrip for CustomReportDetail {
    open spec fn spec_well_formed(v: Self::V) -> bool {
        CustomReportDetailFields::spec_well_formed(v)
    }

    proof fn lemma_round_trip(v: Self::V, rest: Seq<u8>) {
        CustomReportDetailFields::lemma_round_trip(v, rest);
    }
}

} // verus!
