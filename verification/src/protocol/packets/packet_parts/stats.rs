//! Packet parts of statistics.

use crate::protocol::serialization::serializer_types::{PrefixedArray, PrefixedOptional};
use crate::protocol::serialization::var_int::{
    lemma_varint_round_trip, read_varint, spec_varint_bytes, spec_varint_parse, write_varint, VarInt,
};
use crate::protocol::serialization::{
    ErrKind, McDeserialize, McDeserializer, McRoundTrip, McSerialize, McSerializer, ParseResult,
    SerializingErr,
};
use vstd::prelude::*;

verus! {

/// Statistic categories defined in the `minecraft:stat_type` registry. Each category determines
/// which registry the associated statistic ID refers to (block, item, entity_type, or custom_stat).
#[derive(Debug, Clone, Copy, PartialEq, Eq, Structural, Hash)]
pub enum StatCategory {
    Mined,
    Crafted,
    Used,
    Broken,
    PickedUp,
    Dropped,
    Killed,
    KilledBy,
    Custom,
}

impl StatCategory {
    /// The number that stands for this value on the wire.
    pub open spec fn spec_code(self) -> int {
        match self {
            StatCategory::Mined => 0,
            StatCategory::Crafted => 1,
            StatCategory::Used => 2,
            StatCategory::Broken => 3,
            StatCategory::PickedUp => 4,
            StatCategory::Dropped => 5,
            StatCategory::Killed => 6,
            StatCategory::KilledBy => 7,
            StatCategory::Custom => 8,
        }
    }

    /// The value that the number `code` stands for, if any.
    pub open spec fn spec_from_code(code: int) -> Option<StatCategory> {
        if code == 0 {
            Some(StatCategory::Mined)
        } else if code == 1 {
            Some(StatCategory::Crafted)
        } else if code == 2 {
            Some(StatCategory::Used)
        } else if code == 3 {
            Some(StatCategory::Broken)
        } else if code == 4 {
            Some(StatCategory::PickedUp)
        } else if code == 5 {
            Some(StatCategory::Dropped)
        } else if code == 6 {
            Some(StatCategory::Killed)
        } else if code == 7 {
            Some(StatCategory::KilledBy)
        } else if code == 8 {
            Some(StatCategory::Custom)
        } else {
            None
        }
    }

    /// The number that stands for this value on the wire.
    pub fn code(&self) -> (c: i32)
        ensures
            c == self.spec_code(),
    {
        match self {
            StatCategory::Mined => 0,
            StatCategory::Crafted => 1,
            StatCategory::Used => 2,
            StatCategory::Broken => 3,
            StatCategory::PickedUp => 4,
            StatCategory::Dropped => 5,
            StatCategory::Killed => 6,
            StatCategory::KilledBy => 7,
            StatCategory::Custom => 8,
        }
    }

    /// The value that the number `code` stands for, if any.
    pub fn from_code(code: i32) -> (r: Option<StatCategory>)
        ensures
            r == StatCategory::spec_from_code(code as int),
    {
        match code {
            0 => Some(StatCategory::Mined),
            1 => Some(StatCategory::Crafted),
            2 => Some(StatCategory::Used),
            3 => Some(StatCategory::Broken),
            4 => Some(StatCategory::PickedUp),
            5 => Some(StatCategory::Dropped),
            6 => Some(StatCategory::Killed),
            7 => Some(StatCategory::KilledBy),
            8 => Some(StatCategory::Custom),
            _ => None,
        }
    }
}

impl DeepView for StatCategory {
    type V = StatCategory;

    open spec fn deep_view(&self) -> StatCategory {
        *self
    }
}

impl McSerialize for StatCategory {
    open spec fn spec_serialize(v: StatCategory) -> Seq<u8> {
        spec_varint_bytes(v.spec_code() as i32)
    }

    open spec fn spec_can_serialize(v: StatCategory) -> bool {
        true
    }

    fn mc_serialize(&self, serializer: &mut McSerializer) -> (r: Result<(), SerializingErr>) {
        write_varint(&mut serializer.output, self.code());
        Ok(())
    }
}

impl McDeserialize for StatCategory {
    /// The number, then the value it stands for; an unknown number is refused.
    open spec fn spec_deserialize(s: Seq<u8>) -> ParseResult<StatCategory> {
        match spec_varint_parse(s) {
            Ok((x, n)) => match StatCategory::spec_from_code(x.0 as int) {
                Some(v) => Ok((v, n)),
                None => Err(ErrKind::InvalidEnumValue(x.0 as i8)),
            },
            Err(e) => Err(e),
        }
    }

    proof fn lemma_deserialize_len(s: Seq<u8>) {
        VarInt::lemma_deserialize_len(s);
    }

    fn mc_deserialize(deserializer: &mut McDeserializer) -> (r: Result<StatCategory, SerializingErr>) {
        let code = read_varint(deserializer)?.0;
        match StatCategory::from_code(code) {
            Some(v) => Ok(v),
            None => Err(SerializingErr::InvalidEnumValue(#[verifier::truncate] (code as i8))),
        }
    }
}

impl McRoundTrip for StatCategory {
    open spec fn spec_well_formed(v: StatCategory) -> bool {
        true
    }

    proof fn lemma_round_trip(v: StatCategory, rest: Seq<u8>) {
        lemma_varint_round_trip(v.spec_code() as i32, rest);
    }
}

/// Custom statistic IDs defined in the `minecraft:custom_stat` registry. Used when the
/// [StatCategory] is [StatCategory::Custom].
#[derive(Debug, Clone, Copy, PartialEq, Eq, Structural, Hash)]
pub enum StatID {
    LeaveGame,
    PlayTime,
    TotalWorldTime,
    TimeSinceDeath,
    TimeSinceRest,
    SneakTime,
    WalkOneCm,
    CrouchOneCm,
    SprintOneCm,
    WalkOnWaterOneCm,
    FallOneCm,
    ClimbOneCm,
    FlyOneCm,
    WalkUnderWaterOneCm,
    MinecartOneCm,
    BoatOneCm,
    PigOneCm,
    HappyGhastOneCm,
    HorseOneCm,
    AviateOneCm,
    SwimOneCm,
    StriderOneCm,
    Jump,
    Drop,
    DamageDealt,
    DamageDealtAbsorbed,
    DamageDealtResisted,
    DamageTaken,
    DamageBlockedByShield,
    DamageAbsorbed,
    DamageResisted,
    Deaths,
    MobKills,
    AnimalsBred,
    PlayerKills,
    FishCaught,
    TalkedToVillager,
    TradedWithVillager,
    EatCakeSlice,
    FillCauldron,
    UseCauldron,
    CleanArmor,
    CleanBanner,
    CleanShulkerBox,
    InteractWithBrewingstand,
    InteractWithBeacon,
    InspectDropper,
    InspectHopper,
    InspectDispenser,
    PlayNoteblock,
    TuneNoteblock,
    PotFlower,
    TriggerTrappedChest,
    OpenEnderchest,
    EnchantItem,
    PlayRecord,
    InteractWithFurnace,
    InteractWithCraftingTable,
    OpenChest,
    SleepInBed,
    OpenShulkerBox,
    OpenBarrel,
    InteractWithBlastFurnace,
    InteractWithSmoker,
    InteractWithLectern,
    InteractWithCampfire,
    InteractWithCartographyTable,
    InteractWithLoom,
    InteractWithStonecutter,
    BellRing,
    RaidTrigger,
    RaidWin,
    InteractWithAnvil,
    InteractWithGrindstone,
    TargetHit,
    InteractWithSmithingTable,
}

impl StatID {
    /// The number that stands for this value on the wire.
    pub open spec fn spec_code(self) -> int {
        match self {
            StatID::LeaveGame => 0,
            StatID::PlayTime => 1,
            StatID::TotalWorldTime => 2,
            StatID::TimeSinceDeath => 3,
            StatID::TimeSinceRest => 4,
            StatID::SneakTime => 5,
            StatID::WalkOneCm => 6,
            StatID::CrouchOneCm => 7,
            StatID::SprintOneCm => 8,
            StatID::WalkOnWaterOneCm => 9,
            StatID::FallOneCm => 10,
            StatID::ClimbOneCm => 11,
            StatID::FlyOneCm => 12,
            StatID::WalkUnderWaterOneCm => 13,
            StatID::MinecartOneCm => 14,
            StatID::BoatOneCm => 15,
            StatID::PigOneCm => 16,
            StatID::HappyGhastOneCm => 17,
            StatID::HorseOneCm => 18,
            StatID::AviateOneCm => 19,
            StatID::SwimOneCm => 20,
            StatID::StriderOneCm => 21,
            StatID::Jump => 22,
            StatID::Drop => 23,
            StatID::DamageDealt => 24,
            StatID::DamageDealtAbsorbed => 25,
            StatID::DamageDealtResisted => 26,
            StatID::DamageTaken => 27,
            StatID::DamageBlockedByShield => 28,
            StatID::DamageAbsorbed => 29,
            StatID::DamageResisted => 30,
            StatID::Deaths => 31,
            StatID::MobKills => 32,
            StatID::AnimalsBred => 33,
            StatID::PlayerKills => 34,
            StatID::FishCaught => 35,
            StatID::TalkedToVillager => 36,
            StatID::TradedWithVillager => 37,
            StatID::EatCakeSlice => 38,
            StatID::FillCauldron => 39,
            StatID::UseCauldron => 40,
            StatID::CleanArmor => 41,
            StatID::CleanBanner => 42,
            StatID::CleanShulkerBox => 43,
            StatID::InteractWithBrewingstand => 44,
            StatID::InteractWithBeacon => 45,
            StatID::InspectDropper => 46,
            StatID::InspectHopper => 47,
            StatID::InspectDispenser => 48,
            StatID::PlayNoteblock => 49,
            StatID::TuneNoteblock => 50,
            StatID::PotFlower => 51,
            StatID::TriggerTrappedChest => 52,
            StatID::OpenEnderchest => 53,
            StatID::EnchantItem => 54,
            StatID::PlayRecord => 55,
            StatID::InteractWithFurnace => 56,
            StatID::InteractWithCraftingTable => 57,
            StatID::OpenChest => 58,
            StatID::SleepInBed => 59,
            StatID::OpenShulkerBox => 60,
            StatID::OpenBarrel => 61,
            StatID::InteractWithBlastFurnace => 62,
            StatID::InteractWithSmoker => 63,
            StatID::InteractWithLectern => 64,
            StatID::InteractWithCampfire => 65,
            StatID::InteractWithCartographyTable => 66,
            StatID::InteractWithLoom => 67,
            StatID::InteractWithStonecutter => 68,
            StatID::BellRing => 69,
            StatID::RaidTrigger => 70,
            StatID::RaidWin => 71,
            StatID::InteractWithAnvil => 72,
            StatID::InteractWithGrindstone => 73,
            StatID::TargetHit => 74,
            StatID::InteractWithSmithingTable => 75,
        }
    }

    /// The value that the number `code` stands for, if any.
    pub open spec fn spec_from_code(code: int) -> Option<StatID> {
        if code == 0 {
            Some(StatID::LeaveGame)
        } else if code == 1 {
            Some(StatID::PlayTime)
        } else if code == 2 {
            Some(StatID::TotalWorldTime)
        } else if code == 3 {
            Some(StatID::TimeSinceDeath)
        } else if code == 4 {
            Some(StatID::TimeSinceRest)
        } else if code == 5 {
            Some(StatID::SneakTime)
        } else if code == 6 {
            Some(StatID::WalkOneCm)
        } else if code == 7 {
            Some(StatID::CrouchOneCm)
        } else if code == 8 {
            Some(StatID::SprintOneCm)
        } else if code == 9 {
            Some(StatID::WalkOnWaterOneCm)
        } else if code == 10 {
            Some(StatID::FallOneCm)
        } else if code == 11 {
            Some(StatID::ClimbOneCm)
        } else if code == 12 {
            Some(StatID::FlyOneCm)
        } else if code == 13 {
            Some(StatID::WalkUnderWaterOneCm)
        } else if code == 14 {
            Some(StatID::MinecartOneCm)
        } else if code == 15 {
            Some(StatID::BoatOneCm)
        } else if code == 16 {
            Some(StatID::PigOneCm)
        } else if code == 17 {
            Some(StatID::HappyGhastOneCm)
        } else if code == 18 {
            Some(StatID::HorseOneCm)
        } else if code == 19 {
            Some(StatID::AviateOneCm)
        } else if code == 20 {
            Some(StatID::SwimOneCm)
        } else if code == 21 {
            Some(StatID::StriderOneCm)
        } else if code == 22 {
            Some(StatID::Jump)
        } else if code == 23 {
            Some(StatID::Drop)
        } else if code == 24 {
            Some(StatID::DamageDealt)
        } else if code == 25 {
            Some(StatID::DamageDealtAbsorbed)
        } else if code == 26 {
            Some(StatID::DamageDealtResisted)
        } else if code == 27 {
            Some(StatID::DamageTaken)
        } else if code == 28 {
            Some(StatID::DamageBlockedByShield)
        } else if code == 29 {
            Some(StatID::DamageAbsorbed)
        } else if code == 30 {
            Some(StatID::DamageResisted)
        } else if code == 31 {
            Some(StatID::Deaths)
        } else if code == 32 {
            Some(StatID::MobKills)
        } else if code == 33 {
            Some(StatID::AnimalsBred)
        } else if code == 34 {
            Some(StatID::PlayerKills)
        } else if code == 35 {
            Some(StatID::FishCaught)
        } else if code == 36 {
            Some(StatID::TalkedToVillager)
        } else if code == 37 {
            Some(StatID::TradedWithVillager)
        } else if code == 38 {
            Some(StatID::EatCakeSlice)
        } else if code == 39 {
            Some(StatID::FillCauldron)
        } else if code == 40 {
            Some(StatID::UseCauldron)
        } else if code == 41 {
            Some(StatID::CleanArmor)
        } else if code == 42 {
            Some(StatID::CleanBanner)
        } else if code == 43 {
            Some(StatID::CleanShulkerBox)
        } else if code == 44 {
            Some(StatID::InteractWithBrewingstand)
        } else if code == 45 {
            Some(StatID::InteractWithBeacon)
        } else if code == 46 {
            Some(StatID::InspectDropper)
        } else if code == 47 {
            Some(StatID::InspectHopper)
        } else if code == 48 {
            Some(StatID::InspectDispenser)
        } else if code == 49 {
            Some(StatID::PlayNoteblock)
        } else if code == 50 {
            Some(StatID::TuneNoteblock)
        } else if code == 51 {
            Some(StatID::PotFlower)
        } else if code == 52 {
            Some(StatID::TriggerTrappedChest)
        } else if code == 53 {
            Some(StatID::OpenEnderchest)
        } else if code == 54 {
            Some(StatID::EnchantItem)
        } else if code == 55 {
            Some(StatID::PlayRecord)
        } else if code == 56 {
            Some(StatID::InteractWithFurnace)
        } else if code == 57 {
            Some(StatID::InteractWithCraftingTable)
        } else if code == 58 {
            Some(StatID::OpenChest)
        } else if code == 59 {
            Some(StatID::SleepInBed)
        } else if code == 60 {
            Some(StatID::OpenShulkerBox)
        } else if code == 61 {
            Some(StatID::OpenBarrel)
        } else if code == 62 {
            Some(StatID::InteractWithBlastFurnace)
        } else if code == 63 {
            Some(StatID::InteractWithSmoker)
        } else if code == 64 {
            Some(StatID::InteractWithLectern)
        } else if code == 65 {
            Some(StatID::InteractWithCampfire)
        } else if code == 66 {
            Some(StatID::InteractWithCartographyTable)
        } else if code == 67 {
            Some(StatID::InteractWithLoom)
        } else if code == 68 {
            Some(StatID::InteractWithStonecutter)
        } else if code == 69 {
            Some(StatID::BellRing)
        } else if code == 70 {
            Some(StatID::RaidTrigger)
        } else if code == 71 {
            Some(StatID::RaidWin)
        } else if code == 72 {
            Some(StatID::InteractWithAnvil)
        } else if code == 73 {
            Some(StatID::InteractWithGrindstone)
        } else if code == 74 {
            Some(StatID::TargetHit)
        } else if code == 75 {
            Some(StatID::InteractWithSmithingTable)
        } else {
            None
        }
    }

    /// The number that stands for this value on the wire.
    pub fn code(&self) -> (c: i32)
        ensures
            c == self.spec_code(),
    {
        match self {
            StatID::LeaveGame => 0,
            StatID::PlayTime => 1,
            StatID::TotalWorldTime => 2,
            StatID::TimeSinceDeath => 3,
            StatID::TimeSinceRest => 4,
            StatID::SneakTime => 5,
            StatID::WalkOneCm => 6,
            StatID::CrouchOneCm => 7,
            StatID::SprintOneCm => 8,
            StatID::WalkOnWaterOneCm => 9,
            StatID::FallOneCm => 10,
            StatID::ClimbOneCm => 11,
            StatID::FlyOneCm => 12,
            StatID::WalkUnderWaterOneCm => 13,
            StatID::MinecartOneCm => 14,
            StatID::BoatOneCm => 15,
            StatID::PigOneCm => 16,
            StatID::HappyGhastOneCm => 17,
            StatID::HorseOneCm => 18,
            StatID::AviateOneCm => 19,
            StatID::SwimOneCm => 20,
            StatID::StriderOneCm => 21,
            StatID::Jump => 22,
            StatID::Drop => 23,
            StatID::DamageDealt => 24,
            StatID::DamageDealtAbsorbed => 25,
            StatID::DamageDealtResisted => 26,
            StatID::DamageTaken => 27,
            StatID::DamageBlockedByShield => 28,
            StatID::DamageAbsorbed => 29,
            StatID::DamageResisted => 30,
            StatID::Deaths => 31,
            StatID::MobKills => 32,
            StatID::AnimalsBred => 33,
            StatID::PlayerKills => 34,
            StatID::FishCaught => 35,
            StatID::TalkedToVillager => 36,
            StatID::TradedWithVillager => 37,
            StatID::EatCakeSlice => 38,
            StatID::FillCauldron => 39,
            StatID::UseCauldron => 40,
            StatID::CleanArmor => 41,
            StatID::CleanBanner => 42,
            StatID::CleanShulkerBox => 43,
            StatID::InteractWithBrewingstand => 44,
            StatID::InteractWithBeacon => 45,
            StatID::InspectDropper => 46,
            StatID::InspectHopper => 47,
            StatID::InspectDispenser => 48,
            StatID::PlayNoteblock => 49,
            StatID::TuneNoteblock => 50,
            StatID::PotFlower => 51,
            StatID::TriggerTrappedChest => 52,
            StatID::OpenEnderchest => 53,
            StatID::EnchantItem => 54,
            StatID::PlayRecord => 55,
            StatID::InteractWithFurnace => 56,
            StatID::InteractWithCraftingTable => 57,
            StatID::OpenChest => 58,
            StatID::SleepInBed => 59,
            StatID::OpenShulkerBox => 60,
            StatID::OpenBarrel => 61,
            StatID::InteractWithBlastFurnace => 62,
            StatID::InteractWithSmoker => 63,
            StatID::InteractWithLectern => 64,
            StatID::InteractWithCampfire => 65,
            StatID::InteractWithCartographyTable => 66,
            StatID::InteractWithLoom => 67,
            StatID::InteractWithStonecutter => 68,
            StatID::BellRing => 69,
            StatID::RaidTrigger => 70,
            StatID::RaidWin => 71,
            StatID::InteractWithAnvil => 72,
            StatID::InteractWithGrindstone => 73,
            StatID::TargetHit => 74,
            StatID::InteractWithSmithingTable => 75,
        }
    }

    /// The value that the number `code` stands for, if any.
    pub fn from_code(code: i32) -> (r: Option<StatID>)
        ensures
            r == StatID::spec_from_code(code as int),
    {
        match code {
            0 => Some(StatID::LeaveGame),
            1 => Some(StatID::PlayTime),
            2 => Some(StatID::TotalWorldTime),
            3 => Some(StatID::TimeSinceDeath),
            4 => Some(StatID::TimeSinceRest),
            5 => Some(StatID::SneakTime),
            6 => Some(StatID::WalkOneCm),
            7 => Some(StatID::CrouchOneCm),
            8 => Some(StatID::SprintOneCm),
            9 => Some(StatID::WalkOnWaterOneCm),
            10 => Some(StatID::FallOneCm),
            11 => Some(StatID::ClimbOneCm),
            12 => Some(StatID::FlyOneCm),
            13 => Some(StatID::WalkUnderWaterOneCm),
            14 => Some(StatID::MinecartOneCm),
            15 => Some(StatID::BoatOneCm),
            16 => Some(StatID::PigOneCm),
            17 => Some(StatID::HappyGhastOneCm),
            18 => Some(StatID::HorseOneCm),
            19 => Some(StatID::AviateOneCm),
            20 => Some(StatID::SwimOneCm),
            21 => Some(StatID::StriderOneCm),
            22 => Some(StatID::Jump),
            23 => Some(StatID::Drop),
            24 => Some(StatID::DamageDealt),
            25 => Some(StatID::DamageDealtAbsorbed),
            26 => Some(StatID::DamageDealtResisted),
            27 => Some(StatID::DamageTaken),
            28 => Some(StatID::DamageBlockedByShield),
            29 => Some(StatID::DamageAbsorbed),
            30 => Some(StatID::DamageResisted),
            31 => Some(StatID::Deaths),
            32 => Some(StatID::MobKills),
            33 => Some(StatID::AnimalsBred),
            34 => Some(StatID::PlayerKills),
            35 => Some(StatID::FishCaught),
            36 => Some(StatID::TalkedToVillager),
            37 => Some(StatID::TradedWithVillager),
            38 => Some(StatID::EatCakeSlice),
            39 => Some(StatID::FillCauldron),
            40 => Some(StatID::UseCauldron),
            41 => Some(StatID::CleanArmor),
            42 => Some(StatID::CleanBanner),
            43 => Some(StatID::CleanShulkerBox),
            44 => Some(StatID::InteractWithBrewingstand),
            45 => Some(StatID::InteractWithBeacon),
            46 => Some(StatID::InspectDropper),
            47 => Some(StatID::InspectHopper),
            48 => Some(StatID::InspectDispenser),
            49 => Some(StatID::PlayNoteblock),
            50 => Some(StatID::TuneNoteblock),
            51 => Some(StatID::PotFlower),
            52 => Some(StatID::TriggerTrappedChest),
            53 => Some(StatID::OpenEnderchest),
            54 => Some(StatID::EnchantItem),
            55 => Some(StatID::PlayRecord),
            56 => Some(StatID::InteractWithFurnace),
            57 => Some(StatID::InteractWithCraftingTable),
            58 => Some(StatID::OpenChest),
            59 => Some(StatID::SleepInBed),
            60 => Some(StatID::OpenShulkerBox),
            61 => Some(StatID::OpenBarrel),
            62 => Some(StatID::InteractWithBlastFurnace),
            63 => Some(StatID::InteractWithSmoker),
            64 => Some(StatID::InteractWithLectern),
            65 => Some(StatID::InteractWithCampfire),
            66 => Some(StatID::InteractWithCartographyTable),
            67 => Some(StatID::InteractWithLoom),
            68 => Some(StatID::InteractWithStonecutter),
            69 => Some(StatID::BellRing),
            70 => Some(StatID::RaidTrigger),
            71 => Some(StatID::RaidWin),
            72 => Some(StatID::InteractWithAnvil),
            73 => Some(StatID::InteractWithGrindstone),
            74 => Some(StatID::TargetHit),
            75 => Some(StatID::InteractWithSmithingTable),
            _ => None,
        }
    }
}

impl DeepView for StatID {
    type V = StatID;

    open spec fn deep_view(&self) -> StatID {
        *self
    }
}

impl McSerialize for StatID {
    open spec fn spec_serialize(v: StatID) -> Seq<u8> {
        spec_varint_bytes(v.spec_code() as i32)
    }

    open spec fn spec_can_serialize(v: StatID) -> bool {
        true
    }

    fn mc_serialize(&self, serializer: &mut McSerializer) -> (r: Result<(), SerializingErr>) {
        write_varint(&mut serializer.output, self.code());
        Ok(())
    }
}

impl McDeserialize for StatID {
    /// The number, then the value it stands for; an unknown number is refused.
    open spec fn spec_deserialize(s: Seq<u8>) -> ParseResult<StatID> {
        match spec_varint_parse(s) {
            Ok((x, n)) => match StatID::spec_from_code(x.0 as int) {
                Some(v) => Ok((v, n)),
                None => Err(ErrKind::InvalidEnumValue(x.0 as i8)),
            },
            Err(e) => Err(e),
        }
    }

    proof fn lemma_deserialize_len(s: Seq<u8>) {
        VarInt::lemma_deserialize_len(s);
    }

    fn mc_deserialize(deserializer: &mut McDeserializer) -> (r: Result<StatID, SerializingErr>) {
        let code = read_varint(deserializer)?.0;
        match StatID::from_code(code) {
            Some(v) => Ok(v),
            None => Err(SerializingErr::InvalidEnumValue(#[verifier::truncate] (code as i8))),
        }
    }
}

impl McRoundTrip for StatID {
    open spec fn spec_well_formed(v: StatID) -> bool {
        true
    }

    proof fn lemma_round_trip(v: StatID, rest: Seq<u8>) {
        lemma_varint_round_trip(v.spec_code() as i32, rest);
    }
}

/// The fields of [`StatisticAward`] as they are sent, in order.
pub type StatisticAwardFields = (StatCategory, (StatID, VarInt));

/// One statistic and its value.
#[derive(Debug, Clone, PartialEq)]
pub struct StatisticAward {
    pub category: StatCategory,
    pub stat_id: StatID,
    pub value: VarInt,
}

impl DeepView for StatisticAward {
    type V = <StatisticAwardFields as DeepView>::V;

    open spec fn deep_view(&self) -> Self::V {
        (self.category.deep_view(), (self.stat_id.deep_view(), self.value.deep_view()))
    }
}

impl McSerialize for StatisticAward {
    open spec fn spec_serialize(v: Self::V) -> Seq<u8> {
        StatisticAwardFields::spec_serialize(v)
    }

    open spec fn spec_can_serialize(v: Self::V) -> bool {
        StatisticAwardFields::spec_can_serialize(v)
    }

    fn mc_serialize(&self, serializer: &mut McSerializer) -> (r: Result<(), SerializingErr>) {
        let _ = self.category.mc_serialize(serializer);
        let _ = self.stat_id.mc_serialize(serializer);
        let _ = self.value.mc_serialize(serializer);
        assert(serializer.output@ == old(serializer).output@ + Self::spec_serialize(self.deep_view()));
        Ok(())
    }
}

impl McDeserialize for StatisticAward {
    open spec fn spec_deserialize(s: Seq<u8>) -> ParseResult<Self::V> {
        StatisticAwardFields::spec_deserialize(s)
    }

    proof fn lemma_deserialize_len(s: Seq<u8>) {
        StatisticAwardFields::lemma_deserialize_len(s);
    }

    fn mc_deserialize(deserializer: &mut McDeserializer) -> (r: Result<StatisticAward, SerializingErr>) {
        let (category, (stat_id, value)) = StatisticAwardFields::mc_deserialize(deserializer)?;
        Ok(StatisticAward { category, stat_id, value })
    }
}

impl McRoundTrip for StatisticAward {
    open spec fn spec_well_formed(v: Self::V) -> bool {
        StatisticAwardFields::spec_well_formed(v)
    }

    proof fn lemma_round_trip(v: Self::V, rest: Seq<u8>) {
        StatisticAwardFields::lemma_round_trip(v, rest);
    }
}

} // verus!
