//! Parts of packets about entities.

use crate::protocol::serialization::{
    ErrKind, McDeserialize, McDeserializer, McRoundTrip, McSerialize, McSerializer, ParseResult,
    SerializingErr,
};
use vstd::prelude::*;

verus! {

/// The status code sent in the Entity Event packet, represented as a byte.
///
/// Each code links to the entity (or entities) it applies to. The meaning of a
/// given code differs per entity, so variants are suffixed with their numeric
/// code to keep them unambiguous.
///
/// https://minecraft.wiki/w/Java_Edition_protocol/Entity_statuses
#[derive(Debug, Clone, Copy, PartialEq, Eq, Structural, Hash)]
pub enum EntityStatusEnum {
    /// Arrow
    Arrow0,
    /// Minecart Spawner, Rabbit
    MinecartSpawnerRabbit1,
    /// None
    Unused2,
    /// Egg, Living Entity, Snowball
    EggLivingEntitySnowball3,
    /// Evoker Fangs, Hoglin, Iron Golem, Ravager, Warden, Zoglin
    EvokerFangsHoglinIronGolemRavagerWardenZoglin4,
    /// None
    Unused5,
    /// Abstract Horse, Tameable Animal
    AbstractHorseTameableAnimal6,
    /// Abstract Horse, Tameable Animal
    AbstractHorseTameableAnimal7,
    /// Wolf
    Wolf8,
    /// Player
    Player9,
    /// Minecart TNT, Sheep
    MinecartTntSheep10,
    /// Iron Golem
    IronGolem11,
    /// Villager
    Villager12,
    /// Villager
    Villager13,
    /// Villager
    Villager14,
    /// Witch
    Witch15,
    /// Zombie Villager
    ZombieVillager16,
    /// Firework Rocket
    FireworkRocket17,
    /// Allay, Animal
    AllayAnimal18,
    /// Squid
    Squid19,
    /// Mob
    Mob20,
    /// Guardian
    Guardian21,
    /// Player
    Player22,
    /// Player
    Player23,
    /// Player
    Player24,
    /// Player
    Player25,
    /// Player
    Player26,
    /// Player
    Player27,
    /// Player
    Player28,
    /// Living Entity
    LivingEntity29,
    /// Living Entity
    LivingEntity30,
    /// Fishing Hook
    FishingHook31,
    /// Armor Stand
    ArmorStand32,
    /// None
    Unused33,
    /// Iron Golem
    IronGolem34,
    /// Living Entity
    LivingEntity35,
    /// None
    Unused36,
    /// None
    Unused37,
    /// Dolphin
    Dolphin38,
    /// Ravager
    Ravager39,
    /// Ocelot
    Ocelot40,
    /// Ocelot
    Ocelot41,
    /// Villager
    Villager42,
    /// Player
    Player43,
    /// None
    Unused44,
    /// Fox
    Fox45,
    /// Living Entity
    LivingEntity46,
    /// Living Entity
    LivingEntity47,
    /// Living Entity
    LivingEntity48,
    /// Living Entity
    LivingEntity49,
    /// Living Entity
    LivingEntity50,
    /// Living Entity
    LivingEntity51,
    /// Living Entity
    LivingEntity52,
    /// Entity
    Entity53,
    /// Living Entity
    LivingEntity54,
    /// Living Entity
    LivingEntity55,
    /// Wolf
    Wolf56,
    /// None
    Unused57,
    /// Goat
    Goat58,
    /// Goat
    Goat59,
    /// Living Entity
    LivingEntity60,
    /// Warden
    Warden61,
    /// Warden
    Warden62,
    /// Sniffer
    Sniffer63,
}

impl EntityStatusEnum {
    /// The number that stands for this value on the wire.
    pub open spec fn spec_code(self) -> int {
        match self {
            EntityStatusEnum::Arrow0 => 0,
            EntityStatusEnum::MinecartSpawnerRabbit1 => 1,
            EntityStatusEnum::Unused2 => 2,
            EntityStatusEnum::EggLivingEntitySnowball3 => 3,
            EntityStatusEnum::EvokerFangsHoglinIronGolemRavagerWardenZoglin4 => 4,
            EntityStatusEnum::Unused5 => 5,
            EntityStatusEnum::AbstractHorseTameableAnimal6 => 6,
            EntityStatusEnum::AbstractHorseTameableAnimal7 => 7,
            EntityStatusEnum::Wolf8 => 8,
            EntityStatusEnum::Player9 => 9,
            EntityStatusEnum::MinecartTntSheep10 => 10,
            EntityStatusEnum::IronGolem11 => 11,
            EntityStatusEnum::Villager12 => 12,
            EntityStatusEnum::Villager13 => 13,
            EntityStatusEnum::Villager14 => 14,
            EntityStatusEnum::Witch15 => 15,
            EntityStatusEnum::ZombieVillager16 => 16,
            EntityStatusEnum::FireworkRocket17 => 17,
            EntityStatusEnum::AllayAnimal18 => 18,
            EntityStatusEnum::Squid19 => 19,
            EntityStatusEnum::Mob20 => 20,
            EntityStatusEnum::Guardian21 => 21,
            EntityStatusEnum::Player22 => 22,
            EntityStatusEnum::Player23 => 23,
            EntityStatusEnum::Player24 => 24,
            EntityStatusEnum::Player25 => 25,
            EntityStatusEnum::Player26 => 26,
            EntityStatusEnum::Player27 => 27,
            EntityStatusEnum::Player28 => 28,
            EntityStatusEnum::LivingEntity29 => 29,
            EntityStatusEnum::LivingEntity30 => 30,
            EntityStatusEnum::FishingHook31 => 31,
            EntityStatusEnum::ArmorStand32 => 32,
            EntityStatusEnum::Unused33 => 33,
            EntityStatusEnum::IronGolem34 => 34,
            EntityStatusEnum::LivingEntity35 => 35,
            EntityStatusEnum::Unused36 => 36,
            EntityStatusEnum::Unused37 => 37,
            EntityStatusEnum::Dolphin38 => 38,
            EntityStatusEnum::Ravager39 => 39,
            EntityStatusEnum::Ocelot40 => 40,
            EntityStatusEnum::Ocelot41 => 41,
            EntityStatusEnum::Villager42 => 42,
            EntityStatusEnum::Player43 => 43,
            EntityStatusEnum::Unused44 => 44,
            EntityStatusEnum::Fox45 => 45,
            EntityStatusEnum::LivingEntity46 => 46,
            EntityStatusEnum::LivingEntity47 => 47,
            EntityStatusEnum::LivingEntity48 => 48,
            EntityStatusEnum::LivingEntity49 => 49,
            EntityStatusEnum::LivingEntity50 => 50,
            EntityStatusEnum::LivingEntity51 => 51,
            EntityStatusEnum::LivingEntity52 => 52,
            EntityStatusEnum::Entity53 => 53,
            EntityStatusEnum::LivingEntity54 => 54,
            EntityStatusEnum::LivingEntity55 => 55,
            EntityStatusEnum::Wolf56 => 56,
            EntityStatusEnum::Unused57 => 57,
            EntityStatusEnum::Goat58 => 58,
            EntityStatusEnum::Goat59 => 59,
            EntityStatusEnum::LivingEntity60 => 60,
            EntityStatusEnum::Warden61 => 61,
            EntityStatusEnum::Warden62 => 62,
            EntityStatusEnum::Sniffer63 => 63,
        }
    }

    /// The value that the number `code` stands for, if any.
    pub open spec fn spec_from_code(code: int) -> Option<EntityStatusEnum> {
        if code == 0 {
            Some(EntityStatusEnum::Arrow0)
        } else if code == 1 {
            Some(EntityStatusEnum::MinecartSpawnerRabbit1)
        } else if code == 2 {
            Some(EntityStatusEnum::Unused2)
        } else if code == 3 {
            Some(EntityStatusEnum::EggLivingEntitySnowball3)
        } else if code == 4 {
            Some(EntityStatusEnum::EvokerFangsHoglinIronGolemRavagerWardenZoglin4)
        } else if code == 5 {
            Some(EntityStatusEnum::Unused5)
        } else if code == 6 {
            Some(EntityStatusEnum::AbstractHorseTameableAnimal6)
        } else if code == 7 {
            Some(EntityStatusEnum::AbstractHorseTameableAnimal7)
        } else if code == 8 {
            Some(EntityStatusEnum::Wolf8)
        } else if code == 9 {
            Some(EntityStatusEnum::Player9)
        } else if code == 10 {
            Some(EntityStatusEnum::MinecartTntSheep10)
        } else if code == 11 {
            Some(EntityStatusEnum::IronGolem11)
        } else if code == 12 {
            Some(EntityStatusEnum::Villager12)
        } else if code == 13 {
            Some(EntityStatusEnum::Villager13)
        } else if code == 14 {
            Some(EntityStatusEnum::Villager14)
        } else if code == 15 {
            Some(EntityStatusEnum::Witch15)
        } else if code == 16 {
            Some(EntityStatusEnum::ZombieVillager16)
        } else if code == 17 {
            Some(EntityStatusEnum::FireworkRocket17)
        } else if code == 18 {
            Some(EntityStatusEnum::AllayAnimal18)
        } else if code == 19 {
            Some(EntityStatusEnum::Squid19)
        } else if code == 20 {
            Some(EntityStatusEnum::Mob20)
        } else if code == 21 {
            Some(EntityStatusEnum::Guardian21)
        } else if code == 22 {
            Some(EntityStatusEnum::Player22)
        } else if code == 23 {
            Some(EntityStatusEnum::Player23)
        } else if code == 24 {
            Some(EntityStatusEnum::Player24)
        } else if code == 25 {
            Some(EntityStatusEnum::Player25)
        } else if code == 26 {
            Some(EntityStatusEnum::Player26)
        } else if code == 27 {
            Some(EntityStatusEnum::Player27)
        } else if code == 28 {
            Some(EntityStatusEnum::Player28)
        } else if code == 29 {
            Some(EntityStatusEnum::LivingEntity29)
        } else if code == 30 {
            Some(EntityStatusEnum::LivingEntity30)
        } else if code == 31 {
            Some(EntityStatusEnum::FishingHook31)
        } else if code == 32 {
            Some(EntityStatusEnum::ArmorStand32)
        } else if code == 33 {
            Some(EntityStatusEnum::Unused33)
        } else if code == 34 {
            Some(EntityStatusEnum::IronGolem34)
        } else if code == 35 {
            Some(EntityStatusEnum::LivingEntity35)
        } else if code == 36 {
            Some(EntityStatusEnum::Unused36)
        } else if code == 37 {
            Some(EntityStatusEnum::Unused37)
        } else if code == 38 {
            Some(EntityStatusEnum::Dolphin38)
        } else if code == 39 {
            Some(EntityStatusEnum::Ravager39)
        } else if code == 40 {
            Some(EntityStatusEnum::Ocelot40)
        } else if code == 41 {
            Some(EntityStatusEnum::Ocelot41)
        } else if code == 42 {
            Some(EntityStatusEnum::Villager42)
        } else if code == 43 {
            Some(EntityStatusEnum::Player43)
        } else if code == 44 {
            Some(EntityStatusEnum::Unused44)
        } else if code == 45 {
            Some(EntityStatusEnum::Fox45)
        } else if code == 46 {
            Some(EntityStatusEnum::LivingEntity46)
        } else if code == 47 {
            Some(EntityStatusEnum::LivingEntity47)
        } else if code == 48 {
            Some(EntityStatusEnum::LivingEntity48)
        } else if code == 49 {
            Some(EntityStatusEnum::LivingEntity49)
        } else if code == 50 {
            Some(EntityStatusEnum::LivingEntity50)
        } else if code == 51 {
            Some(EntityStatusEnum::LivingEntity51)
        } else if code == 52 {
            Some(EntityStatusEnum::LivingEntity52)
        } else if code == 53 {
            Some(EntityStatusEnum::Entity53)
        } else if code == 54 {
            Some(EntityStatusEnum::LivingEntity54)
        } else if code == 55 {
            Some(EntityStatusEnum::LivingEntity55)
        } else if code == 56 {
            Some(EntityStatusEnum::Wolf56)
        } else if code == 57 {
            Some(EntityStatusEnum::Unused57)
        } else if code == 58 {
            Some(EntityStatusEnum::Goat58)
        } else if code == 59 {
            Some(EntityStatusEnum::Goat59)
        } else if code == 60 {
            Some(EntityStatusEnum::LivingEntity60)
        } else if code == 61 {
            Some(EntityStatusEnum::Warden61)
        } else if code == 62 {
            Some(EntityStatusEnum::Warden62)
        } else if code == 63 {
            Some(EntityStatusEnum::Sniffer63)
        } else {
            None
        }
    }

    /// The number that stands for this value on the wire.
    pub fn code(&self) -> (c: i8)
        ensures
            c == self.spec_code(),
    {
        match self {
            EntityStatusEnum::Arrow0 => 0,
            EntityStatusEnum::MinecartSpawnerRabbit1 => 1,
            EntityStatusEnum::Unused2 => 2,
            EntityStatusEnum::EggLivingEntitySnowball3 => 3,
            EntityStatusEnum::EvokerFangsHoglinIronGolemRavagerWardenZoglin4 => 4,
            EntityStatusEnum::Unused5 => 5,
            EntityStatusEnum::AbstractHorseTameableAnimal6 => 6,
            EntityStatusEnum::AbstractHorseTameableAnimal7 => 7,
            EntityStatusEnum::Wolf8 => 8,
            EntityStatusEnum::Player9 => 9,
            EntityStatusEnum::MinecartTntSheep10 => 10,
            EntityStatusEnum::IronGolem11 => 11,
            EntityStatusEnum::Villager12 => 12,
            EntityStatusEnum::Villager13 => 13,
            EntityStatusEnum::Villager14 => 14,
            EntityStatusEnum::Witch15 => 15,
            EntityStatusEnum::ZombieVillager16 => 16,
            EntityStatusEnum::FireworkRocket17 => 17,
            EntityStatusEnum::AllayAnimal18 => 18,
            EntityStatusEnum::Squid19 => 19,
            EntityStatusEnum::Mob20 => 20,
            EntityStatusEnum::Guardian21 => 21,
            EntityStatusEnum::Player22 => 22,
            EntityStatusEnum::Player23 => 23,
            EntityStatusEnum::Player24 => 24,
            EntityStatusEnum::Player25 => 25,
            EntityStatusEnum::Player26 => 26,
            EntityStatusEnum::Player27 => 27,
            EntityStatusEnum::Player28 => 28,
            EntityStatusEnum::LivingEntity29 => 29,
            EntityStatusEnum::LivingEntity30 => 30,
            EntityStatusEnum::FishingHook31 => 31,
            EntityStatusEnum::ArmorStand32 => 32,
            EntityStatusEnum::Unused33 => 33,
            EntityStatusEnum::IronGolem34 => 34,
            EntityStatusEnum::LivingEntity35 => 35,
            EntityStatusEnum::Unused36 => 36,
            EntityStatusEnum::Unused37 => 37,
            EntityStatusEnum::Dolphin38 => 38,
            EntityStatusEnum::Ravager39 => 39,
            EntityStatusEnum::Ocelot40 => 40,
            EntityStatusEnum::Ocelot41 => 41,
            EntityStatusEnum::Villager42 => 42,
            EntityStatusEnum::Player43 => 43,
            EntityStatusEnum::Unused44 => 44,
            EntityStatusEnum::Fox45 => 45,
            EntityStatusEnum::LivingEntity46 => 46,
            EntityStatusEnum::LivingEntity47 => 47,
            EntityStatusEnum::LivingEntity48 => 48,
            EntityStatusEnum::LivingEntity49 => 49,
            EntityStatusEnum::LivingEntity50 => 50,
            EntityStatusEnum::LivingEntity51 => 51,
            EntityStatusEnum::LivingEntity52 => 52,
            EntityStatusEnum::Entity53 => 53,
            EntityStatusEnum::LivingEntity54 => 54,
            EntityStatusEnum::LivingEntity55 => 55,
            EntityStatusEnum::Wolf56 => 56,
            EntityStatusEnum::Unused57 => 57,
            EntityStatusEnum::Goat58 => 58,
            EntityStatusEnum::Goat59 => 59,
            EntityStatusEnum::LivingEntity60 => 60,
            EntityStatusEnum::Warden61 => 61,
            EntityStatusEnum::Warden62 => 62,
            EntityStatusEnum::Sniffer63 => 63,
        }
    }

    /// The value that the number `code` stands for, if any.
    pub fn from_code(code: i8) -> (r: Option<EntityStatusEnum>)
        ensures
            r == EntityStatusEnum::spec_from_code(code as int),
    {
        match code {
            0 => Some(EntityStatusEnum::Arrow0),
            1 => Some(EntityStatusEnum::MinecartSpawnerRabbit1),
            2 => Some(EntityStatusEnum::Unused2),
            3 => Some(EntityStatusEnum::EggLivingEntitySnowball3),
            4 => Some(EntityStatusEnum::EvokerFangsHoglinIronGolemRavagerWardenZoglin4),
            5 => Some(EntityStatusEnum::Unused5),
            6 => Some(EntityStatusEnum::AbstractHorseTameableAnimal6),
            7 => Some(EntityStatusEnum::AbstractHorseTameableAnimal7),
            8 => Some(EntityStatusEnum::Wolf8),
            9 => Some(EntityStatusEnum::Player9),
            10 => Some(EntityStatusEnum::MinecartTntSheep10),
            11 => Some(EntityStatusEnum::IronGolem11),
            12 => Some(EntityStatusEnum::Villager12),
            13 => Some(EntityStatusEnum::Villager13),
            14 => Some(EntityStatusEnum::Villager14),
            15 => Some(EntityStatusEnum::Witch15),
            16 => Some(EntityStatusEnum::ZombieVillager16),
            17 => Some(EntityStatusEnum::FireworkRocket17),
            18 => Some(EntityStatusEnum::AllayAnimal18),
            19 => Some(EntityStatusEnum::Squid19),
            20 => Some(EntityStatusEnum::Mob20),
            21 => Some(EntityStatusEnum::Guardian21),
            22 => Some(EntityStatusEnum::Player22),
            23 => Some(EntityStatusEnum::Player23),
            24 => Some(EntityStatusEnum::Player24),
            25 => Some(EntityStatusEnum::Player25),
            26 => Some(EntityStatusEnum::Player26),
            27 => Some(EntityStatusEnum::Player27),
            28 => Some(EntityStatusEnum::Player28),
            29 => Some(EntityStatusEnum::LivingEntity29),
            30 => Some(EntityStatusEnum::LivingEntity30),
            31 => Some(EntityStatusEnum::FishingHook31),
            32 => Some(EntityStatusEnum::ArmorStand32),
            33 => Some(EntityStatusEnum::Unused33),
            34 => Some(EntityStatusEnum::IronGolem34),
            35 => Some(EntityStatusEnum::LivingEntity35),
            36 => Some(EntityStatusEnum::Unused36),
            37 => Some(EntityStatusEnum::Unused37),
            38 => Some(EntityStatusEnum::Dolphin38),
            39 => Some(EntityStatusEnum::Ravager39),
            40 => Some(EntityStatusEnum::Ocelot40),
            41 => Some(EntityStatusEnum::Ocelot41),
            42 => Some(EntityStatusEnum::Villager42),
            43 => Some(EntityStatusEnum::Player43),
            44 => Some(EntityStatusEnum::Unused44),
            45 => Some(EntityStatusEnum::Fox45),
            46 => Some(EntityStatusEnum::LivingEntity46),
            47 => Some(EntityStatusEnum::LivingEntity47),
            48 => Some(EntityStatusEnum::LivingEntity48),
            49 => Some(EntityStatusEnum::LivingEntity49),
            50 => Some(EntityStatusEnum::LivingEntity50),
            51 => Some(EntityStatusEnum::LivingEntity51),
            52 => Some(EntityStatusEnum::LivingEntity52),
            53 => Some(EntityStatusEnum::Entity53),
            54 => Some(EntityStatusEnum::LivingEntity54),
            55 => Some(EntityStatusEnum::LivingEntity55),
            56 => Some(EntityStatusEnum::Wolf56),
            57 => Some(EntityStatusEnum::Unused57),
            58 => Some(EntityStatusEnum::Goat58),
            59 => Some(EntityStatusEnum::Goat59),
            60 => Some(EntityStatusEnum::LivingEntity60),
            61 => Some(EntityStatusEnum::Warden61),
            62 => Some(EntityStatusEnum::Warden62),
            63 => Some(EntityStatusEnum::Sniffer63),
            _ => None,
        }
    }
}

impl DeepView for EntityStatusEnum {
    type V = EntityStatusEnum;

    open spec fn deep_view(&self) -> EntityStatusEnum {
        *self
    }
}

impl McSerialize for EntityStatusEnum {
    open spec fn spec_serialize(v: EntityStatusEnum) -> Seq<u8> {
        i8::spec_serialize(v.spec_code() as i8)
    }

    open spec fn spec_can_serialize(v: EntityStatusEnum) -> bool {
        true
    }

    fn mc_serialize(&self, serializer: &mut McSerializer) -> (r: Result<(), SerializingErr>) {
        let _ = self.code().mc_serialize(serializer);
        Ok(())
    }
}

impl McDeserialize for EntityStatusEnum {
    /// The number, then the value it stands for; an unknown number is refused.
    open spec fn spec_deserialize(s: Seq<u8>) -> ParseResult<EntityStatusEnum> {
        match i8::spec_deserialize(s) {
            Ok((x, n)) => match EntityStatusEnum::spec_from_code(x as int) {
                Some(v) => Ok((v, n)),
                None => Err(ErrKind::InvalidEnumValue(x as i8)),
            },
            Err(e) => Err(e),
        }
    }

    proof fn lemma_deserialize_len(s: Seq<u8>) {
        i8::lemma_deserialize_len(s);
    }

    fn mc_deserialize(deserializer: &mut McDeserializer) -> (r: Result<EntityStatusEnum, SerializingErr>) {
        let code = i8::mc_deserialize(deserializer)?;
        match EntityStatusEnum::from_code(code) {
            Some(v) => Ok(v),
            None => Err(SerializingErr::InvalidEnumValue(code as i8)),
        }
    }
}

impl McRoundTrip for EntityStatusEnum {
    open spec fn spec_well_formed(v: EntityStatusEnum) -> bool {
        true
    }

    proof fn lemma_round_trip(v: EntityStatusEnum, rest: Seq<u8>) {
        i8::lemma_round_trip(v.spec_code() as i8, rest);
    }
}

} // verus!
