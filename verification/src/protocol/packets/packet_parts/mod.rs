//! Parts of packet bodies that are shared or complex.

pub mod auth;
pub mod block;
pub mod debug;
pub mod effects;
pub mod entity;
pub mod item;
pub mod player;
pub mod scoreboard;
pub mod sound;
pub mod stats;

use crate::protocol::game::world::chunk::BiomeByteData;
use crate::protocol_types::datatypes::nbt::NbtCompound;
use crate::protocol::serialization::serializer_types::{
    lemma_parse_all_round_trip, parse_all, seq_can_serialize, seq_serialize, serialize_option, spec_option_bytes,
    PrefixedArray, PrefixedOptional,
};
use crate::protocol::serialization::var_int::{
    lemma_varint_round_trip, read_varint, spec_varint_bytes, spec_varint_parse, write_varint, VarInt,
};
use crate::protocol::serialization::{
    lemma_remaining_advance, ErrKind, McDeserialize, McDeserializer, McRoundTrip, McSerialize, McSerializer, ParseResult,
    SerializingErr,
};
use vstd::prelude::*;

verus! {

/// The abilities of a player, one bit each in a byte.
#[derive(Debug, Clone, Copy, PartialEq, Eq, Structural, Hash)]
pub struct PlayerAbilityFlags {
    pub invulnerable: bool,
    pub flying: bool,
    pub allow_flying: bool,
    pub creative_mode: bool,
}

impl DeepView for PlayerAbilityFlags {
    type V = PlayerAbilityFlags;

    open spec fn deep_view(&self) -> PlayerAbilityFlags {
        *self
    }
}

impl PlayerAbilityFlags {
    /// The byte that holds the flags: flag `i` in bit `i`, in the order the fields are declared.
    pub open spec fn spec_bits(v: PlayerAbilityFlags) -> u8 {
        ((if v.invulnerable { 1u8 } else { 0u8 }) | (if v.flying { 2u8 } else { 0u8 }) | (if v.allow_flying { 4u8 } else { 0u8 }) | (if v.creative_mode { 8u8 } else { 0u8 })) as u8
    }

    /// The flags that the byte `b` holds; bits past the last flag are ignored.
    pub open spec fn spec_from_bits(b: u8) -> PlayerAbilityFlags {
        PlayerAbilityFlags { invulnerable: b & 1u8 != 0, flying: b & 2u8 != 0, allow_flying: b & 4u8 != 0, creative_mode: b & 8u8 != 0 }
    }

    pub fn bits(&self) -> (b: u8)
        ensures
            b == PlayerAbilityFlags::spec_bits(*self),
    {
        let x0: u8 = if self.invulnerable { 1u8 } else { 0u8 };
        let x1: u8 = if self.flying { 2u8 } else { 0u8 };
        let x2: u8 = if self.allow_flying { 4u8 } else { 0u8 };
        let x3: u8 = if self.creative_mode { 8u8 } else { 0u8 };
        let b: u8 = x0 | x1 | x2 | x3;
        b
    }

    pub fn from_bits(b: u8) -> (v: PlayerAbilityFlags)
        ensures
            v == PlayerAbilityFlags::spec_from_bits(b),
    {
        PlayerAbilityFlags { invulnerable: b & 1u8 != 0, flying: b & 2u8 != 0, allow_flying: b & 4u8 != 0, creative_mode: b & 8u8 != 0 }
    }
}

impl McSerialize for PlayerAbilityFlags {
    open spec fn spec_serialize(v: PlayerAbilityFlags) -> Seq<u8> {
        seq![PlayerAbilityFlags::spec_bits(v)]
    }

    open spec fn spec_can_serialize(v: PlayerAbilityFlags) -> bool {
        true
    }

    fn mc_serialize(&self, serializer: &mut McSerializer) -> (r: Result<(), SerializingErr>) {
        serializer.serialize_u8(self.bits());
        Ok(())
    }
}

impl McDeserialize for PlayerAbilityFlags {
    open spec fn spec_deserialize(s: Seq<u8>) -> ParseResult<PlayerAbilityFlags> {
        if s.len() == 0 {
            Err(ErrKind::InputEnded)
        } else {
            Ok((PlayerAbilityFlags::spec_from_bits(s[0]), 1nat))
        }
    }

    proof fn lemma_deserialize_len(s: Seq<u8>) {
    }

    fn mc_deserialize(deserializer: &mut McDeserializer) -> (r: Result<PlayerAbilityFlags, SerializingErr>) {
        let b = deserializer.pop_u8()?;
        Ok(PlayerAbilityFlags::from_bits(b))
    }
}

impl McRoundTrip for PlayerAbilityFlags {
    open spec fn spec_well_formed(v: PlayerAbilityFlags) -> bool {
        true
    }

    proof fn lemma_round_trip(v: PlayerAbilityFlags, rest: Seq<u8>) {
        let x0: u8 = if v.invulnerable { 1u8 } else { 0u8 };
        let x1: u8 = if v.flying { 2u8 } else { 0u8 };
        let x2: u8 = if v.allow_flying { 4u8 } else { 0u8 };
        let x3: u8 = if v.creative_mode { 8u8 } else { 0u8 };
        let b = PlayerAbilityFlags::spec_bits(v);
        assert(b == (x0 | x1 | x2 | x3) as u8);
        assert(((b & 1u8 != 0) == (x0 == 1u8)) && ((b & 2u8 != 0) == (x1 == 2u8)) && ((b & 4u8 != 0) == (x2 == 4u8)) && ((b & 8u8 != 0) == (x3 == 8u8))) by (bit_vector)
            requires
                b == (x0 | x1 | x2 | x3) as u8,
                x0 == 0u8 || x0 == 1u8,
                x1 == 0u8 || x1 == 2u8,
                x2 == 0u8 || x2 == 4u8,
                x3 == 0u8 || x3 == 8u8,
        ;
        assert((seq![b] + rest)[0] == b);
    }
}

/// Flags sent with a player's position, one bit each in a byte.
#[derive(Debug, Clone, Copy, PartialEq, Eq, Structural, Hash)]
pub struct PlayerPositionFlags {
    pub on_ground: bool,
    pub pushing_against_wall: bool,
}

impl DeepView for PlayerPositionFlags {
    type V = PlayerPositionFlags;

    open spec fn deep_view(&self) -> PlayerPositionFlags {
        *self
    }
}

impl PlayerPositionFlags {
    /// The byte that holds the flags: flag `i` in bit `i`, in the order the fields are declared.
    pub open spec fn spec_bits(v: PlayerPositionFlags) -> u8 {
        ((if v.on_ground { 1u8 } else { 0u8 }) | (if v.pushing_against_wall { 2u8 } else { 0u8 })) as u8
    }

    /// The flags that the byte `b` holds; bits past the last flag are ignored.
    pub open spec fn spec_from_bits(b: u8) -> PlayerPositionFlags {
        PlayerPositionFlags { on_ground: b & 1u8 != 0, pushing_against_wall: b & 2u8 != 0 }
    }

    pub fn bits(&self) -> (b: u8)
        ensures
            b == PlayerPositionFlags::spec_bits(*self),
    {
        let x0: u8 = if self.on_ground { 1u8 } else { 0u8 };
        let x1: u8 = if self.pushing_against_wall { 2u8 } else { 0u8 };
        let b: u8 = x0 | x1;
        b
    }

    pub fn from_bits(b: u8) -> (v: PlayerPositionFlags)
        ensures
            v == PlayerPositionFlags::spec_from_bits(b),
    {
        PlayerPositionFlags { on_ground: b & 1u8 != 0, pushing_against_wall: b & 2u8 != 0 }
    }
}

impl McSerialize for PlayerPositionFlags {
    open spec fn spec_serialize(v: PlayerPositionFlags) -> Seq<u8> {
        seq![PlayerPositionFlags::spec_bits(v)]
    }

    open spec fn spec_can_serialize(v: PlayerPositionFlags) -> bool {
        true
    }

    fn mc_serialize(&self, serializer: &mut McSerializer) -> (r: Result<(), SerializingErr>) {
        serializer.serialize_u8(self.bits());
        Ok(())
    }
}

impl McDeserialize for PlayerPositionFlags {
    open spec fn spec_deserialize(s: Seq<u8>) -> ParseResult<PlayerPositionFlags> {
        if s.len() == 0 {
            Err(ErrKind::InputEnded)
        } else {
            Ok((PlayerPositionFlags::spec_from_bits(s[0]), 1nat))
        }
    }

    proof fn lemma_deserialize_len(s: Seq<u8>) {
    }

    fn mc_deserialize(deserializer: &mut McDeserializer) -> (r: Result<PlayerPositionFlags, SerializingErr>) {
        let b = deserializer.pop_u8()?;
        Ok(PlayerPositionFlags::from_bits(b))
    }
}

impl McRoundTrip for PlayerPositionFlags {
    open spec fn spec_well_formed(v: PlayerPositionFlags) -> bool {
        true
    }

    proof fn lemma_round_trip(v: PlayerPositionFlags, rest: Seq<u8>) {
        let x0: u8 = if v.on_ground { 1u8 } else { 0u8 };
        let x1: u8 = if v.pushing_against_wall { 2u8 } else { 0u8 };
        let b = PlayerPositionFlags::spec_bits(v);
        assert(b == (x0 | x1) as u8);
        assert(((b & 1u8 != 0) == (x0 == 1u8)) && ((b & 2u8 != 0) == (x1 == 2u8))) by (bit_vector)
            requires
                b == (x0 | x1) as u8,
                x0 == 0u8 || x0 == 1u8,
                x1 == 0u8 || x1 == 2u8,
        ;
        assert((seq![b] + rest)[0] == b);
    }
}

/// The movement keys a player holds, one bit each in a byte.
#[derive(Debug, Clone, Copy, PartialEq, Eq, Structural, Hash)]
pub struct PlayerInputFlags {
    pub forward: bool,
    pub backward: bool,
    pub left: bool,
    pub right: bool,
    pub jumping: bool,
    pub sneaking: bool,
    pub sprinting: bool,
}

impl DeepView for PlayerInputFlags {
    type V = PlayerInputFlags;

    open spec fn deep_view(&self) -> PlayerInputFlags {
        *self
    }
}

impl PlayerInputFlags {
    /// The byte that holds the flags: flag `i` in bit `i`, in the order the fields are declared.
    pub open spec fn spec_bits(v: PlayerInputFlags) -> u8 {
        ((if v.forward { 1u8 } else { 0u8 }) | (if v.backward { 2u8 } else { 0u8 }) | (if v.left { 4u8 } else { 0u8 }) | (if v.right { 8u8 } else { 0u8 }) | (if v.jumping { 16u8 } else { 0u8 }) | (if v.sneaking { 32u8 } else { 0u8 }) | (if v.sprinting { 64u8 } else { 0u8 })) as u8
    }

    /// The flags that the byte `b` holds; bits past the last flag are ignored.
    pub open spec fn spec_from_bits(b: u8) -> PlayerInputFlags {
        PlayerInputFlags { forward: b & 1u8 != 0, backward: b & 2u8 != 0, left: b & 4u8 != 0, right: b & 8u8 != 0, jumping: b & 16u8 != 0, sneaking: b & 32u8 != 0, sprinting: b & 64u8 != 0 }
    }

    pub fn bits(&self) -> (b: u8)
        ensures
            b == PlayerInputFlags::spec_bits(*self),
    {
        let x0: u8 = if self.forward { 1u8 } else { 0u8 };
        let x1: u8 = if self.backward { 2u8 } else { 0u8 };
        let x2: u8 = if self.left { 4u8 } else { 0u8 };
        let x3: u8 = if self.right { 8u8 } else { 0u8 };
        let x4: u8 = if self.jumping { 16u8 } else { 0u8 };
        let x5: u8 = if self.sneaking { 32u8 } else { 0u8 };
        let x6: u8 = if self.sprinting { 64u8 } else { 0u8 };
        let b: u8 = x0 | x1 | x2 | x3 | x4 | x5 | x6;
        b
    }

    pub fn from_bits(b: u8) -> (v: PlayerInputFlags)
        ensures
            v == PlayerInputFlags::spec_from_bits(b),
    {
        PlayerInputFlags { forward: b & 1u8 != 0, backward: b & 2u8 != 0, left: b & 4u8 != 0, right: b & 8u8 != 0, jumping: b & 16u8 != 0, sneaking: b & 32u8 != 0, sprinting: b & 64u8 != 0 }
    }
}

impl McSerialize for PlayerInputFlags {
    open spec fn spec_serialize(v: PlayerInputFlags) -> Seq<u8> {
        seq![PlayerInputFlags::spec_bits(v)]
    }

    open spec fn spec_can_serialize(v: PlayerInputFlags) -> bool {
        true
    }

    fn mc_serialize(&self, serializer: &mut McSerializer) -> (r: Result<(), SerializingErr>) {
        serializer.serialize_u8(self.bits());
        Ok(())
    }
}

impl McDeserialize for PlayerInputFlags {
    open spec fn spec_deserialize(s: Seq<u8>) -> ParseResult<PlayerInputFlags> {
        if s.len() == 0 {
            Err(ErrKind::InputEnded)
        } else {
            Ok((PlayerInputFlags::spec_from_bits(s[0]), 1nat))
        }
    }

    proof fn lemma_deserialize_len(s: Seq<u8>) {
    }

    fn mc_deserialize(deserializer: &mut McDeserializer) -> (r: Result<PlayerInputFlags, SerializingErr>) {
        let b = deserializer.pop_u8()?;
        Ok(PlayerInputFlags::from_bits(b))
    }
}

impl McRoundTrip for PlayerInputFlags {
    open spec fn spec_well_formed(v: PlayerInputFlags) -> bool {
        true
    }

    proof fn lemma_round_trip(v: PlayerInputFlags, rest: Seq<u8>) {
        let x0: u8 = if v.forward { 1u8 } else { 0u8 };
        let x1: u8 = if v.backward { 2u8 } else { 0u8 };
        let x2: u8 = if v.left { 4u8 } else { 0u8 };
        let x3: u8 = if v.right { 8u8 } else { 0u8 };
        let x4: u8 = if v.jumping { 16u8 } else { 0u8 };
        let x5: u8 = if v.sneaking { 32u8 } else { 0u8 };
        let x6: u8 = if v.sprinting { 64u8 } else { 0u8 };
        let b = PlayerInputFlags::spec_bits(v);
        assert(b == (x0 | x1 | x2 | x3 | x4 | x5 | x6) as u8);
        assert(((b & 1u8 != 0) == (x0 == 1u8)) && ((b & 2u8 != 0) == (x1 == 2u8)) && ((b & 4u8 != 0) == (x2 == 4u8)) && ((b & 8u8 != 0) == (x3 == 8u8)) && ((b & 16u8 != 0) == (x4 == 16u8)) && ((b & 32u8 != 0) == (x5 == 32u8)) && ((b & 64u8 != 0) == (x6 == 64u8))) by (bit_vector)
            requires
                b == (x0 | x1 | x2 | x3 | x4 | x5 | x6) as u8,
                x0 == 0u8 || x0 == 1u8,
                x1 == 0u8 || x1 == 2u8,
                x2 == 0u8 || x2 == 4u8,
                x3 == 0u8 || x3 == 8u8,
                x4 == 0u8 || x4 == 16u8,
                x5 == 0u8 || x5 == 32u8,
                x6 == 0u8 || x6 == 64u8,
        ;
        assert((seq![b] + rest)[0] == b);
    }
}

/// The effects of a boss bar, one bit each in a byte.
#[derive(Debug, Clone, Copy, PartialEq, Eq, Structural, Hash)]
pub struct BossBarFlags {
    pub should_darken_sky: bool,
    pub is_dragon_bar: bool,
    pub create_fog: bool,
}

impl DeepView for BossBarFlags {
    type V = BossBarFlags;

    open spec fn deep_view(&self) -> BossBarFlags {
        *self
    }
}

impl BossBarFlags {
    /// The byte that holds the flags: flag `i` in bit `i`, in the order the fields are declared.
    pub open spec fn spec_bits(v: BossBarFlags) -> u8 {
        ((if v.should_darken_sky { 1u8 } else { 0u8 }) | (if v.is_dragon_bar { 2u8 } else { 0u8 }) | (if v.create_fog { 4u8 } else { 0u8 })) as u8
    }

    /// The flags that the byte `b` holds; bits past the last flag are ignored.
    pub open spec fn spec_from_bits(b: u8) -> BossBarFlags {
        BossBarFlags { should_darken_sky: b & 1u8 != 0, is_dragon_bar: b & 2u8 != 0, create_fog: b & 4u8 != 0 }
    }

    pub fn bits(&self) -> (b: u8)
        ensures
            b == BossBarFlags::spec_bits(*self),
    {
        let x0: u8 = if self.should_darken_sky { 1u8 } else { 0u8 };
        let x1: u8 = if self.is_dragon_bar { 2u8 } else { 0u8 };
        let x2: u8 = if self.create_fog { 4u8 } else { 0u8 };
        let b: u8 = x0 | x1 | x2;
        b
    }

    pub fn from_bits(b: u8) -> (v: BossBarFlags)
        ensures
            v == BossBarFlags::spec_from_bits(b),
    {
        BossBarFlags { should_darken_sky: b & 1u8 != 0, is_dragon_bar: b & 2u8 != 0, create_fog: b & 4u8 != 0 }
    }
}

impl McSerialize for BossBarFlags {
    open spec fn spec_serialize(v: BossBarFlags) -> Seq<u8> {
        seq![BossBarFlags::spec_bits(v)]
    }

    open spec fn spec_can_serialize(v: BossBarFlags) -> bool {
        true
    }

    fn mc_serialize(&self, serializer: &mut McSerializer) -> (r: Result<(), SerializingErr>) {
        serializer.serialize_u8(self.bits());
        Ok(())
    }
}

impl McDeserialize for BossBarFlags {
    open spec fn spec_deserialize(s: Seq<u8>) -> ParseResult<BossBarFlags> {
        if s.len() == 0 {
            Err(ErrKind::InputEnded)
        } else {
            Ok((BossBarFlags::spec_from_bits(s[0]), 1nat))
        }
    }

    proof fn lemma_deserialize_len(s: Seq<u8>) {
    }

    fn mc_deserialize(deserializer: &mut McDeserializer) -> (r: Result<BossBarFlags, SerializingErr>) {
        let b = deserializer.pop_u8()?;
        Ok(BossBarFlags::from_bits(b))
    }
}

impl McRoundTrip for BossBarFlags {
    open spec fn spec_well_formed(v: BossBarFlags) -> bool {
        true
    }

    proof fn lemma_round_trip(v: BossBarFlags, rest: Seq<u8>) {
        let x0: u8 = if v.should_darken_sky { 1u8 } else { 0u8 };
        let x1: u8 = if v.is_dragon_bar { 2u8 } else { 0u8 };
        let x2: u8 = if v.create_fog { 4u8 } else { 0u8 };
        let b = BossBarFlags::spec_bits(v);
        assert(b == (x0 | x1 | x2) as u8);
        assert(((b & 1u8 != 0) == (x0 == 1u8)) && ((b & 2u8 != 0) == (x1 == 2u8)) && ((b & 4u8 != 0) == (x2 == 4u8))) by (bit_vector)
            requires
                b == (x0 | x1 | x2) as u8,
                x0 == 0u8 || x0 == 1u8,
                x1 == 0u8 || x1 == 2u8,
                x2 == 0u8 || x2 == 4u8,
        ;
        assert((seq![b] + rest)[0] == b);
    }
}

/// The fields of [`ResourcePackEntry`] as they are sent, in order.
pub type ResourcePackEntryFields = (String, (String, String));

/// A resource pack the server knows of.
#[derive(Debug, Clone, PartialEq)]
pub struct ResourcePackEntry {
    pub namespace: String,
    pub id: String,
    pub version: String,
}

impl DeepView for ResourcePackEntry {
    type V = <ResourcePackEntryFields as DeepView>::V;

    open spec fn deep_view(&self) -> Self::V {
        (self.namespace.deep_view(), (self.id.deep_view(), self.version.deep_view()))
    }
}

impl McSerialize for ResourcePackEntry {
    open spec fn spec_serialize(v: Self::V) -> Seq<u8> {
        ResourcePackEntryFields::spec_serialize(v)
    }

    open spec fn spec_can_serialize(v: Self::V) -> bool {
        ResourcePackEntryFields::spec_can_serialize(v)
    }

    fn mc_serialize(&self, serializer: &mut McSerializer) -> (r: Result<(), SerializingErr>) {
        let _ = self.namespace.mc_serialize(serializer);
        let _ = self.id.mc_serialize(serializer);
        let _ = self.version.mc_serialize(serializer);
        assert(serializer.output@ == old(serializer).output@ + Self::spec_serialize(self.deep_view()));
        Ok(())
    }
}

impl McDeserialize for ResourcePackEntry {
    open spec fn spec_deserialize(s: Seq<u8>) -> ParseResult<Self::V> {
        ResourcePackEntryFields::spec_deserialize(s)
    }

    proof fn lemma_deserialize_len(s: Seq<u8>) {
        ResourcePackEntryFields::lemma_deserialize_len(s);
    }

    fn mc_deserialize(deserializer: &mut McDeserializer) -> (r: Result<ResourcePackEntry, SerializingErr>) {
        let (namespace, (id, version)) = ResourcePackEntryFields::mc_deserialize(deserializer)?;
        Ok(ResourcePackEntry { namespace, id, version })
    }
}

impl McRoundTrip for ResourcePackEntry {
    open spec fn spec_well_formed(v: Self::V) -> bool {
        ResourcePackEntryFields::spec_well_formed(v)
    }

    proof fn lemma_round_trip(v: Self::V, rest: Seq<u8>) {
        ResourcePackEntryFields::lemma_round_trip(v, rest);
    }
}

/// The fields of [`Tag`] as they are sent, in order.
pub type TagFields = (String, PrefixedArray<VarInt>);

/// A tag: its identifier and the ids it holds.
#[derive(Debug, Clone, PartialEq)]
pub struct Tag {
    pub identifier: String,
    pub entries: PrefixedArray<VarInt>,
}

impl DeepView for Tag {
    type V = <TagFields as DeepView>::V;

    open spec fn deep_view(&self) -> Self::V {
        (self.identifier.deep_view(), self.entries.deep_view())
    }
}

impl McSerialize for Tag {
    open spec fn spec_serialize(v: Self::V) -> Seq<u8> {
        TagFields::spec_serialize(v)
    }

    open spec fn spec_can_serialize(v: Self::V) -> bool {
        TagFields::spec_can_serialize(v)
    }

    fn mc_serialize(&self, serializer: &mut McSerializer) -> (r: Result<(), SerializingErr>) {
        let _ = self.identifier.mc_serialize(serializer);
        let _ = self.entries.mc_serialize(serializer);
        assert(serializer.output@ == old(serializer).output@ + Self::spec_serialize(self.deep_view()));
        Ok(())
    }
}

impl McDeserialize for Tag {
    open spec fn spec_deserialize(s: Seq<u8>) -> ParseResult<Self::V> {
        TagFields::spec_deserialize(s)
    }

    proof fn lemma_deserialize_len(s: Seq<u8>) {
        TagFields::lemma_deserialize_len(s);
    }

    fn mc_deserialize(deserializer: &mut McDeserializer) -> (r: Result<Tag, SerializingErr>) {
        let (identifier, entries) = TagFields::mc_deserialize(deserializer)?;
        Ok(Tag { identifier, entries })
    }
}

impl McRoundTrip for Tag {
    open spec fn spec_well_formed(v: Self::V) -> bool {
        TagFields::spec_well_formed(v)
    }

    proof fn lemma_round_trip(v: Self::V, rest: Seq<u8>) {
        TagFields::lemma_round_trip(v, rest);
    }
}

/// The fields of [`ProtocolPropertyElement`] as they are sent, in order.
pub type ProtocolPropertyElementFields = (String, (String, PrefixedOptional<String>));

/// A property of a player's profile, with its signature if there is one.
#[derive(Debug, Clone, PartialEq)]
pub struct ProtocolPropertyElement {
    pub name: String,
    pub value: String,
    pub signature: PrefixedOptional<String>,
}

impl DeepView for ProtocolPropertyElement {
    type V = <ProtocolPropertyElementFields as DeepView>::V;

    open spec fn deep_view(&self) -> Self::V {
        (self.name.deep_view(), (self.value.deep_view(), self.signature.deep_view()))
    }
}

impl McSerialize for ProtocolPropertyElement {
    open spec fn spec_serialize(v: Self::V) -> Seq<u8> {
        ProtocolPropertyElementFields::spec_serialize(v)
    }

    open spec fn spec_can_serialize(v: Self::V) -> bool {
        ProtocolPropertyElementFields::spec_can_serialize(v)
    }

    fn mc_serialize(&self, serializer: &mut McSerializer) -> (r: Result<(), SerializingErr>) {
        let _ = self.name.mc_serialize(serializer);
        let _ = self.value.mc_serialize(serializer);
        let _ = self.signature.mc_serialize(serializer);
        assert(serializer.output@ == old(serializer).output@ + Self::spec_serialize(self.deep_view()));
        Ok(())
    }
}

impl McDeserialize for ProtocolPropertyElement {
    open spec fn spec_deserialize(s: Seq<u8>) -> ParseResult<Self::V> {
        ProtocolPropertyElementFields::spec_deserialize(s)
    }

    proof fn lemma_deserialize_len(s: Seq<u8>) {
        ProtocolPropertyElementFields::lemma_deserialize_len(s);
    }

    fn mc_deserialize(deserializer: &mut McDeserializer) -> (r: Result<ProtocolPropertyElement, SerializingErr>) {
        let (name, (value, signature)) = ProtocolPropertyElementFields::mc_deserialize(deserializer)?;
        Ok(ProtocolPropertyElement { name, value, signature })
    }
}

impl McRoundTrip for ProtocolPropertyElement {
    open spec fn spec_well_formed(v: Self::V) -> bool {
        ProtocolPropertyElementFields::spec_well_formed(v)
    }

    proof fn lemma_round_trip(v: Self::V, rest: Seq<u8>) {
        ProtocolPropertyElementFields::lemma_round_trip(v, rest);
    }
}

/// The fields of [`PropertySet`] as they are sent, in order.
pub type PropertySetFields = (String, PrefixedArray<VarInt>);

/// A named set of ids.
#[derive(Debug, Clone, PartialEq)]
pub struct PropertySet {
    pub identifier: String,
    pub items: PrefixedArray<VarInt>,
}

impl DeepView for PropertySet {
    type V = <PropertySetFields as DeepView>::V;

    open spec fn deep_view(&self) -> Self::V {
        (self.identifier.deep_view(), self.items.deep_view())
    }
}

impl McSerialize for PropertySet {
    open spec fn spec_serialize(v: Self::V) -> Seq<u8> {
        PropertySetFields::spec_serialize(v)
    }

    open spec fn spec_can_serialize(v: Self::V) -> bool {
        PropertySetFields::spec_can_serialize(v)
    }

    fn mc_serialize(&self, serializer: &mut McSerializer) -> (r: Result<(), SerializingErr>) {
        let _ = self.identifier.mc_serialize(serializer);
        let _ = self.items.mc_serialize(serializer);
        assert(serializer.output@ == old(serializer).output@ + Self::spec_serialize(self.deep_view()));
        Ok(())
    }
}

impl McDeserialize for PropertySet {
    open spec fn spec_deserialize(s: Seq<u8>) -> ParseResult<Self::V> {
        PropertySetFields::spec_deserialize(s)
    }

    proof fn lemma_deserialize_len(s: Seq<u8>) {
        PropertySetFields::lemma_deserialize_len(s);
    }

    fn mc_deserialize(deserializer: &mut McDeserializer) -> (r: Result<PropertySet, SerializingErr>) {
        let (identifier, items) = PropertySetFields::mc_deserialize(deserializer)?;
        Ok(PropertySet { identifier, items })
    }
}

impl McRoundTrip for PropertySet {
    open spec fn spec_well_formed(v: Self::V) -> bool {
        PropertySetFields::spec_well_formed(v)
    }

    proof fn lemma_round_trip(v: Self::V, rest: Seq<u8>) {
        PropertySetFields::lemma_round_trip(v, rest);
    }
}

/// The fields of [`CustomReportDetails`] as they are sent, in order.
pub type CustomReportDetailsFields = (String, String);

/// One detail of a custom crash report.
#[derive(Debug, Clone, PartialEq)]
pub struct CustomReportDetails {
    pub title: String,
    pub description: String,
}

impl DeepView for CustomReportDetails {
    type V = <CustomReportDetailsFields as DeepView>::V;

    open spec fn deep_view(&self) -> Self::V {
        (self.title.deep_view(), self.description.deep_view())
    }
}

impl McSerialize for CustomReportDetails {
    open spec fn spec_serialize(v: Self::V) -> Seq<u8> {
        CustomReportDetailsFields::spec_serialize(v)
    }

    open spec fn spec_can_serialize(v: Self::V) -> bool {
        CustomReportDetailsFields::spec_can_serialize(v)
    }

    fn mc_serialize(&self, serializer: &mut McSerializer) -> (r: Result<(), SerializingErr>) {
        let _ = self.title.mc_serialize(serializer);
        let _ = self.description.mc_serialize(serializer);
        assert(serializer.output@ == old(serializer).output@ + Self::spec_serialize(self.deep_view()));
        Ok(())
    }
}

impl McDeserialize for CustomReportDetails {
    open spec fn spec_deserialize(s: Seq<u8>) -> ParseResult<Self::V> {
        CustomReportDetailsFields::spec_deserialize(s)
    }

    proof fn lemma_deserialize_len(s: Seq<u8>) {
        CustomReportDetailsFields::lemma_deserialize_len(s);
    }

    fn mc_deserialize(deserializer: &mut McDeserializer) -> (r: Result<CustomReportDetails, SerializingErr>) {
        let (title, description) = CustomReportDetailsFields::mc_deserialize(deserializer)?;
        Ok(CustomReportDetails { title, description })
    }
}

impl McRoundTrip for CustomReportDetails {
    open spec fn spec_well_formed(v: Self::V) -> bool {
        CustomReportDetailsFields::spec_well_formed(v)
    }

    proof fn lemma_round_trip(v: Self::V, rest: Seq<u8>) {
        CustomReportDetailsFields::lemma_round_trip(v, rest);
    }
}

/// The fields of [`ChunkBiomeData`] as they are sent, in order.
pub type ChunkBiomeDataFields = (i32, (i32, BiomeByteData));

/// The biomes of one chunk column, as the chunk biomes packet sends them.
#[derive(Debug, Clone, PartialEq)]
pub struct ChunkBiomeData {
    pub z: i32,
    pub x: i32,
    pub data: BiomeByteData,
}

impl DeepView for ChunkBiomeData {
    type V = <ChunkBiomeDataFields as DeepView>::V;

    open spec fn deep_view(&self) -> Self::V {
        (self.z.deep_view(), (self.x.deep_view(), self.data.deep_view()))
    }
}

impl McSerialize for ChunkBiomeData {
    open spec fn spec_serialize(v: Self::V) -> Seq<u8> {
        ChunkBiomeDataFields::spec_serialize(v)
    }

    open spec fn spec_can_serialize(v: Self::V) -> bool {
        ChunkBiomeDataFields::spec_can_serialize(v)
    }

    fn mc_serialize(&self, serializer: &mut McSerializer) -> (r: Result<(), SerializingErr>) {
        let _ = self.z.mc_serialize(serializer);
        let _ = self.x.mc_serialize(serializer);
        let _ = self.data.mc_serialize(serializer);
        assert(serializer.output@ == old(serializer).output@ + Self::spec_serialize(self.deep_view()));
        Ok(())
    }
}

impl McDeserialize for ChunkBiomeData {
    open spec fn spec_deserialize(s: Seq<u8>) -> ParseResult<Self::V> {
        ChunkBiomeDataFields::spec_deserialize(s)
    }

    proof fn lemma_deserialize_len(s: Seq<u8>) {
        ChunkBiomeDataFields::lemma_deserialize_len(s);
    }

    fn mc_deserialize(deserializer: &mut McDeserializer) -> (r: Result<ChunkBiomeData, SerializingErr>) {
        let (z, (x, data)) = ChunkBiomeDataFields::mc_deserialize(deserializer)?;
        Ok(ChunkBiomeData { z, x, data })
    }
}

impl McRoundTrip for ChunkBiomeData {
    open spec fn spec_well_formed(v: Self::V) -> bool {
        ChunkBiomeDataFields::spec_well_formed(v)
    }

    proof fn lemma_round_trip(v: Self::V, rest: Seq<u8>) {
        ChunkBiomeDataFields::lemma_round_trip(v, rest);
    }
}

/// The event of a Game Event packet, sent as a byte.
#[derive(Debug, Clone, Copy, PartialEq, Eq, Structural, Hash)]
pub enum GameEventType {
    NoRespawnBlockAvailable,
    BeginRaining,
    EndRaining,
    ChangeGameMode,
    WinGame,
    DemoEvent,
    ArrowHitPlayer,
    RainLevelChange,
    ThunderLevelChange,
    PlayPufferfishStingSound,
    PlayElderGuardianAppearance,
    EnableRespawnScreen,
    LimitedCrafting,
    StartWaitingForLevelChunks,
}

impl GameEventType {
    /// The number that stands for this value on the wire.
    pub open spec fn spec_code(self) -> int {
        match self {
            GameEventType::NoRespawnBlockAvailable => 0,
            GameEventType::BeginRaining => 1,
            GameEventType::EndRaining => 2,
            GameEventType::ChangeGameMode => 3,
            GameEventType::WinGame => 4,
            GameEventType::DemoEvent => 5,
            GameEventType::ArrowHitPlayer => 6,
            GameEventType::RainLevelChange => 7,
            GameEventType::ThunderLevelChange => 8,
            GameEventType::PlayPufferfishStingSound => 9,
            GameEventType::PlayElderGuardianAppearance => 10,
            GameEventType::EnableRespawnScreen => 11,
            GameEventType::LimitedCrafting => 12,
            GameEventType::StartWaitingForLevelChunks => 13,
        }
    }

    /// The value that the number `code` stands for, if any.
    pub open spec fn spec_from_code(code: int) -> Option<GameEventType> {
        if code == 0 {
            Some(GameEventType::NoRespawnBlockAvailable)
        } else if code == 1 {
            Some(GameEventType::BeginRaining)
        } else if code == 2 {
            Some(GameEventType::EndRaining)
        } else if code == 3 {
            Some(GameEventType::ChangeGameMode)
        } else if code == 4 {
            Some(GameEventType::WinGame)
        } else if code == 5 {
            Some(GameEventType::DemoEvent)
        } else if code == 6 {
            Some(GameEventType::ArrowHitPlayer)
        } else if code == 7 {
            Some(GameEventType::RainLevelChange)
        } else if code == 8 {
            Some(GameEventType::ThunderLevelChange)
        } else if code == 9 {
            Some(GameEventType::PlayPufferfishStingSound)
        } else if code == 10 {
            Some(GameEventType::PlayElderGuardianAppearance)
        } else if code == 11 {
            Some(GameEventType::EnableRespawnScreen)
        } else if code == 12 {
            Some(GameEventType::LimitedCrafting)
        } else if code == 13 {
            Some(GameEventType::StartWaitingForLevelChunks)
        } else {
            None
        }
    }

    /// The number that stands for this value on the wire.
    pub fn code(&self) -> (c: u8)
        ensures
            c == self.spec_code(),
    {
        match self {
            GameEventType::NoRespawnBlockAvailable => 0,
            GameEventType::BeginRaining => 1,
            GameEventType::EndRaining => 2,
            GameEventType::ChangeGameMode => 3,
            GameEventType::WinGame => 4,
            GameEventType::DemoEvent => 5,
            GameEventType::ArrowHitPlayer => 6,
            GameEventType::RainLevelChange => 7,
            GameEventType::ThunderLevelChange => 8,
            GameEventType::PlayPufferfishStingSound => 9,
            GameEventType::PlayElderGuardianAppearance => 10,
            GameEventType::EnableRespawnScreen => 11,
            GameEventType::LimitedCrafting => 12,
            GameEventType::StartWaitingForLevelChunks => 13,
        }
    }

    /// The value that the number `code` stands for, if any.
    pub fn from_code(code: u8) -> (r: Option<GameEventType>)
        ensures
            r == GameEventType::spec_from_code(code as int),
    {
        match code {
            0 => Some(GameEventType::NoRespawnBlockAvailable),
            1 => Some(GameEventType::BeginRaining),
            2 => Some(GameEventType::EndRaining),
            3 => Some(GameEventType::ChangeGameMode),
            4 => Some(GameEventType::WinGame),
            5 => Some(GameEventType::DemoEvent),
            6 => Some(GameEventType::ArrowHitPlayer),
            7 => Some(GameEventType::RainLevelChange),
            8 => Some(GameEventType::ThunderLevelChange),
            9 => Some(GameEventType::PlayPufferfishStingSound),
            10 => Some(GameEventType::PlayElderGuardianAppearance),
            11 => Some(GameEventType::EnableRespawnScreen),
            12 => Some(GameEventType::LimitedCrafting),
            13 => Some(GameEventType::StartWaitingForLevelChunks),
            _ => None,
        }
    }
}

impl DeepView for GameEventType {
    type V = GameEventType;

    open spec fn deep_view(&self) -> GameEventType {
        *self
    }
}

impl McSerialize for GameEventType {
    open spec fn spec_serialize(v: GameEventType) -> Seq<u8> {
        u8::spec_serialize(v.spec_code() as u8)
    }

    open spec fn spec_can_serialize(v: GameEventType) -> bool {
        true
    }

    fn mc_serialize(&self, serializer: &mut McSerializer) -> (r: Result<(), SerializingErr>) {
        let _ = self.code().mc_serialize(serializer);
        Ok(())
    }
}

impl McDeserialize for GameEventType {
    /// The number, then the value it stands for; an unknown number is refused.
    open spec fn spec_deserialize(s: Seq<u8>) -> ParseResult<GameEventType> {
        match u8::spec_deserialize(s) {
            Ok((x, n)) => match GameEventType::spec_from_code(x as int) {
                Some(v) => Ok((v, n)),
                None => Err(ErrKind::InvalidEnumValue(x as i8)),
            },
            Err(e) => Err(e),
        }
    }

    proof fn lemma_deserialize_len(s: Seq<u8>) {
        u8::lemma_deserialize_len(s);
    }

    fn mc_deserialize(deserializer: &mut McDeserializer) -> (r: Result<GameEventType, SerializingErr>) {
        let code = u8::mc_deserialize(deserializer)?;
        match GameEventType::from_code(code) {
            Some(v) => Ok(v),
            None => Err(SerializingErr::InvalidEnumValue(#[verifier::truncate] (code as i8))),
        }
    }
}

impl McRoundTrip for GameEventType {
    open spec fn spec_well_formed(v: GameEventType) -> bool {
        true
    }

    proof fn lemma_round_trip(v: GameEventType, rest: Seq<u8>) {
        u8::lemma_round_trip(v.spec_code() as u8, rest);
    }
}

/// How an attribute modifier applies, sent as a byte.
#[derive(Debug, Clone, Copy, PartialEq, Eq, Structural, Hash)]
pub enum ModifierOperation {
    AddSubtractAmount,
    AddSubtractPercentage,
    MultiplyPercentage,
}

impl ModifierOperation {
    /// The number that stands for this value on the wire.
    pub open spec fn spec_code(self) -> int {
        match self {
            ModifierOperation::AddSubtractAmount => 0,
            ModifierOperation::AddSubtractPercentage => 1,
            ModifierOperation::MultiplyPercentage => 2,
        }
    }

    /// The value that the number `code` stands for, if any.
    pub open spec fn spec_from_code(code: int) -> Option<ModifierOperation> {
        if code == 0 {
            Some(ModifierOperation::AddSubtractAmount)
        } else if code == 1 {
            Some(ModifierOperation::AddSubtractPercentage)
        } else if code == 2 {
            Some(ModifierOperation::MultiplyPercentage)
        } else {
            None
        }
    }

    /// The number that stands for this value on the wire.
    pub fn code(&self) -> (c: u8)
        ensures
            c == self.spec_code(),
    {
        match self {
            ModifierOperation::AddSubtractAmount => 0,
            ModifierOperation::AddSubtractPercentage => 1,
            ModifierOperation::MultiplyPercentage => 2,
        }
    }

    /// The value that the number `code` stands for, if any.
    pub fn from_code(code: u8) -> (r: Option<ModifierOperation>)
        ensures
            r == ModifierOperation::spec_from_code(code as int),
    {
        match code {
            0 => Some(ModifierOperation::AddSubtractAmount),
            1 => Some(ModifierOperation::AddSubtractPercentage),
            2 => Some(ModifierOperation::MultiplyPercentage),
            _ => None,
        }
    }
}

impl DeepView for ModifierOperation {
    type V = ModifierOperation;

    open spec fn deep_view(&self) -> ModifierOperation {
        *self
    }
}

impl McSerialize for ModifierOperation {
    open spec fn spec_serialize(v: ModifierOperation) -> Seq<u8> {
        u8::spec_serialize(v.spec_code() as u8)
    }

    open spec fn spec_can_serialize(v: ModifierOperation) -> bool {
        true
    }

    fn mc_serialize(&self, serializer: &mut McSerializer) -> (r: Result<(), SerializingErr>) {
        let _ = self.code().mc_serialize(serializer);
        Ok(())
    }
}

impl McDeserialize for ModifierOperation {
    /// The number, then the value it stands for; an unknown number is refused.
    open spec fn spec_deserialize(s: Seq<u8>) -> ParseResult<ModifierOperation> {
        match u8::spec_deserialize(s) {
            Ok((x, n)) => match ModifierOperation::spec_from_code(x as int) {
                Some(v) => Ok((v, n)),
                None => Err(ErrKind::InvalidEnumValue(x as i8)),
            },
            Err(e) => Err(e),
        }
    }

    proof fn lemma_deserialize_len(s: Seq<u8>) {
        u8::lemma_deserialize_len(s);
    }

    fn mc_deserialize(deserializer: &mut McDeserializer) -> (r: Result<ModifierOperation, SerializingErr>) {
        let code = u8::mc_deserialize(deserializer)?;
        match ModifierOperation::from_code(code) {
            Some(v) => Ok(v),
            None => Err(SerializingErr::InvalidEnumValue(#[verifier::truncate] (code as i8))),
        }
    }
}

impl McRoundTrip for ModifierOperation {
    open spec fn spec_well_formed(v: ModifierOperation) -> bool {
        true
    }

    proof fn lemma_round_trip(v: ModifierOperation, rest: Seq<u8>) {
        u8::lemma_round_trip(v.spec_code() as u8, rest);
    }
}

/// What the client asks for in the Client Status packet, sent as a variable-length integer.
#[derive(Debug, Clone, Copy, PartialEq, Eq, Structural, Hash)]
pub enum ClientStatusAction {
    PerformRespawn,
    RequestStats,
}

impl ClientStatusAction {
    /// The number that stands for this value on the wire.
    pub open spec fn spec_code(self) -> int {
        match self {
            ClientStatusAction::PerformRespawn => 0,
            ClientStatusAction::RequestStats => 1,
        }
    }

    /// The value that the number `code` stands for, if any.
    pub open spec fn spec_from_code(code: int) -> Option<ClientStatusAction> {
        if code == 0 {
            Some(ClientStatusAction::PerformRespawn)
        } else if code == 1 {
            Some(ClientStatusAction::RequestStats)
        } else {
            None
        }
    }

    /// The number that stands for this value on the wire.
    pub fn code(&self) -> (c: i32)
        ensures
            c == self.spec_code(),
    {
        match self {
            ClientStatusAction::PerformRespawn => 0,
            ClientStatusAction::RequestStats => 1,
        }
    }

    /// The value that the number `code` stands for, if any.
    pub fn from_code(code: i32) -> (r: Option<ClientStatusAction>)
        ensures
            r == ClientStatusAction::spec_from_code(code as int),
    {
        match code {
            0 => Some(ClientStatusAction::PerformRespawn),
            1 => Some(ClientStatusAction::RequestStats),
            _ => None,
        }
    }
}

impl DeepView for ClientStatusAction {
    type V = ClientStatusAction;

    open spec fn deep_view(&self) -> ClientStatusAction {
        *self
    }
}

impl McSerialize for ClientStatusAction {
    open spec fn spec_serialize(v: ClientStatusAction) -> Seq<u8> {
        spec_varint_bytes(v.spec_code() as i32)
    }

    open spec fn spec_can_serialize(v: ClientStatusAction) -> bool {
        true
    }

    fn mc_serialize(&self, serializer: &mut McSerializer) -> (r: Result<(), SerializingErr>) {
        write_varint(&mut serializer.output, self.code());
        Ok(())
    }
}

impl McDeserialize for ClientStatusAction {
    /// The number, then the value it stands for; an unknown number is refused.
    open spec fn spec_deserialize(s: Seq<u8>) -> ParseResult<ClientStatusAction> {
        match spec_varint_parse(s) {
            Ok((x, n)) => match ClientStatusAction::spec_from_code(x.0 as int) {
                Some(v) => Ok((v, n)),
                None => Err(ErrKind::InvalidEnumValue(x.0 as i8)),
            },
            Err(e) => Err(e),
        }
    }

    proof fn lemma_deserialize_len(s: Seq<u8>) {
        VarInt::lemma_deserialize_len(s);
    }

    fn mc_deserialize(deserializer: &mut McDeserializer) -> (r: Result<ClientStatusAction, SerializingErr>) {
        let code = read_varint(deserializer)?.0;
        match ClientStatusAction::from_code(code) {
            Some(v) => Ok(v),
            None => Err(SerializingErr::InvalidEnumValue(#[verifier::truncate] (code as i8))),
        }
    }
}

impl McRoundTrip for ClientStatusAction {
    open spec fn spec_well_formed(v: ClientStatusAction) -> bool {
        true
    }

    proof fn lemma_round_trip(v: ClientStatusAction, rest: Seq<u8>) {
        lemma_varint_round_trip(v.spec_code() as i32, rest);
    }
}

/// The action of a Player Command packet, sent as a variable-length integer.
#[derive(Debug, Clone, Copy, PartialEq, Eq, Structural, Hash)]
pub enum PlayerCommandAction {
    LeaveBed,
    StartSprinting,
    StopSprinting,
    StartJumpWithHorse,
    StopJumpWithHorse,
    OpenVehicleInventory,
    StartFlyingWithElytra,
}

impl PlayerCommandAction {
    /// The number that stands for this value on the wire.
    pub open spec fn spec_code(self) -> int {
        match self {
            PlayerCommandAction::LeaveBed => 0,
            PlayerCommandAction::StartSprinting => 1,
            PlayerCommandAction::StopSprinting => 2,
            PlayerCommandAction::StartJumpWithHorse => 3,
            PlayerCommandAction::StopJumpWithHorse => 4,
            PlayerCommandAction::OpenVehicleInventory => 5,
            PlayerCommandAction::StartFlyingWithElytra => 6,
        }
    }

    /// The value that the number `code` stands for, if any.
    pub open spec fn spec_from_code(code: int) -> Option<PlayerCommandAction> {
        if code == 0 {
            Some(PlayerCommandAction::LeaveBed)
        } else if code == 1 {
            Some(PlayerCommandAction::StartSprinting)
        } else if code == 2 {
            Some(PlayerCommandAction::StopSprinting)
        } else if code == 3 {
            Some(PlayerCommandAction::StartJumpWithHorse)
        } else if code == 4 {
            Some(PlayerCommandAction::StopJumpWithHorse)
        } else if code == 5 {
            Some(PlayerCommandAction::OpenVehicleInventory)
        } else if code == 6 {
            Some(PlayerCommandAction::StartFlyingWithElytra)
        } else {
            None
        }
    }

    /// The number that stands for this value on the wire.
    pub fn code(&self) -> (c: i32)
        ensures
            c == self.spec_code(),
    {
        match self {
            PlayerCommandAction::LeaveBed => 0,
            PlayerCommandAction::StartSprinting => 1,
            PlayerCommandAction::StopSprinting => 2,
            PlayerCommandAction::StartJumpWithHorse => 3,
            PlayerCommandAction::StopJumpWithHorse => 4,
            PlayerCommandAction::OpenVehicleInventory => 5,
            PlayerCommandAction::StartFlyingWithElytra => 6,
        }
    }

    /// The value that the number `code` stands for, if any.
    pub fn from_code(code: i32) -> (r: Option<PlayerCommandAction>)
        ensures
            r == PlayerCommandAction::spec_from_code(code as int),
    {
        match code {
            0 => Some(PlayerCommandAction::LeaveBed),
            1 => Some(PlayerCommandAction::StartSprinting),
            2 => Some(PlayerCommandAction::StopSprinting),
            3 => Some(PlayerCommandAction::StartJumpWithHorse),
            4 => Some(PlayerCommandAction::StopJumpWithHorse),
            5 => Some(PlayerCommandAction::OpenVehicleInventory),
            6 => Some(PlayerCommandAction::StartFlyingWithElytra),
            _ => None,
        }
    }
}

impl DeepView for PlayerCommandAction {
    type V = PlayerCommandAction;

    open spec fn deep_view(&self) -> PlayerCommandAction {
        *self
    }
}

impl McSerialize for PlayerCommandAction {
    open spec fn spec_serialize(v: PlayerCommandAction) -> Seq<u8> {
        spec_varint_bytes(v.spec_code() as i32)
    }

    open spec fn spec_can_serialize(v: PlayerCommandAction) -> bool {
        true
    }

    fn mc_serialize(&self, serializer: &mut McSerializer) -> (r: Result<(), SerializingErr>) {
        write_varint(&mut serializer.output, self.code());
        Ok(())
    }
}

impl McDeserialize for PlayerCommandAction {
    /// The number, then the value it stands for; an unknown number is refused.
    open spec fn spec_deserialize(s: Seq<u8>) -> ParseResult<PlayerCommandAction> {
        match spec_varint_parse(s) {
            Ok((x, n)) => match PlayerCommandAction::spec_from_code(x.0 as int) {
                Some(v) => Ok((v, n)),
                None => Err(ErrKind::InvalidEnumValue(x.0 as i8)),
            },
            Err(e) => Err(e),
        }
    }

    proof fn lemma_deserialize_len(s: Seq<u8>) {
        VarInt::lemma_deserialize_len(s);
    }

    fn mc_deserialize(deserializer: &mut McDeserializer) -> (r: Result<PlayerCommandAction, SerializingErr>) {
        let code = read_varint(deserializer)?.0;
        match PlayerCommandAction::from_code(code) {
            Some(v) => Ok(v),
            None => Err(SerializingErr::InvalidEnumValue(#[verifier::truncate] (code as i8))),
        }
    }
}

impl McRoundTrip for PlayerCommandAction {
    open spec fn spec_well_formed(v: PlayerCommandAction) -> bool {
        true
    }

    proof fn lemma_round_trip(v: PlayerCommandAction, rest: Seq<u8>) {
        lemma_varint_round_trip(v.spec_code() as i32, rest);
    }
}

/// How a player interacts with an entity, sent as a variable-length integer.
#[derive(Debug, Clone, Copy, PartialEq, Eq, Structural, Hash)]
pub enum InteractType {
    Interact,
    Attack,
    InteractAt,
}

impl InteractType {
    /// The number that stands for this value on the wire.
    pub open spec fn spec_code(self) -> int {
        match self {
            InteractType::Interact => 0,
            InteractType::Attack => 1,
            InteractType::InteractAt => 2,
        }
    }

    /// The value that the number `code` stands for, if any.
    pub open spec fn spec_from_code(code: int) -> Option<InteractType> {
        if code == 0 {
            Some(InteractType::Interact)
        } else if code == 1 {
            Some(InteractType::Attack)
        } else if code == 2 {
            Some(InteractType::InteractAt)
        } else {
            None
        }
    }

    /// The number that stands for this value on the wire.
    pub fn code(&self) -> (c: i32)
        ensures
            c == self.spec_code(),
    {
        match self {
            InteractType::Interact => 0,
            InteractType::Attack => 1,
            InteractType::InteractAt => 2,
        }
    }

    /// The value that the number `code` stands for, if any.
    pub fn from_code(code: i32) -> (r: Option<InteractType>)
        ensures
            r == InteractType::spec_from_code(code as int),
    {
        match code {
            0 => Some(InteractType::Interact),
            1 => Some(InteractType::Attack),
            2 => Some(InteractType::InteractAt),
            _ => None,
        }
    }
}

impl DeepView for InteractType {
    type V = InteractType;

    open spec fn deep_view(&self) -> InteractType {
        *self
    }
}

impl McSerialize for InteractType {
    open spec fn spec_serialize(v: InteractType) -> Seq<u8> {
        spec_varint_bytes(v.spec_code() as i32)
    }

    open spec fn spec_can_serialize(v: InteractType) -> bool {
        true
    }

    fn mc_serialize(&self, serializer: &mut McSerializer) -> (r: Result<(), SerializingErr>) {
        write_varint(&mut serializer.output, self.code());
        Ok(())
    }
}

impl McDeserialize for InteractType {
    /// The number, then the value it stands for; an unknown number is refused.
    open spec fn spec_deserialize(s: Seq<u8>) -> ParseResult<InteractType> {
        match spec_varint_parse(s) {
            Ok((x, n)) => match InteractType::spec_from_code(x.0 as int) {
                Some(v) => Ok((v, n)),
                None => Err(ErrKind::InvalidEnumValue(x.0 as i8)),
            },
            Err(e) => Err(e),
        }
    }

    proof fn lemma_deserialize_len(s: Seq<u8>) {
        VarInt::lemma_deserialize_len(s);
    }

    fn mc_deserialize(deserializer: &mut McDeserializer) -> (r: Result<InteractType, SerializingErr>) {
        let code = read_varint(deserializer)?.0;
        match InteractType::from_code(code) {
            Some(v) => Ok(v),
            None => Err(SerializingErr::InvalidEnumValue(#[verifier::truncate] (code as i8))),
        }
    }
}

impl McRoundTrip for InteractType {
    open spec fn spec_well_formed(v: InteractType) -> bool {
        true
    }

    proof fn lemma_round_trip(v: InteractType, rest: Seq<u8>) {
        lemma_varint_round_trip(v.spec_code() as i32, rest);
    }
}

/// The hand a player interacts with, sent as a variable-length integer.
#[derive(Debug, Clone, Copy, PartialEq, Eq, Structural, Hash)]
pub enum InteractHand {
    Main,
    OffHand,
}

impl InteractHand {
    /// The number that stands for this value on the wire.
    pub open spec fn spec_code(self) -> int {
        match self {
            InteractHand::Main => 0,
            InteractHand::OffHand => 1,
        }
    }

    /// The value that the number `code` stands for, if any.
    pub open spec fn spec_from_code(code: int) -> Option<InteractHand> {
        if code == 0 {
            Some(InteractHand::Main)
        } else if code == 1 {
            Some(InteractHand::OffHand)
        } else {
            None
        }
    }

    /// The number that stands for this value on the wire.
    pub fn code(&self) -> (c: i32)
        ensures
            c == self.spec_code(),
    {
        match self {
            InteractHand::Main => 0,
            InteractHand::OffHand => 1,
        }
    }

    /// The value that the number `code` stands for, if any.
    pub fn from_code(code: i32) -> (r: Option<InteractHand>)
        ensures
            r == InteractHand::spec_from_code(code as int),
    {
        match code {
            0 => Some(InteractHand::Main),
            1 => Some(InteractHand::OffHand),
            _ => None,
        }
    }
}

impl DeepView for InteractHand {
    type V = InteractHand;

    open spec fn deep_view(&self) -> InteractHand {
        *self
    }
}

impl McSerialize for InteractHand {
    open spec fn spec_serialize(v: InteractHand) -> Seq<u8> {
        spec_varint_bytes(v.spec_code() as i32)
    }

    open spec fn spec_can_serialize(v: InteractHand) -> bool {
        true
    }

    fn mc_serialize(&self, serializer: &mut McSerializer) -> (r: Result<(), SerializingErr>) {
        write_varint(&mut serializer.output, self.code());
        Ok(())
    }
}

impl McDeserialize for InteractHand {
    /// The number, then the value it stands for; an unknown number is refused.
    open spec fn spec_deserialize(s: Seq<u8>) -> ParseResult<InteractHand> {
        match spec_varint_parse(s) {
            Ok((x, n)) => match InteractHand::spec_from_code(x.0 as int) {
                Some(v) => Ok((v, n)),
                None => Err(ErrKind::InvalidEnumValue(x.0 as i8)),
            },
            Err(e) => Err(e),
        }
    }

    proof fn lemma_deserialize_len(s: Seq<u8>) {
        VarInt::lemma_deserialize_len(s);
    }

    fn mc_deserialize(deserializer: &mut McDeserializer) -> (r: Result<InteractHand, SerializingErr>) {
        let code = read_varint(deserializer)?.0;
        match InteractHand::from_code(code) {
            Some(v) => Ok(v),
            None => Err(SerializingErr::InvalidEnumValue(#[verifier::truncate] (code as i8))),
        }
    }
}

impl McRoundTrip for InteractHand {
    open spec fn spec_well_formed(v: InteractHand) -> bool {
        true
    }

    proof fn lemma_round_trip(v: InteractHand, rest: Seq<u8>) {
        lemma_varint_round_trip(v.spec_code() as i32, rest);
    }
}

/// The built-in labels of server links, sent as a variable-length integer.
#[derive(Debug, Clone, Copy, PartialEq, Eq, Structural, Hash)]
pub enum ServerLinkStandardLabel {
    BugReport,
    CommunityGuidelines,
    Support,
    Status,
    Feedback,
    Community,
    Website,
    Forums,
    News,
    Announcements,
}

impl ServerLinkStandardLabel {
    /// The number that stands for this value on the wire.
    pub open spec fn spec_code(self) -> int {
        match self {
            ServerLinkStandardLabel::BugReport => 0,
            ServerLinkStandardLabel::CommunityGuidelines => 1,
            ServerLinkStandardLabel::Support => 2,
            ServerLinkStandardLabel::Status => 3,
            ServerLinkStandardLabel::Feedback => 4,
            ServerLinkStandardLabel::Community => 5,
            ServerLinkStandardLabel::Website => 6,
            ServerLinkStandardLabel::Forums => 7,
            ServerLinkStandardLabel::News => 8,
            ServerLinkStandardLabel::Announcements => 9,
        }
    }

    /// The value that the number `code` stands for, if any.
    pub open spec fn spec_from_code(code: int) -> Option<ServerLinkStandardLabel> {
        if code == 0 {
            Some(ServerLinkStandardLabel::BugReport)
        } else if code == 1 {
            Some(ServerLinkStandardLabel::CommunityGuidelines)
        } else if code == 2 {
            Some(ServerLinkStandardLabel::Support)
        } else if code == 3 {
            Some(ServerLinkStandardLabel::Status)
        } else if code == 4 {
            Some(ServerLinkStandardLabel::Feedback)
        } else if code == 5 {
            Some(ServerLinkStandardLabel::Community)
        } else if code == 6 {
            Some(ServerLinkStandardLabel::Website)
        } else if code == 7 {
            Some(ServerLinkStandardLabel::Forums)
        } else if code == 8 {
            Some(ServerLinkStandardLabel::News)
        } else if code == 9 {
            Some(ServerLinkStandardLabel::Announcements)
        } else {
            None
        }
    }

    /// The number that stands for this value on the wire.
    pub fn code(&self) -> (c: i32)
        ensures
            c == self.spec_code(),
    {
        match self {
            ServerLinkStandardLabel::BugReport => 0,
            ServerLinkStandardLabel::CommunityGuidelines => 1,
            ServerLinkStandardLabel::Support => 2,
            ServerLinkStandardLabel::Status => 3,
            ServerLinkStandardLabel::Feedback => 4,
            ServerLinkStandardLabel::Community => 5,
            ServerLinkStandardLabel::Website => 6,
            ServerLinkStandardLabel::Forums => 7,
            ServerLinkStandardLabel::News => 8,
            ServerLinkStandardLabel::Announcements => 9,
        }
    }

    /// The value that the number `code` stands for, if any.
    pub fn from_code(code: i32) -> (r: Option<ServerLinkStandardLabel>)
        ensures
            r == ServerLinkStandardLabel::spec_from_code(code as int),
    {
        match code {
            0 => Some(ServerLinkStandardLabel::BugReport),
            1 => Some(ServerLinkStandardLabel::CommunityGuidelines),
            2 => Some(ServerLinkStandardLabel::Support),
            3 => Some(ServerLinkStandardLabel::Status),
            4 => Some(ServerLinkStandardLabel::Feedback),
            5 => Some(ServerLinkStandardLabel::Community),
            6 => Some(ServerLinkStandardLabel::Website),
            7 => Some(ServerLinkStandardLabel::Forums),
            8 => Some(ServerLinkStandardLabel::News),
            9 => Some(ServerLinkStandardLabel::Announcements),
            _ => None,
        }
    }
}

impl DeepView for ServerLinkStandardLabel {
    type V = ServerLinkStandardLabel;

    open spec fn deep_view(&self) -> ServerLinkStandardLabel {
        *self
    }
}

impl McSerialize for ServerLinkStandardLabel {
    open spec fn spec_serialize(v: ServerLinkStandardLabel) -> Seq<u8> {
        spec_varint_bytes(v.spec_code() as i32)
    }

    open spec fn spec_can_serialize(v: ServerLinkStandardLabel) -> bool {
        true
    }

    fn mc_serialize(&self, serializer: &mut McSerializer) -> (r: Result<(), SerializingErr>) {
        write_varint(&mut serializer.output, self.code());
        Ok(())
    }
}

impl McDeserialize for ServerLinkStandardLabel {
    /// The number, then the value it stands for; an unknown number is refused.
    open spec fn spec_deserialize(s: Seq<u8>) -> ParseResult<ServerLinkStandardLabel> {
        match spec_varint_parse(s) {
            Ok((x, n)) => match ServerLinkStandardLabel::spec_from_code(x.0 as int) {
                Some(v) => Ok((v, n)),
                None => Err(ErrKind::InvalidEnumValue(x.0 as i8)),
            },
            Err(e) => Err(e),
        }
    }

    proof fn lemma_deserialize_len(s: Seq<u8>) {
        VarInt::lemma_deserialize_len(s);
    }

    fn mc_deserialize(deserializer: &mut McDeserializer) -> (r: Result<ServerLinkStandardLabel, SerializingErr>) {
        let code = read_varint(deserializer)?.0;
        match ServerLinkStandardLabel::from_code(code) {
            Some(v) => Ok(v),
            None => Err(SerializingErr::InvalidEnumValue(#[verifier::truncate] (code as i8))),
        }
    }
}

impl McRoundTrip for ServerLinkStandardLabel {
    open spec fn spec_well_formed(v: ServerLinkStandardLabel) -> bool {
        true
    }

    proof fn lemma_round_trip(v: ServerLinkStandardLabel, rest: Seq<u8>) {
        lemma_varint_round_trip(v.spec_code() as i32, rest);
    }
}

/// The color of a boss bar, sent as a variable-length integer.
#[derive(Debug, Clone, Copy, PartialEq, Eq, Structural, Hash)]
pub enum BossBarColor {
    Pink,
    Blue,
    Red,
    Green,
    Yellow,
    Purple,
    White,
}

impl BossBarColor {
    /// The number that stands for this value on the wire.
    pub open spec fn spec_code(self) -> int {
        match self {
            BossBarColor::Pink => 0,
            BossBarColor::Blue => 1,
            BossBarColor::Red => 2,
            BossBarColor::Green => 3,
            BossBarColor::Yellow => 4,
            BossBarColor::Purple => 5,
            BossBarColor::White => 6,
        }
    }

    /// The value that the number `code` stands for, if any.
    pub open spec fn spec_from_code(code: int) -> Option<BossBarColor> {
        if code == 0 {
            Some(BossBarColor::Pink)
        } else if code == 1 {
            Some(BossBarColor::Blue)
        } else if code == 2 {
            Some(BossBarColor::Red)
        } else if code == 3 {
            Some(BossBarColor::Green)
        } else if code == 4 {
            Some(BossBarColor::Yellow)
        } else if code == 5 {
            Some(BossBarColor::Purple)
        } else if code == 6 {
            Some(BossBarColor::White)
        } else {
            None
        }
    }

    /// The number that stands for this value on the wire.
    pub fn code(&self) -> (c: i32)
        ensures
            c == self.spec_code(),
    {
        match self {
            BossBarColor::Pink => 0,
            BossBarColor::Blue => 1,
            BossBarColor::Red => 2,
            BossBarColor::Green => 3,
            BossBarColor::Yellow => 4,
            BossBarColor::Purple => 5,
            BossBarColor::White => 6,
        }
    }

    /// The value that the number `code` stands for, if any.
    pub fn from_code(code: i32) -> (r: Option<BossBarColor>)
        ensures
            r == BossBarColor::spec_from_code(code as int),
    {
        match code {
            0 => Some(BossBarColor::Pink),
            1 => Some(BossBarColor::Blue),
            2 => Some(BossBarColor::Red),
            3 => Some(BossBarColor::Green),
            4 => Some(BossBarColor::Yellow),
            5 => Some(BossBarColor::Purple),
            6 => Some(BossBarColor::White),
            _ => None,
        }
    }
}

impl DeepView for BossBarColor {
    type V = BossBarColor;

    open spec fn deep_view(&self) -> BossBarColor {
        *self
    }
}

impl McSerialize for BossBarColor {
    open spec fn spec_serialize(v: BossBarColor) -> Seq<u8> {
        spec_varint_bytes(v.spec_code() as i32)
    }

    open spec fn spec_can_serialize(v: BossBarColor) -> bool {
        true
    }

    fn mc_serialize(&self, serializer: &mut McSerializer) -> (r: Result<(), SerializingErr>) {
        write_varint(&mut serializer.output, self.code());
        Ok(())
    }
}

impl McDeserialize for BossBarColor {
    /// The number, then the value it stands for; an unknown number is refused.
    open spec fn spec_deserialize(s: Seq<u8>) -> ParseResult<BossBarColor> {
        match spec_varint_parse(s) {
            Ok((x, n)) => match BossBarColor::spec_from_code(x.0 as int) {
                Some(v) => Ok((v, n)),
                None => Err(ErrKind::InvalidEnumValue(x.0 as i8)),
            },
            Err(e) => Err(e),
        }
    }

    proof fn lemma_deserialize_len(s: Seq<u8>) {
        VarInt::lemma_deserialize_len(s);
    }

    fn mc_deserialize(deserializer: &mut McDeserializer) -> (r: Result<BossBarColor, SerializingErr>) {
        let code = read_varint(deserializer)?.0;
        match BossBarColor::from_code(code) {
            Some(v) => Ok(v),
            None => Err(SerializingErr::InvalidEnumValue(#[verifier::truncate] (code as i8))),
        }
    }
}

impl McRoundTrip for BossBarColor {
    open spec fn spec_well_formed(v: BossBarColor) -> bool {
        true
    }

    proof fn lemma_round_trip(v: BossBarColor, rest: Seq<u8>) {
        lemma_varint_round_trip(v.spec_code() as i32, rest);
    }
}

/// The notches of a boss bar, sent as a variable-length integer.
#[derive(Debug, Clone, Copy, PartialEq, Eq, Structural, Hash)]
pub enum BossBarDivisions {
    NoDivision,
    SixNotches,
    TenNotches,
    TwelveNotches,
    TwentyNotches,
}

impl BossBarDivisions {
    /// The number that stands for this value on the wire.
    pub open spec fn spec_code(self) -> int {
        match self {
            BossBarDivisions::NoDivision => 0,
            BossBarDivisions::SixNotches => 1,
            BossBarDivisions::TenNotches => 2,
            BossBarDivisions::TwelveNotches => 3,
            BossBarDivisions::TwentyNotches => 4,
        }
    }

    /// The value that the number `code` stands for, if any.
    pub open spec fn spec_from_code(code: int) -> Option<BossBarDivisions> {
        if code == 0 {
            Some(BossBarDivisions::NoDivision)
        } else if code == 1 {
            Some(BossBarDivisions::SixNotches)
        } else if code == 2 {
            Some(BossBarDivisions::TenNotches)
        } else if code == 3 {
            Some(BossBarDivisions::TwelveNotches)
        } else if code == 4 {
            Some(BossBarDivisions::TwentyNotches)
        } else {
            None
        }
    }

    /// The number that stands for this value on the wire.
    pub fn code(&self) -> (c: i32)
        ensures
            c == self.spec_code(),
    {
        match self {
            BossBarDivisions::NoDivision => 0,
            BossBarDivisions::SixNotches => 1,
            BossBarDivisions::TenNotches => 2,
            BossBarDivisions::TwelveNotches => 3,
            BossBarDivisions::TwentyNotches => 4,
        }
    }

    /// The value that the number `code` stands for, if any.
    pub fn from_code(code: i32) -> (r: Option<BossBarDivisions>)
        ensures
            r == BossBarDivisions::spec_from_code(code as int),
    {
        match code {
            0 => Some(BossBarDivisions::NoDivision),
            1 => Some(BossBarDivisions::SixNotches),
            2 => Some(BossBarDivisions::TenNotches),
            3 => Some(BossBarDivisions::TwelveNotches),
            4 => Some(BossBarDivisions::TwentyNotches),
            _ => None,
        }
    }
}

impl DeepView for BossBarDivisions {
    type V = BossBarDivisions;

    open spec fn deep_view(&self) -> BossBarDivisions {
        *self
    }
}

impl McSerialize for BossBarDivisions {
    open spec fn spec_serialize(v: BossBarDivisions) -> Seq<u8> {
        spec_varint_bytes(v.spec_code() as i32)
    }

    open spec fn spec_can_serialize(v: BossBarDivisions) -> bool {
        true
    }

    fn mc_serialize(&self, serializer: &mut McSerializer) -> (r: Result<(), SerializingErr>) {
        write_varint(&mut serializer.output, self.code());
        Ok(())
    }
}

impl McDeserialize for BossBarDivisions {
    /// The number, then the value it stands for; an unknown number is refused.
    open spec fn spec_deserialize(s: Seq<u8>) -> ParseResult<BossBarDivisions> {
        match spec_varint_parse(s) {
            Ok((x, n)) => match BossBarDivisions::spec_from_code(x.0 as int) {
                Some(v) => Ok((v, n)),
                None => Err(ErrKind::InvalidEnumValue(x.0 as i8)),
            },
            Err(e) => Err(e),
        }
    }

    proof fn lemma_deserialize_len(s: Seq<u8>) {
        VarInt::lemma_deserialize_len(s);
    }

    fn mc_deserialize(deserializer: &mut McDeserializer) -> (r: Result<BossBarDivisions, SerializingErr>) {
        let code = read_varint(deserializer)?.0;
        match BossBarDivisions::from_code(code) {
            Some(v) => Ok(v),
            None => Err(SerializingErr::InvalidEnumValue(#[verifier::truncate] (code as i8))),
        }
    }
}

impl McRoundTrip for BossBarDivisions {
    open spec fn spec_well_formed(v: BossBarDivisions) -> bool {
        true
    }

    proof fn lemma_round_trip(v: BossBarDivisions, rest: Seq<u8>) {
        lemma_varint_round_trip(v.spec_code() as i32, rest);
    }
}

/// A parameter of a chat type, sent as a variable-length integer.
#[derive(Debug, Clone, Copy, PartialEq, Eq, Structural, Hash)]
pub enum ChatTypeParemeter {
    Sender,
    Target,
    Content,
}

impl ChatTypeParemeter {
    /// The number that stands for this value on the wire.
    pub open spec fn spec_code(self) -> int {
        match self {
            ChatTypeParemeter::Sender => 0,
            ChatTypeParemeter::Target => 1,
            ChatTypeParemeter::Content => 2,
        }
    }

    /// The value that the number `code` stands for, if any.
    pub open spec fn spec_from_code(code: int) -> Option<ChatTypeParemeter> {
        if code == 0 {
            Some(ChatTypeParemeter::Sender)
        } else if code == 1 {
            Some(ChatTypeParemeter::Target)
        } else if code == 2 {
            Some(ChatTypeParemeter::Content)
        } else {
            None
        }
    }

    /// The number that stands for this value on the wire.
    pub fn code(&self) -> (c: i32)
        ensures
            c == self.spec_code(),
    {
        match self {
            ChatTypeParemeter::Sender => 0,
            ChatTypeParemeter::Target => 1,
            ChatTypeParemeter::Content => 2,
        }
    }

    /// The value that the number `code` stands for, if any.
    pub fn from_code(code: i32) -> (r: Option<ChatTypeParemeter>)
        ensures
            r == ChatTypeParemeter::spec_from_code(code as int),
    {
        match code {
            0 => Some(ChatTypeParemeter::Sender),
            1 => Some(ChatTypeParemeter::Target),
            2 => Some(ChatTypeParemeter::Content),
            _ => None,
        }
    }
}

impl DeepView for ChatTypeParemeter {
    type V = ChatTypeParemeter;

    open spec fn deep_view(&self) -> ChatTypeParemeter {
        *self
    }
}

impl McSerialize for ChatTypeParemeter {
    open spec fn spec_serialize(v: ChatTypeParemeter) -> Seq<u8> {
        spec_varint_bytes(v.spec_code() as i32)
    }

    open spec fn spec_can_serialize(v: ChatTypeParemeter) -> bool {
        true
    }

    fn mc_serialize(&self, serializer: &mut McSerializer) -> (r: Result<(), SerializingErr>) {
        write_varint(&mut serializer.output, self.code());
        Ok(())
    }
}

impl McDeserialize for ChatTypeParemeter {
    /// The number, then the value it stands for; an unknown number is refused.
    open spec fn spec_deserialize(s: Seq<u8>) -> ParseResult<ChatTypeParemeter> {
        match spec_varint_parse(s) {
            Ok((x, n)) => match ChatTypeParemeter::spec_from_code(x.0 as int) {
                Some(v) => Ok((v, n)),
                None => Err(ErrKind::InvalidEnumValue(x.0 as i8)),
            },
            Err(e) => Err(e),
        }
    }

    proof fn lemma_deserialize_len(s: Seq<u8>) {
        VarInt::lemma_deserialize_len(s);
    }

    fn mc_deserialize(deserializer: &mut McDeserializer) -> (r: Result<ChatTypeParemeter, SerializingErr>) {
        let code = read_varint(deserializer)?.0;
        match ChatTypeParemeter::from_code(code) {
            Some(v) => Ok(v),
            None => Err(SerializingErr::InvalidEnumValue(#[verifier::truncate] (code as i8))),
        }
    }
}

impl McRoundTrip for ChatTypeParemeter {
    open spec fn spec_well_formed(v: ChatTypeParemeter) -> bool {
        true
    }

    proof fn lemma_round_trip(v: ChatTypeParemeter, rest: Seq<u8>) {
        lemma_varint_round_trip(v.spec_code() as i32, rest);
    }
}

/// The fields of [`ChatTypeEntry`] as they are sent, in order.
pub type ChatTypeEntryFields = (String, (PrefixedArray<ChatTypeParemeter>, NbtCompound));

/// How a chat message of a chat type is shown: the translation key, the parameters it takes, and the style.
#[derive(Debug, PartialEq)]
pub struct ChatTypeEntry {
    pub translation_key: String,
    parameters: PrefixedArray<ChatTypeParemeter>,
    style: NbtCompound,
}

impl DeepView for ChatTypeEntry {
    type V = <ChatTypeEntryFields as DeepView>::V;

    closed spec fn deep_view(&self) -> Self::V {
        (self.translation_key.deep_view(), (self.parameters.deep_view(), self.style.deep_view()))
    }
}

impl McSerialize for ChatTypeEntry {
    open spec fn spec_serialize(v: Self::V) -> Seq<u8> {
        ChatTypeEntryFields::spec_serialize(v)
    }

    open spec fn spec_can_serialize(v: Self::V) -> bool {
        ChatTypeEntryFields::spec_can_serialize(v)
    }

    fn mc_serialize(&self, serializer: &mut McSerializer) -> (r: Result<(), SerializingErr>) {
        let _ = self.translation_key.mc_serialize(serializer);
        let _ = self.parameters.mc_serialize(serializer);
        let _ = self.style.mc_serialize(serializer);
        assert(serializer.output@ == old(serializer).output@ + Self::spec_serialize(self.deep_view()));
        Ok(())
    }
}

impl McDeserialize for ChatTypeEntry {
    open spec fn spec_deserialize(s: Seq<u8>) -> ParseResult<Self::V> {
        ChatTypeEntryFields::spec_deserialize(s)
    }

    proof fn lemma_deserialize_len(s: Seq<u8>) {
        ChatTypeEntryFields::lemma_deserialize_len(s);
    }

    fn mc_deserialize(deserializer: &mut McDeserializer) -> (r: Result<ChatTypeEntry, SerializingErr>) {
        let (translation_key, (parameters, style)) = ChatTypeEntryFields::mc_deserialize(deserializer)?;
        Ok(ChatTypeEntry { translation_key, parameters, style })
    }
}

impl McRoundTrip for ChatTypeEntry {
    open spec fn spec_well_formed(v: Self::V) -> bool {
        ChatTypeEntryFields::spec_well_formed(v)
    }

    proof fn lemma_round_trip(v: Self::V, rest: Seq<u8>) {
        ChatTypeEntryFields::lemma_round_trip(v, rest);
    }
}

/// The fields of [`ChatTypeNetwork`] as they are sent, in order.
pub type ChatTypeNetworkFields = (ChatTypeEntry, ChatTypeEntry);

/// Network representation of chat type: how it is shown and how it is narrated.
#[derive(Debug, PartialEq)]
pub struct ChatTypeNetwork {
    pub chat: ChatTypeEntry,
    pub narration: ChatTypeEntry,
}

impl DeepView for ChatTypeNetwork {
    type V = <ChatTypeNetworkFields as DeepView>::V;

    open spec fn deep_view(&self) -> Self::V {
        (self.chat.deep_view(), self.narration.deep_view())
    }
}

impl McSerialize for ChatTypeNetwork {
    open spec fn spec_serialize(v: Self::V) -> Seq<u8> {
        ChatTypeNetworkFields::spec_serialize(v)
    }

    open spec fn spec_can_serialize(v: Self::V) -> bool {
        ChatTypeNetworkFields::spec_can_serialize(v)
    }

    fn mc_serialize(&self, serializer: &mut McSerializer) -> (r: Result<(), SerializingErr>) {
        let _ = self.chat.mc_serialize(serializer);
        let _ = self.narration.mc_serialize(serializer);
        assert(serializer.output@ == old(serializer).output@ + Self::spec_serialize(self.deep_view()));
        Ok(())
    }
}

impl McDeserialize for ChatTypeNetwork {
    open spec fn spec_deserialize(s: Seq<u8>) -> ParseResult<Self::V> {
        ChatTypeNetworkFields::spec_deserialize(s)
    }

    proof fn lemma_deserialize_len(s: Seq<u8>) {
        ChatTypeNetworkFields::lemma_deserialize_len(s);
    }

    fn mc_deserialize(deserializer: &mut McDeserializer) -> (r: Result<ChatTypeNetwork, SerializingErr>) {
        let (chat, narration) = ChatTypeNetworkFields::mc_deserialize(deserializer)?;
        Ok(ChatTypeNetwork { chat, narration })
    }
}

impl McRoundTrip for ChatTypeNetwork {
    open spec fn spec_well_formed(v: Self::V) -> bool {
        ChatTypeNetworkFields::spec_well_formed(v)
    }

    proof fn lemma_round_trip(v: Self::V, rest: Seq<u8>) {
        ChatTypeNetworkFields::lemma_round_trip(v, rest);
    }
}

/// A client's answer to a login plugin request: the message it answers, whether it understood
/// it, and, when it did, the rest of the packet as its data.
#[derive(Debug, Clone, PartialEq, Eq, Hash)]
pub struct LoginPluginSpec {
    pub(crate) message_id: VarInt,
    pub(crate) success: bool,
    pub(crate) data: Option<Vec<u8>>,
}

impl DeepView for LoginPluginSpec {
    type V = (VarInt, (bool, Option<Seq<u8>>));

    closed spec fn deep_view(&self) -> Self::V {
        (self.message_id, (self.success, self.data.deep_view()))
    }
}

impl McSerialize for LoginPluginSpec {
    /// The message id, the success flag, then the data if there is any.
    open spec fn spec_serialize(v: Self::V) -> Seq<u8> {
        VarInt::spec_serialize(v.0) + bool::spec_serialize(v.1.0) + spec_option_bytes::<Vec<u8>>(v.1.1)
    }

    open spec fn spec_can_serialize(v: Self::V) -> bool {
        true
    }

    fn mc_serialize(&self, serializer: &mut McSerializer) -> (r: Result<(), SerializingErr>) {
        let _ = self.message_id.mc_serialize(serializer);
        let _ = self.success.mc_serialize(serializer);
        proof {
            assert forall|x: Seq<u8>| #[trigger] seq_can_serialize::<u8>(x) by {}
        }
        serialize_option(&self.data, serializer);
        Ok(())
    }
}

impl McDeserialize for LoginPluginSpec {
    /// The message id, the success flag, and, on success, every byte left as the data.
    open spec fn spec_deserialize(s: Seq<u8>) -> ParseResult<Self::V> {
        match <(VarInt, bool)>::spec_deserialize(s) {
            Err(e) => Err(e),
            Ok(((id, ok), n)) => if ok {
                match Vec::<u8>::spec_deserialize(s.skip(n as int)) {
                    Err(e) => Err(e),
                    Ok((d, m)) => Ok(((id, (true, Some(d))), n + m)),
                }
            } else {
                Ok(((id, (false, None::<Seq<u8>>)), n))
            },
        }
    }

    proof fn lemma_deserialize_len(s: Seq<u8>) {
        <(VarInt, bool)>::lemma_deserialize_len(s);
        if let Ok((h, n)) = <(VarInt, bool)>::spec_deserialize(s) {
            Vec::<u8>::lemma_deserialize_len(s.skip(n as int));
        }
    }

    fn mc_deserialize(deserializer: &mut McDeserializer) -> (r: Result<LoginPluginSpec, SerializingErr>) {
        let ghost d0 = *deserializer;
        let (message_id, success) = <(VarInt, bool)>::mc_deserialize(deserializer)?;
        proof {
            <(VarInt, bool)>::lemma_deserialize_len(d0.remaining());
            lemma_remaining_advance(d0, *deserializer, (deserializer.index - d0.index) as nat);
        }
        let data = if success {
            Some(Vec::<u8>::mc_deserialize(deserializer)?)
        } else {
            None
        };
        Ok(LoginPluginSpec { message_id, success, data })
    }
}

/// Data follows exactly when the flag says it does.
pub open spec fn spec_login_plugin_wf(v: <LoginPluginSpec as DeepView>::V) -> bool {
    v.1.0 == v.1.1 is Some
}

/// A client's answer to a login plugin request whose flag says whether data follows reads back
/// as it was written, when it ends the packet.
pub proof fn lemma_login_plugin_round_trip(v: <LoginPluginSpec as DeepView>::V)
    requires
        spec_login_plugin_wf(v),
    ensures
        LoginPluginSpec::spec_deserialize(LoginPluginSpec::spec_serialize(v))
            == Ok::<(<LoginPluginSpec as DeepView>::V, nat), ErrKind>((v, LoginPluginSpec::spec_serialize(v).len())),
{
    let hb = <(VarInt, bool)>::spec_serialize((v.0, v.1.0));
    let db = spec_option_bytes::<Vec<u8>>(v.1.1);
    let s = LoginPluginSpec::spec_serialize(v);
    assert(s == hb + db);
    <(VarInt, bool)>::lemma_round_trip((v.0, v.1.0), db);
    assert(s.skip(hb.len() as int) == db);
    if let Some(d) = v.1.1 {
        lemma_bytes_parse_all(d);
    }
}

/// Every byte sequence reads back whole as a sequence of bytes.
pub proof fn lemma_bytes_parse_all(d: Seq<u8>)
    ensures
        parse_all::<u8>(seq_serialize::<u8>(d)) == Ok::<(Seq<u8>, nat), ErrKind>((d, seq_serialize::<u8>(d).len())),
{
    assert forall|i: int| 0 <= i < d.len() implies #[trigger] u8::spec_can_serialize(d[i]) by {}
    assert forall|i: int| 0 <= i < d.len() implies #[trigger] u8::spec_well_formed(d[i]) by {}
    assert forall|i: int| 0 <= i < d.len() implies #[trigger] u8::spec_serialize(d[i]).len() > 0 by {}
    lemma_parse_all_round_trip::<u8>(d);
}

/// A client's answer to a cookie request during login: the cookie's key and, when it has one,
/// its payload, after the payload's length; the payload is the rest of the packet.
#[derive(Debug, Clone, PartialEq, Eq)]
pub struct LoginCookieResponseSpec {
    key: String,
    has_payload: bool,
    payload_length: VarInt,
    payload: Option<Vec<u8>>,
}

impl DeepView for LoginCookieResponseSpec {
    type V = (Seq<char>, (bool, (VarInt, Option<Seq<u8>>)));

    closed spec fn deep_view(&self) -> Self::V {
        (self.key@, (self.has_payload, (self.payload_length, self.payload.deep_view())))
    }
}

impl McSerialize for LoginCookieResponseSpec {
    /// The key, the payload flag, the payload length, then the payload if there is one.
    open spec fn spec_serialize(v: Self::V) -> Seq<u8> {
        <(String, (bool, VarInt))>::spec_serialize((v.0, (v.1.0, v.1.1.0))) + spec_option_bytes::<Vec<u8>>(v.1.1.1)
    }

    open spec fn spec_can_serialize(v: Self::V) -> bool {
        String::spec_can_serialize(v.0)
    }

    fn mc_serialize(&self, serializer: &mut McSerializer) -> (r: Result<(), SerializingErr>) {
        let ghost s0 = serializer.output@;
        let _ = self.key.mc_serialize(serializer);
        let _ = self.has_payload.mc_serialize(serializer);
        let _ = self.payload_length.mc_serialize(serializer);
        assert(serializer.output@ == s0 + <(String, (bool, VarInt))>::spec_serialize((self.key@, (self.has_payload, self.payload_length))));
        proof {
            assert forall|x: Seq<u8>| #[trigger] seq_can_serialize::<u8>(x) by {}
        }
        serialize_option(&self.payload, serializer);
        Ok(())
    }
}

impl McDeserialize for LoginCookieResponseSpec {
    /// The key, the payload flag, the payload length, and, when the flag is set, every byte left
    /// as the payload.
    open spec fn spec_deserialize(s: Seq<u8>) -> ParseResult<Self::V> {
        match <(String, (bool, VarInt))>::spec_deserialize(s) {
            Err(e) => Err(e),
            Ok(((key, (has, len)), n)) => if has {
                match Vec::<u8>::spec_deserialize(s.skip(n as int)) {
                    Err(e) => Err(e),
                    Ok((d, m)) => Ok(((key, (true, (len, Some(d)))), n + m)),
                }
            } else {
                Ok(((key, (false, (len, None::<Seq<u8>>))), n))
            },
        }
    }

    proof fn lemma_deserialize_len(s: Seq<u8>) {
        <(String, (bool, VarInt))>::lemma_deserialize_len(s);
        if let Ok((h, n)) = <(String, (bool, VarInt))>::spec_deserialize(s) {
            Vec::<u8>::lemma_deserialize_len(s.skip(n as int));
        }
    }

    fn mc_deserialize(deserializer: &mut McDeserializer) -> (r: Result<LoginCookieResponseSpec, SerializingErr>) {
        let ghost d0 = *deserializer;
        let (key, (has_payload, payload_length)) = <(String, (bool, VarInt))>::mc_deserialize(deserializer)?;
        proof {
            <(String, (bool, VarInt))>::lemma_deserialize_len(d0.remaining());
            lemma_remaining_advance(d0, *deserializer, (deserializer.index - d0.index) as nat);
        }
        let payload = if has_payload {
            Some(Vec::<u8>::mc_deserialize(deserializer)?)
        } else {
            None
        };
        Ok(LoginCookieResponseSpec { key, has_payload, payload_length, payload })
    }
}

/// A payload follows exactly when the flag says it does.
pub open spec fn spec_login_cookie_wf(v: <LoginCookieResponseSpec as DeepView>::V) -> bool {
    v.1.0 == v.1.1.1 is Some
}

/// A cookie response whose flag says whether a payload follows reads back as it was written,
/// when it ends the packet.
pub proof fn lemma_login_cookie_round_trip(v: <LoginCookieResponseSpec as DeepView>::V)
    requires
        LoginCookieResponseSpec::spec_can_serialize(v),
        spec_login_cookie_wf(v),
    ensures
        LoginCookieResponseSpec::spec_deserialize(LoginCookieResponseSpec::spec_serialize(v))
            == Ok::<(<LoginCookieResponseSpec as DeepView>::V, nat), ErrKind>((v, LoginCookieResponseSpec::spec_serialize(v).len())),
{
    let h = (v.0, (v.1.0, v.1.1.0));
    let hb = <(String, (bool, VarInt))>::spec_serialize(h);
    let db = spec_option_bytes::<Vec<u8>>(v.1.1.1);
    let s = LoginCookieResponseSpec::spec_serialize(v);
    <(String, (bool, VarInt))>::lemma_round_trip(h, db);
    assert(s.skip(hb.len() as int) == db);
    if let Some(d) = v.1.1.1 {
        lemma_bytes_parse_all(d);
    }
}

} // verus!
