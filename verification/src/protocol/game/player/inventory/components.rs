//! The components an item stack can carry.

use crate::protocol::game::player::inventory::component_types::DyeColor;
use crate::protocol::packets::packet_parts::effects::{FireworkExplosion, PotionEffect};
use crate::protocol::packets::packet_parts::item::IdOrBannerPattern;
use crate::protocol::serialization::serializer_types::{
    serialize_option, spec_option_bytes, PrefixedArray, PrefixedOptional,
};
use crate::protocol::serialization::var_int::{read_varint, VarInt};
use crate::protocol::serialization::{
    deserialized, lemma_remaining_advance, ErrKind, McDeserialize, McDeserializer, McRoundTrip,
    McSerialize, McSerializer, ParseResult, SerializingErr,
};
use crate::protocol_types::datatypes::game_types::Position;
use crate::protocol_types::datatypes::nbt::NbtCompound;
use vstd::prelude::*;

verus! {

/// The fields of [`EnchantmentEntry`] as they are sent, in order.
pub type EnchantmentEntryFields = (VarInt, VarInt);

/// An enchantment and its level.
#[derive(Debug, Clone, PartialEq)]
pub struct EnchantmentEntry {
    pub type_id: VarInt,
    pub level: VarInt,
}

impl DeepView for EnchantmentEntry {
    type V = <EnchantmentEntryFields as DeepView>::V;

    open spec fn deep_view(&self) -> Self::V {
        (self.type_id.deep_view(), self.level.deep_view())
    }
}

impl McSerialize for EnchantmentEntry {
    open spec fn spec_serialize(v: Self::V) -> Seq<u8> {
        EnchantmentEntryFields::spec_serialize(v)
    }

    open spec fn spec_can_serialize(v: Self::V) -> bool {
        EnchantmentEntryFields::spec_can_serialize(v)
    }

    fn mc_serialize(&self, serializer: &mut McSerializer) -> (r: Result<(), SerializingErr>) {
        let _ = self.type_id.mc_serialize(serializer);
        let _ = self.level.mc_serialize(serializer);
        assert(serializer.output@ == old(serializer).output@ + Self::spec_serialize(self.deep_view()));
        Ok(())
    }
}

impl McDeserialize for EnchantmentEntry {
    open spec fn spec_deserialize(s: Seq<u8>) -> ParseResult<Self::V> {
        EnchantmentEntryFields::spec_deserialize(s)
    }

    proof fn lemma_deserialize_len(s: Seq<u8>) {
        EnchantmentEntryFields::lemma_deserialize_len(s);
    }

    fn mc_deserialize(deserializer: &mut McDeserializer) -> (r: Result<EnchantmentEntry, SerializingErr>) {
        let (type_id, level) = EnchantmentEntryFields::mc_deserialize(deserializer)?;
        Ok(EnchantmentEntry { type_id, level })
    }
}

impl McRoundTrip for EnchantmentEntry {
    open spec fn spec_well_formed(v: Self::V) -> bool {
        EnchantmentEntryFields::spec_well_formed(v)
    }

    proof fn lemma_round_trip(v: Self::V, rest: Seq<u8>) {
        EnchantmentEntryFields::lemma_round_trip(v, rest);
    }
}

/// The fields of [`EnchantmentList`] as they are sent, in order.
pub type EnchantmentListFields = PrefixedArray<EnchantmentEntry>;

/// The enchantments of an item.
#[derive(Debug, Clone, PartialEq)]
pub struct EnchantmentList {
    pub entries: PrefixedArray<EnchantmentEntry>,
}

impl DeepView for EnchantmentList {
    type V = <EnchantmentListFields as DeepView>::V;

    open spec fn deep_view(&self) -> Self::V {
        self.entries.deep_view()
    }
}

impl McSerialize for EnchantmentList {
    open spec fn spec_serialize(v: Self::V) -> Seq<u8> {
        EnchantmentListFields::spec_serialize(v)
    }

    open spec fn spec_can_serialize(v: Self::V) -> bool {
        EnchantmentListFields::spec_can_serialize(v)
    }

    fn mc_serialize(&self, serializer: &mut McSerializer) -> (r: Result<(), SerializingErr>) {
        let _ = self.entries.mc_serialize(serializer);
        Ok(())
    }
}

impl McDeserialize for EnchantmentList {
    open spec fn spec_deserialize(s: Seq<u8>) -> ParseResult<Self::V> {
        EnchantmentListFields::spec_deserialize(s)
    }

    proof fn lemma_deserialize_len(s: Seq<u8>) {
        EnchantmentListFields::lemma_deserialize_len(s);
    }

    fn mc_deserialize(deserializer: &mut McDeserializer) -> (r: Result<EnchantmentList, SerializingErr>) {
        let entries = EnchantmentListFields::mc_deserialize(deserializer)?;
        Ok(EnchantmentList { entries })
    }
}

impl McRoundTrip for EnchantmentList {
    open spec fn spec_well_formed(v: Self::V) -> bool {
        EnchantmentListFields::spec_well_formed(v)
    }

    proof fn lemma_round_trip(v: Self::V, rest: Seq<u8>) {
        EnchantmentListFields::lemma_round_trip(v, rest);
    }
}

/// The fields of [`TooltipDisplayComponent`] as they are sent, in order.
pub type TooltipDisplayComponentFields = (bool, PrefixedArray<VarInt>);

/// Whether the tooltip shows, and which components it leaves out.
#[derive(Debug, Clone, PartialEq)]
pub struct TooltipDisplayComponent {
    pub hide_tooltip: bool,
    pub hidden_components: PrefixedArray<VarInt>,
}

impl DeepView for TooltipDisplayComponent {
    type V = <TooltipDisplayComponentFields as DeepView>::V;

    open spec fn deep_view(&self) -> Self::V {
        (self.hide_tooltip.deep_view(), self.hidden_components.deep_view())
    }
}

impl McSerialize for TooltipDisplayComponent {
    open spec fn spec_serialize(v: Self::V) -> Seq<u8> {
        TooltipDisplayComponentFields::spec_serialize(v)
    }

    open spec fn spec_can_serialize(v: Self::V) -> bool {
        TooltipDisplayComponentFields::spec_can_serialize(v)
    }

    fn mc_serialize(&self, serializer: &mut McSerializer) -> (r: Result<(), SerializingErr>) {
        let _ = self.hide_tooltip.mc_serialize(serializer);
        let _ = self.hidden_components.mc_serialize(serializer);
        assert(serializer.output@ == old(serializer).output@ + Self::spec_serialize(self.deep_view()));
        Ok(())
    }
}

impl McDeserialize for TooltipDisplayComponent {
    open spec fn spec_deserialize(s: Seq<u8>) -> ParseResult<Self::V> {
        TooltipDisplayComponentFields::spec_deserialize(s)
    }

    proof fn lemma_deserialize_len(s: Seq<u8>) {
        TooltipDisplayComponentFields::lemma_deserialize_len(s);
    }

    fn mc_deserialize(deserializer: &mut McDeserializer) -> (r: Result<TooltipDisplayComponent, SerializingErr>) {
        let (hide_tooltip, hidden_components) = TooltipDisplayComponentFields::mc_deserialize(deserializer)?;
        Ok(TooltipDisplayComponent { hide_tooltip, hidden_components })
    }
}

impl McRoundTrip for TooltipDisplayComponent {
    open spec fn spec_well_formed(v: Self::V) -> bool {
        TooltipDisplayComponentFields::spec_well_formed(v)
    }

    proof fn lemma_round_trip(v: Self::V, rest: Seq<u8>) {
        TooltipDisplayComponentFields::lemma_round_trip(v, rest);
    }
}

/// The fields of [`SuspiciousStewEntry`] as they are sent, in order.
pub type SuspiciousStewEntryFields = (VarInt, VarInt);

/// An effect of a suspicious stew and how long it lasts.
#[derive(Debug, Clone, PartialEq)]
pub struct SuspiciousStewEntry {
    pub type_id: VarInt,
    pub duration: VarInt,
}

impl DeepView for SuspiciousStewEntry {
    type V = <SuspiciousStewEntryFields as DeepView>::V;

    open spec fn deep_view(&self) -> Self::V {
        (self.type_id.deep_view(), self.duration.deep_view())
    }
}

impl McSerialize for SuspiciousStewEntry {
    open spec fn spec_serialize(v: Self::V) -> Seq<u8> {
        SuspiciousStewEntryFields::spec_serialize(v)
    }

    open spec fn spec_can_serialize(v: Self::V) -> bool {
        SuspiciousStewEntryFields::spec_can_serialize(v)
    }

    fn mc_serialize(&self, serializer: &mut McSerializer) -> (r: Result<(), SerializingErr>) {
        let _ = self.type_id.mc_serialize(serializer);
        let _ = self.duration.mc_serialize(serializer);
        assert(serializer.output@ == old(serializer).output@ + Self::spec_serialize(self.deep_view()));
        Ok(())
    }
}

impl McDeserialize for SuspiciousStewEntry {
    open spec fn spec_deserialize(s: Seq<u8>) -> ParseResult<Self::V> {
        SuspiciousStewEntryFields::spec_deserialize(s)
    }

    proof fn lemma_deserialize_len(s: Seq<u8>) {
        SuspiciousStewEntryFields::lemma_deserialize_len(s);
    }

    fn mc_deserialize(deserializer: &mut McDeserializer) -> (r: Result<SuspiciousStewEntry, SerializingErr>) {
        let (type_id, duration) = SuspiciousStewEntryFields::mc_deserialize(deserializer)?;
        Ok(SuspiciousStewEntry { type_id, duration })
    }
}

impl McRoundTrip for SuspiciousStewEntry {
    open spec fn spec_well_formed(v: Self::V) -> bool {
        SuspiciousStewEntryFields::spec_well_formed(v)
    }

    proof fn lemma_round_trip(v: Self::V, rest: Seq<u8>) {
        SuspiciousStewEntryFields::lemma_round_trip(v, rest);
    }
}

/// The fields of [`SuspiciousStewList`] as they are sent, in order.
pub type SuspiciousStewListFields = PrefixedArray<SuspiciousStewEntry>;

/// The effects of a suspicious stew.
#[derive(Debug, Clone, PartialEq)]
pub struct SuspiciousStewList {
    pub entries: PrefixedArray<SuspiciousStewEntry>,
}

impl DeepView for SuspiciousStewList {
    type V = <SuspiciousStewListFields as DeepView>::V;

    open spec fn deep_view(&self) -> Self::V {
        self.entries.deep_view()
    }
}

impl McSerialize for SuspiciousStewList {
    open spec fn spec_serialize(v: Self::V) -> Seq<u8> {
        SuspiciousStewListFields::spec_serialize(v)
    }

    open spec fn spec_can_serialize(v: Self::V) -> bool {
        SuspiciousStewListFields::spec_can_serialize(v)
    }

    fn mc_serialize(&self, serializer: &mut McSerializer) -> (r: Result<(), SerializingErr>) {
        let _ = self.entries.mc_serialize(serializer);
        Ok(())
    }
}

impl McDeserialize for SuspiciousStewList {
    open spec fn spec_deserialize(s: Seq<u8>) -> ParseResult<Self::V> {
        SuspiciousStewListFields::spec_deserialize(s)
    }

    proof fn lemma_deserialize_len(s: Seq<u8>) {
        SuspiciousStewListFields::lemma_deserialize_len(s);
    }

    fn mc_deserialize(deserializer: &mut McDeserializer) -> (r: Result<SuspiciousStewList, SerializingErr>) {
        let entries = SuspiciousStewListFields::mc_deserialize(deserializer)?;
        Ok(SuspiciousStewList { entries })
    }
}

impl McRoundTrip for SuspiciousStewList {
    open spec fn spec_well_formed(v: Self::V) -> bool {
        SuspiciousStewListFields::spec_well_formed(v)
    }

    proof fn lemma_round_trip(v: Self::V, rest: Seq<u8>) {
        SuspiciousStewListFields::lemma_round_trip(v, rest);
    }
}

/// The fields of [`WritableBookPage`] as they are sent, in order.
pub type WritableBookPageFields = (String, PrefixedOptional<String>);

/// A page of a book being written, with its filtered text if there is one.
#[derive(Debug, Clone, PartialEq)]
pub struct WritableBookPage {
    pub raw: String,
    pub filtered: PrefixedOptional<String>,
}

impl DeepView for WritableBookPage {
    type V = <WritableBookPageFields as DeepView>::V;

    open spec fn deep_view(&self) -> Self::V {
        (self.raw.deep_view(), self.filtered.deep_view())
    }
}

impl McSerialize for WritableBookPage {
    open spec fn spec_serialize(v: Self::V) -> Seq<u8> {
        WritableBookPageFields::spec_serialize(v)
    }

    open spec fn spec_can_serialize(v: Self::V) -> bool {
        WritableBookPageFields::spec_can_serialize(v)
    }

    fn mc_serialize(&self, serializer: &mut McSerializer) -> (r: Result<(), SerializingErr>) {
        let _ = self.raw.mc_serialize(serializer);
        let _ = self.filtered.mc_serialize(serializer);
        assert(serializer.output@ == old(serializer).output@ + Self::spec_serialize(self.deep_view()));
        Ok(())
    }
}

impl McDeserialize for WritableBookPage {
    open spec fn spec_deserialize(s: Seq<u8>) -> ParseResult<Self::V> {
        WritableBookPageFields::spec_deserialize(s)
    }

    proof fn lemma_deserialize_len(s: Seq<u8>) {
        WritableBookPageFields::lemma_deserialize_len(s);
    }

    fn mc_deserialize(deserializer: &mut McDeserializer) -> (r: Result<WritableBookPage, SerializingErr>) {
        let (raw, filtered) = WritableBookPageFields::mc_deserialize(deserializer)?;
        Ok(WritableBookPage { raw, filtered })
    }
}

impl McRoundTrip for WritableBookPage {
    open spec fn spec_well_formed(v: Self::V) -> bool {
        WritableBookPageFields::spec_well_formed(v)
    }

    proof fn lemma_round_trip(v: Self::V, rest: Seq<u8>) {
        WritableBookPageFields::lemma_round_trip(v, rest);
    }
}

/// The fields of [`WritableBookComponent`] as they are sent, in order.
pub type WritableBookComponentFields = PrefixedArray<WritableBookPage>;

/// The pages of a book being written.
#[derive(Debug, Clone, PartialEq)]
pub struct WritableBookComponent {
    pub pages: PrefixedArray<WritableBookPage>,
}

impl DeepView for WritableBookComponent {
    type V = <WritableBookComponentFields as DeepView>::V;

    open spec fn deep_view(&self) -> Self::V {
        self.pages.deep_view()
    }
}

impl McSerialize for WritableBookComponent {
    open spec fn spec_serialize(v: Self::V) -> Seq<u8> {
        WritableBookComponentFields::spec_serialize(v)
    }

    open spec fn spec_can_serialize(v: Self::V) -> bool {
        WritableBookComponentFields::spec_can_serialize(v)
    }

    fn mc_serialize(&self, serializer: &mut McSerializer) -> (r: Result<(), SerializingErr>) {
        let _ = self.pages.mc_serialize(serializer);
        Ok(())
    }
}

impl McDeserialize for WritableBookComponent {
    open spec fn spec_deserialize(s: Seq<u8>) -> ParseResult<Self::V> {
        WritableBookComponentFields::spec_deserialize(s)
    }

    proof fn lemma_deserialize_len(s: Seq<u8>) {
        WritableBookComponentFields::lemma_deserialize_len(s);
    }

    fn mc_deserialize(deserializer: &mut McDeserializer) -> (r: Result<WritableBookComponent, SerializingErr>) {
        let pages = WritableBookComponentFields::mc_deserialize(deserializer)?;
        Ok(WritableBookComponent { pages })
    }
}

impl McRoundTrip for WritableBookComponent {
    open spec fn spec_well_formed(v: Self::V) -> bool {
        WritableBookComponentFields::spec_well_formed(v)
    }

    proof fn lemma_round_trip(v: Self::V, rest: Seq<u8>) {
        WritableBookComponentFields::lemma_round_trip(v, rest);
    }
}

/// The fields of [`EntityDataComponent`] as they are sent, in order.
pub type EntityDataComponentFields = (VarInt, NbtCompound);

/// The entity an item places, and its data.
#[derive(Debug, PartialEq)]
pub struct EntityDataComponent {
    pub entity_type: VarInt,
    pub data: NbtCompound,
}

impl DeepView for EntityDataComponent {
    type V = <EntityDataComponentFields as DeepView>::V;

    open spec fn deep_view(&self) -> Self::V {
        (self.entity_type.deep_view(), self.data.deep_view())
    }
}

impl McSerialize for EntityDataComponent {
    open spec fn spec_serialize(v: Self::V) -> Seq<u8> {
        EntityDataComponentFields::spec_serialize(v)
    }

    open spec fn spec_can_serialize(v: Self::V) -> bool {
        EntityDataComponentFields::spec_can_serialize(v)
    }

    fn mc_serialize(&self, serializer: &mut McSerializer) -> (r: Result<(), SerializingErr>) {
        let _ = self.entity_type.mc_serialize(serializer);
        let _ = self.data.mc_serialize(serializer);
        assert(serializer.output@ == old(serializer).output@ + Self::spec_serialize(self.deep_view()));
        Ok(())
    }
}

impl McDeserialize for EntityDataComponent {
    open spec fn spec_deserialize(s: Seq<u8>) -> ParseResult<Self::V> {
        EntityDataComponentFields::spec_deserialize(s)
    }

    proof fn lemma_deserialize_len(s: Seq<u8>) {
        EntityDataComponentFields::lemma_deserialize_len(s);
    }

    fn mc_deserialize(deserializer: &mut McDeserializer) -> (r: Result<EntityDataComponent, SerializingErr>) {
        let (entity_type, data) = EntityDataComponentFields::mc_deserialize(deserializer)?;
        Ok(EntityDataComponent { entity_type, data })
    }
}

impl McRoundTrip for EntityDataComponent {
    open spec fn spec_well_formed(v: Self::V) -> bool {
        EntityDataComponentFields::spec_well_formed(v)
    }

    proof fn lemma_round_trip(v: Self::V, rest: Seq<u8>) {
        EntityDataComponentFields::lemma_round_trip(v, rest);
    }
}

/// The fields of [`BlockEntityDataComponent`] as they are sent, in order.
pub type BlockEntityDataComponentFields = (VarInt, NbtCompound);

/// The block entity an item places, and its data.
#[derive(Debug, PartialEq)]
pub struct BlockEntityDataComponent {
    pub block_entity_type: VarInt,
    pub data: NbtCompound,
}

impl DeepView for BlockEntityDataComponent {
    type V = <BlockEntityDataComponentFields as DeepView>::V;

    open spec fn deep_view(&self) -> Self::V {
        (self.block_entity_type.deep_view(), self.data.deep_view())
    }
}

impl McSerialize for BlockEntityDataComponent {
    open spec fn spec_serialize(v: Self::V) -> Seq<u8> {
        BlockEntityDataComponentFields::spec_serialize(v)
    }

    open spec fn spec_can_serialize(v: Self::V) -> bool {
        BlockEntityDataComponentFields::spec_can_serialize(v)
    }

    fn mc_serialize(&self, serializer: &mut McSerializer) -> (r: Result<(), SerializingErr>) {
        let _ = self.block_entity_type.mc_serialize(serializer);
        let _ = self.data.mc_serialize(serializer);
        assert(serializer.output@ == old(serializer).output@ + Self::spec_serialize(self.deep_view()));
        Ok(())
    }
}

impl McDeserialize for BlockEntityDataComponent {
    open spec fn spec_deserialize(s: Seq<u8>) -> ParseResult<Self::V> {
        BlockEntityDataComponentFields::spec_deserialize(s)
    }

    proof fn lemma_deserialize_len(s: Seq<u8>) {
        BlockEntityDataComponentFields::lemma_deserialize_len(s);
    }

    fn mc_deserialize(deserializer: &mut McDeserializer) -> (r: Result<BlockEntityDataComponent, SerializingErr>) {
        let (block_entity_type, data) = BlockEntityDataComponentFields::mc_deserialize(deserializer)?;
        Ok(BlockEntityDataComponent { block_entity_type, data })
    }
}

impl McRoundTrip for BlockEntityDataComponent {
    open spec fn spec_well_formed(v: Self::V) -> bool {
        BlockEntityDataComponentFields::spec_well_formed(v)
    }

    proof fn lemma_round_trip(v: Self::V, rest: Seq<u8>) {
        BlockEntityDataComponentFields::lemma_round_trip(v, rest);
    }
}

/// The fields of [`FireworksComponent`] as they are sent, in order.
pub type FireworksComponentFields = (VarInt, PrefixedArray<FireworkExplosion>);

/// A firework rocket: how long it flies and the explosions it makes.
#[derive(Debug, Clone, PartialEq)]
pub struct FireworksComponent {
    pub flight_duration: VarInt,
    pub explosions: PrefixedArray<FireworkExplosion>,
}

impl DeepView for FireworksComponent {
    type V = <FireworksComponentFields as DeepView>::V;

    open spec fn deep_view(&self) -> Self::V {
        (self.flight_duration.deep_view(), self.explosions.deep_view())
    }
}

impl McSerialize for FireworksComponent {
    open spec fn spec_serialize(v: Self::V) -> Seq<u8> {
        FireworksComponentFields::spec_serialize(v)
    }

    open spec fn spec_can_serialize(v: Self::V) -> bool {
        FireworksComponentFields::spec_can_serialize(v)
    }

    fn mc_serialize(&self, serializer: &mut McSerializer) -> (r: Result<(), SerializingErr>) {
        let _ = self.flight_duration.mc_serialize(serializer);
        let _ = self.explosions.mc_serialize(serializer);
        assert(serializer.output@ == old(serializer).output@ + Self::spec_serialize(self.deep_view()));
        Ok(())
    }
}

impl McDeserialize for FireworksComponent {
    open spec fn spec_deserialize(s: Seq<u8>) -> ParseResult<Self::V> {
        FireworksComponentFields::spec_deserialize(s)
    }

    proof fn lemma_deserialize_len(s: Seq<u8>) {
        FireworksComponentFields::lemma_deserialize_len(s);
    }

    fn mc_deserialize(deserializer: &mut McDeserializer) -> (r: Result<FireworksComponent, SerializingErr>) {
        let (flight_duration, explosions) = FireworksComponentFields::mc_deserialize(deserializer)?;
        Ok(FireworksComponent { flight_duration, explosions })
    }
}

impl McRoundTrip for FireworksComponent {
    open spec fn spec_well_formed(v: Self::V) -> bool {
        FireworksComponentFields::spec_well_formed(v)
    }

    proof fn lemma_round_trip(v: Self::V, rest: Seq<u8>) {
        FireworksComponentFields::lemma_round_trip(v, rest);
    }
}

/// The fields of [`BannerLayer`] as they are sent, in order.
pub type BannerLayerFields = (IdOrBannerPattern, DyeColor);

/// A layer of a banner: a pattern and its color.
#[derive(Debug, Clone, PartialEq)]
pub struct BannerLayer {
    pub pattern: IdOrBannerPattern,
    pub color: DyeColor,
}

impl DeepView for BannerLayer {
    type V = <BannerLayerFields as DeepView>::V;

    open spec fn deep_view(&self) -> Self::V {
        (self.pattern.deep_view(), self.color.deep_view())
    }
}

impl McSerialize for BannerLayer {
    open spec fn spec_serialize(v: Self::V) -> Seq<u8> {
        BannerLayerFields::spec_serialize(v)
    }

    open spec fn spec_can_serialize(v: Self::V) -> bool {
        BannerLayerFields::spec_can_serialize(v)
    }

    fn mc_serialize(&self, serializer: &mut McSerializer) -> (r: Result<(), SerializingErr>) {
        let _ = self.pattern.mc_serialize(serializer);
        let _ = self.color.mc_serialize(serializer);
        assert(serializer.output@ == old(serializer).output@ + Self::spec_serialize(self.deep_view()));
        Ok(())
    }
}

impl McDeserialize for BannerLayer {
    open spec fn spec_deserialize(s: Seq<u8>) -> ParseResult<Self::V> {
        BannerLayerFields::spec_deserialize(s)
    }

    proof fn lemma_deserialize_len(s: Seq<u8>) {
        BannerLayerFields::lemma_deserialize_len(s);
    }

    fn mc_deserialize(deserializer: &mut McDeserializer) -> (r: Result<BannerLayer, SerializingErr>) {
        let (pattern, color) = BannerLayerFields::mc_deserialize(deserializer)?;
        Ok(BannerLayer { pattern, color })
    }
}

impl McRoundTrip for BannerLayer {
    open spec fn spec_well_formed(v: Self::V) -> bool {
        BannerLayerFields::spec_well_formed(v)
    }

    proof fn lemma_round_trip(v: Self::V, rest: Seq<u8>) {
        BannerLayerFields::lemma_round_trip(v, rest);
    }
}

/// The fields of [`BannerPatternsComponent`] as they are sent, in order.
pub type BannerPatternsComponentFields = PrefixedArray<BannerLayer>;

/// The layers of a banner, bottom first.
#[derive(Debug, Clone, PartialEq)]
pub struct BannerPatternsComponent {
    pub layers: PrefixedArray<BannerLayer>,
}

impl DeepView for BannerPatternsComponent {
    type V = <BannerPatternsComponentFields as DeepView>::V;

    open spec fn deep_view(&self) -> Self::V {
        self.layers.deep_view()
    }
}

impl McSerialize for BannerPatternsComponent {
    open spec fn spec_serialize(v: Self::V) -> Seq<u8> {
        BannerPatternsComponentFields::spec_serialize(v)
    }

    open spec fn spec_can_serialize(v: Self::V) -> bool {
        BannerPatternsComponentFields::spec_can_serialize(v)
    }

    fn mc_serialize(&self, serializer: &mut McSerializer) -> (r: Result<(), SerializingErr>) {
        let _ = self.layers.mc_serialize(serializer);
        Ok(())
    }
}

impl McDeserialize for BannerPatternsComponent {
    open spec fn spec_deserialize(s: Seq<u8>) -> ParseResult<Self::V> {
        BannerPatternsComponentFields::spec_deserialize(s)
    }

    proof fn lemma_deserialize_len(s: Seq<u8>) {
        BannerPatternsComponentFields::lemma_deserialize_len(s);
    }

    fn mc_deserialize(deserializer: &mut McDeserializer) -> (r: Result<BannerPatternsComponent, SerializingErr>) {
        let layers = BannerPatternsComponentFields::mc_deserialize(deserializer)?;
        Ok(BannerPatternsComponent { layers })
    }
}

impl McRoundTrip for BannerPatternsComponent {
    open spec fn spec_well_formed(v: Self::V) -> bool {
        BannerPatternsComponentFields::spec_well_formed(v)
    }

    proof fn lemma_round_trip(v: Self::V, rest: Seq<u8>) {
        BannerPatternsComponentFields::lemma_round_trip(v, rest);
    }
}

/// The fields of [`BlockStateProperty`] as they are sent, in order.
pub type BlockStatePropertyFields = (String, String);

/// A block state property and its value.
#[derive(Debug, Clone, PartialEq)]
pub struct BlockStateProperty {
    pub name: String,
    pub value: String,
}

impl DeepView for BlockStateProperty {
    type V = <BlockStatePropertyFields as DeepView>::V;

    open spec fn deep_view(&self) -> Self::V {
        (self.name.deep_view(), self.value.deep_view())
    }
}

impl McSerialize for BlockStateProperty {
    open spec fn spec_serialize(v: Self::V) -> Seq<u8> {
        BlockStatePropertyFields::spec_serialize(v)
    }

    open spec fn spec_can_serialize(v: Self::V) -> bool {
        BlockStatePropertyFields::spec_can_serialize(v)
    }

    fn mc_serialize(&self, serializer: &mut McSerializer) -> (r: Result<(), SerializingErr>) {
        let _ = self.name.mc_serialize(serializer);
        let _ = self.value.mc_serialize(serializer);
        assert(serializer.output@ == old(serializer).output@ + Self::spec_serialize(self.deep_view()));
        Ok(())
    }
}

impl McDeserialize for BlockStateProperty {
    open spec fn spec_deserialize(s: Seq<u8>) -> ParseResult<Self::V> {
        BlockStatePropertyFields::spec_deserialize(s)
    }

    proof fn lemma_deserialize_len(s: Seq<u8>) {
        BlockStatePropertyFields::lemma_deserialize_len(s);
    }

    fn mc_deserialize(deserializer: &mut McDeserializer) -> (r: Result<BlockStateProperty, SerializingErr>) {
        let (name, value) = BlockStatePropertyFields::mc_deserialize(deserializer)?;
        Ok(BlockStateProperty { name, value })
    }
}

impl McRoundTrip for BlockStateProperty {
    open spec fn spec_well_formed(v: Self::V) -> bool {
        BlockStatePropertyFields::spec_well_formed(v)
    }

    proof fn lemma_round_trip(v: Self::V, rest: Seq<u8>) {
        BlockStatePropertyFields::lemma_round_trip(v, rest);
    }
}

/// The fields of [`BlockStateComponent`] as they are sent, in order.
pub type BlockStateComponentFields = PrefixedArray<BlockStateProperty>;

/// The block state properties an item places its block with.
#[derive(Debug, Clone, PartialEq)]
pub struct BlockStateComponent {
    pub properties: PrefixedArray<BlockStateProperty>,
}

impl DeepView for BlockStateComponent {
    type V = <BlockStateComponentFields as DeepView>::V;

    open spec fn deep_view(&self) -> Self::V {
        self.properties.deep_view()
    }
}

impl McSerialize for BlockStateComponent {
    open spec fn spec_serialize(v: Self::V) -> Seq<u8> {
        BlockStateComponentFields::spec_serialize(v)
    }

    open spec fn spec_can_serialize(v: Self::V) -> bool {
        BlockStateComponentFields::spec_can_serialize(v)
    }

    fn mc_serialize(&self, serializer: &mut McSerializer) -> (r: Result<(), SerializingErr>) {
        let _ = self.properties.mc_serialize(serializer);
        Ok(())
    }
}

impl McDeserialize for BlockStateComponent {
    open spec fn spec_deserialize(s: Seq<u8>) -> ParseResult<Self::V> {
        BlockStateComponentFields::spec_deserialize(s)
    }

    proof fn lemma_deserialize_len(s: Seq<u8>) {
        BlockStateComponentFields::lemma_deserialize_len(s);
    }

    fn mc_deserialize(deserializer: &mut McDeserializer) -> (r: Result<BlockStateComponent, SerializingErr>) {
        let properties = BlockStateComponentFields::mc_deserialize(deserializer)?;
        Ok(BlockStateComponent { properties })
    }
}

impl McRoundTrip for BlockStateComponent {
    open spec fn spec_well_formed(v: Self::V) -> bool {
        BlockStateComponentFields::spec_well_formed(v)
    }

    proof fn lemma_round_trip(v: Self::V, rest: Seq<u8>) {
        BlockStateComponentFields::lemma_round_trip(v, rest);
    }
}

/// The fields of [`BeeData`] as they are sent, in order.
pub type BeeDataFields = (VarInt, (NbtCompound, (VarInt, VarInt)));

/// A bee in a hive: its entity, its data, and how long it has been and must stay inside.
#[derive(Debug, PartialEq)]
pub struct BeeData {
    pub entity_type: VarInt,
    pub data: NbtCompound,
    pub ticks_in_hive: VarInt,
    pub min_ticks_in_hive: VarInt,
}

impl DeepView for BeeData {
    type V = <BeeDataFields as DeepView>::V;

    open spec fn deep_view(&self) -> Self::V {
        (self.entity_type.deep_view(), (self.data.deep_view(), (self.ticks_in_hive.deep_view(), self.min_ticks_in_hive.deep_view())))
    }
}

impl McSerialize for BeeData {
    open spec fn spec_serialize(v: Self::V) -> Seq<u8> {
        BeeDataFields::spec_serialize(v)
    }

    open spec fn spec_can_serialize(v: Self::V) -> bool {
        BeeDataFields::spec_can_serialize(v)
    }

    fn mc_serialize(&self, serializer: &mut McSerializer) -> (r: Result<(), SerializingErr>) {
        let _ = self.entity_type.mc_serialize(serializer);
        let _ = self.data.mc_serialize(serializer);
        let _ = self.ticks_in_hive.mc_serialize(serializer);
        let _ = self.min_ticks_in_hive.mc_serialize(serializer);
        assert(serializer.output@ == old(serializer).output@ + Self::spec_serialize(self.deep_view()));
        Ok(())
    }
}

impl McDeserialize for BeeData {
    open spec fn spec_deserialize(s: Seq<u8>) -> ParseResult<Self::V> {
        BeeDataFields::spec_deserialize(s)
    }

    proof fn lemma_deserialize_len(s: Seq<u8>) {
        BeeDataFields::lemma_deserialize_len(s);
    }

    fn mc_deserialize(deserializer: &mut McDeserializer) -> (r: Result<BeeData, SerializingErr>) {
        let (entity_type, (data, (ticks_in_hive, min_ticks_in_hive))) = BeeDataFields::mc_deserialize(deserializer)?;
        Ok(BeeData { entity_type, data, ticks_in_hive, min_ticks_in_hive })
    }
}

impl McRoundTrip for BeeData {
    open spec fn spec_well_formed(v: Self::V) -> bool {
        BeeDataFields::spec_well_formed(v)
    }

    proof fn lemma_round_trip(v: Self::V, rest: Seq<u8>) {
        BeeDataFields::lemma_round_trip(v, rest);
    }
}

/// A lodestone compass: where it points, if anywhere, and whether it follows a lodestone.
#[derive(Debug, Clone, PartialEq)]
pub struct LodestoneTrackerComponent {
    pub has_global_pos: bool,
    pub dimension: Option<String>,
    pub position: Option<Position>,
    pub is_tracked: bool,
}

impl DeepView for LodestoneTrackerComponent {
    type V = (bool, (Option<Seq<char>>, (Option<Position>, bool)));

    open spec fn deep_view(&self) -> Self::V {
        (self.has_global_pos, (self.dimension.deep_view(), (self.position.deep_view(), self.is_tracked)))
    }
}

/// The bytes of the target of a lodestone compass: the dimension and position that are there,
/// when it says it has one, and nothing otherwise.
pub open spec fn spec_lodestone_target_bytes(v: <LodestoneTrackerComponent as DeepView>::V) -> Seq<u8> {
    if v.0 {
        spec_option_bytes::<String>(v.1.0) + spec_option_bytes::<Position>(v.1.1.0)
    } else {
        Seq::<u8>::empty()
    }
}

impl McSerialize for LodestoneTrackerComponent {
    /// The flag, the target when the flag is set, then whether it follows a lodestone.
    open spec fn spec_serialize(v: Self::V) -> Seq<u8> {
        bool::spec_serialize(v.0) + spec_lodestone_target_bytes(v) + bool::spec_serialize(v.1.1.1)
    }

    open spec fn spec_can_serialize(v: Self::V) -> bool {
        v.0 ==> (v.1.0 matches Some(d) ==> String::spec_can_serialize(d))
    }

    fn mc_serialize(&self, serializer: &mut McSerializer) -> (r: Result<(), SerializingErr>) {
        let ghost s0 = serializer.output@;
        let _ = self.has_global_pos.mc_serialize(serializer);
        let ghost s1 = serializer.output@;
        if self.has_global_pos {
            serialize_option(&self.dimension, serializer);
            serialize_option(&self.position, serializer);
        }
        assert(serializer.output@ == s1 + spec_lodestone_target_bytes(self.deep_view()));
        let _ = self.is_tracked.mc_serialize(serializer);
        Ok(())
    }
}

impl McDeserialize for LodestoneTrackerComponent {
    /// The flag; when it is set, a dimension and a position; then whether it follows a lodestone.
    open spec fn spec_deserialize(s: Seq<u8>) -> ParseResult<Self::V> {
        match bool::spec_deserialize(s) {
            Err(e) => Err(e),
            Ok((has, n1)) => if has {
                match <(String, Position)>::spec_deserialize(s.skip(n1 as int)) {
                    Err(e) => Err(e),
                    Ok(((d, p), n2)) => match bool::spec_deserialize(s.skip((n1 + n2) as int)) {
                        Err(e) => Err(e),
                        Ok((t, n3)) => Ok(((true, (Some(d), (Some(p), t))), n1 + n2 + n3)),
                    },
                }
            } else {
                match bool::spec_deserialize(s.skip(n1 as int)) {
                    Err(e) => Err(e),
                    Ok((t, n3)) => Ok(((false, (None::<Seq<char>>, (None::<Position>, t))), n1 + n3)),
                }
            },
        }
    }

    proof fn lemma_deserialize_len(s: Seq<u8>) {
        bool::lemma_deserialize_len(s);
        if let Ok((has, n1)) = bool::spec_deserialize(s) {
            if has {
                <(String, Position)>::lemma_deserialize_len(s.skip(n1 as int));
                if let Ok((dp, n2)) = <(String, Position)>::spec_deserialize(s.skip(n1 as int)) {
                    bool::lemma_deserialize_len(s.skip((n1 + n2) as int));
                }
            } else {
                bool::lemma_deserialize_len(s.skip(n1 as int));
            }
        }
    }

    fn mc_deserialize(deserializer: &mut McDeserializer) -> (r: Result<LodestoneTrackerComponent, SerializingErr>) {
        let ghost d0 = *deserializer;
        let has_global_pos = bool::mc_deserialize(deserializer)?;
        let ghost d1 = *deserializer;
        proof {
            bool::lemma_deserialize_len(d0.remaining());
            lemma_remaining_advance(d0, d1, (d1.index - d0.index) as nat);
        }
        let (dimension, position) = if has_global_pos {
            let (d, p) = <(String, Position)>::mc_deserialize(deserializer)?;
            proof {
                <(String, Position)>::lemma_deserialize_len(d1.remaining());
                lemma_remaining_advance(d1, *deserializer, (deserializer.index - d1.index) as nat);
                assert(d1.remaining().skip(deserializer.index - d1.index) == d0.remaining().skip(deserializer.index - d0.index));
            }
            (Some(d), Some(p))
        } else {
            (None, None)
        };
        let is_tracked = bool::mc_deserialize(deserializer)?;
        Ok(LodestoneTrackerComponent { has_global_pos, dimension, position, is_tracked })
    }
}

impl McRoundTrip for LodestoneTrackerComponent {
    /// The flag says whether there is a target, the dimension and the position come together,
    /// and the position fits its packed widths.
    open spec fn spec_well_formed(v: Self::V) -> bool {
        &&& v.0 == v.1.0 is Some
        &&& v.0 == v.1.1.0 is Some
        &&& v.1.1.0 matches Some(p) ==> Position::spec_well_formed(p)
    }

    proof fn lemma_round_trip(v: Self::V, rest: Seq<u8>) {
        let hb = bool::spec_serialize(v.0);
        let tb = spec_lodestone_target_bytes(v);
        let kb = bool::spec_serialize(v.1.1.1);
        let s = Self::spec_serialize(v) + rest;
        assert(s == hb + (tb + (kb + rest)));
        bool::lemma_round_trip(v.0, tb + (kb + rest));
        assert(s.skip(hb.len() as int) == tb + (kb + rest));
        if v.0 {
            let d = v.1.0.unwrap();
            let p = v.1.1.0.unwrap();
            assert(tb == <(String, Position)>::spec_serialize((d, p)));
            <(String, Position)>::lemma_round_trip((d, p), kb + rest);
            assert(s.skip((hb.len() + tb.len()) as int) == kb + rest);
        } else {
            assert(tb + (kb + rest) == kb + rest);
        }
        bool::lemma_round_trip(v.1.1.1, rest);
    }
}

/// The message for an unknown chicken variant mode, formatted by std's `format!`.
#[verifier::external_body]
fn chicken_variant_message(mode: u8) -> String {
    format!("Invalid ChickenVariant mode: {}", mode)
}

/// A chicken variant: by its name, or by its id in the registry.
#[derive(Debug, Clone, PartialEq)]
pub enum ChickenVariantComponent {
    ByName(String),
    Registry(VarInt),
}

/// The model of a chicken variant.
pub enum ChickenVariantModel {
    ByName(Seq<char>),
    Registry(VarInt),
}

impl DeepView for ChickenVariantComponent {
    type V = ChickenVariantModel;

    open spec fn deep_view(&self) -> ChickenVariantModel {
        match self {
            ChickenVariantComponent::ByName(n) => ChickenVariantModel::ByName(n@),
            ChickenVariantComponent::Registry(id) => ChickenVariantModel::Registry(*id),
        }
    }
}

impl McSerialize for ChickenVariantComponent {
    /// The mode byte, 0 for a name and 1 for an id, then the name or the id.
    open spec fn spec_serialize(v: ChickenVariantModel) -> Seq<u8> {
        match v {
            ChickenVariantModel::ByName(n) => u8::spec_serialize(0u8) + String::spec_serialize(n),
            ChickenVariantModel::Registry(id) => u8::spec_serialize(1u8) + VarInt::spec_serialize(id),
        }
    }

    open spec fn spec_can_serialize(v: ChickenVariantModel) -> bool {
        v matches ChickenVariantModel::ByName(n) ==> String::spec_can_serialize(n)
    }

    fn mc_serialize(&self, serializer: &mut McSerializer) -> (r: Result<(), SerializingErr>) {
        match self {
            ChickenVariantComponent::ByName(name) => {
                let _ = 0u8.mc_serialize(serializer);
                let _ = name.mc_serialize(serializer);
            },
            ChickenVariantComponent::Registry(id) => {
                let _ = 1u8.mc_serialize(serializer);
                let _ = id.mc_serialize(serializer);
            },
        }
        Ok(())
    }
}

impl McDeserialize for ChickenVariantComponent {
    /// The mode byte, then a name for 0 or an id for 1; any other mode is refused.
    open spec fn spec_deserialize(s: Seq<u8>) -> ParseResult<ChickenVariantModel> {
        match u8::spec_deserialize(s) {
            Err(e) => Err(e),
            Ok((mode, n)) => if mode == 0 {
                match String::spec_deserialize(s.skip(n as int)) {
                    Ok((x, m)) => Ok((ChickenVariantModel::ByName(x), n + m)),
                    Err(e) => Err(e),
                }
            } else if mode == 1 {
                match VarInt::spec_deserialize(s.skip(n as int)) {
                    Ok((x, m)) => Ok((ChickenVariantModel::Registry(x), n + m)),
                    Err(e) => Err(e),
                }
            } else {
                Err(ErrKind::DeserializationError)
            },
        }
    }

    proof fn lemma_deserialize_len(s: Seq<u8>) {
        u8::lemma_deserialize_len(s);
        if let Ok((mode, n)) = u8::spec_deserialize(s) {
            String::lemma_deserialize_len(s.skip(n as int));
            VarInt::lemma_deserialize_len(s.skip(n as int));
        }
    }

    fn mc_deserialize(deserializer: &mut McDeserializer) -> (r: Result<ChickenVariantComponent, SerializingErr>) {
        let ghost d0 = *deserializer;
        let mode = u8::mc_deserialize(deserializer)?;
        proof {
            u8::lemma_deserialize_len(d0.remaining());
            lemma_remaining_advance(d0, *deserializer, (deserializer.index - d0.index) as nat);
        }
        if mode == 0 {
            Ok(ChickenVariantComponent::ByName(String::mc_deserialize(deserializer)?))
        } else if mode == 1 {
            Ok(ChickenVariantComponent::Registry(VarInt::mc_deserialize(deserializer)?))
        } else {
            Err(SerializingErr::DeserializationError(chicken_variant_message(mode)))
        }
    }
}

impl McRoundTrip for ChickenVariantComponent {
    open spec fn spec_well_formed(v: ChickenVariantModel) -> bool {
        true
    }

    proof fn lemma_round_trip(v: ChickenVariantModel, rest: Seq<u8>) {
        let s = Self::spec_serialize(v) + rest;
        match v {
            ChickenVariantModel::ByName(n) => {
                let b = String::spec_serialize(n);
                assert(s == u8::spec_serialize(0u8) + (b + rest));
                u8::lemma_round_trip(0u8, b + rest);
                assert(s.skip(u8::spec_serialize(0u8).len() as int) == b + rest);
                String::lemma_round_trip(n, rest);
            },
            ChickenVariantModel::Registry(id) => {
                let b = VarInt::spec_serialize(id);
                assert(s == u8::spec_serialize(1u8) + (b + rest));
                u8::lemma_round_trip(1u8, b + rest);
                assert(s.skip(u8::spec_serialize(1u8).len() as int) == b + rest);
                VarInt::lemma_round_trip(id, rest);
            },
        }
    }
}

/// The fields of [`PotionContentsComponent`] as they are sent, in order.
pub type PotionContentsComponentFields = (PrefixedOptional<VarInt>, (PrefixedOptional<i32>, (PrefixedArray<PotionEffect>, String)));

/// The contents of a potion: its potion, a color of its own, effects of its own, and a name of its own.
#[derive(Debug, PartialEq)]
pub struct PotionContentsComponent {
    pub potion_id: PrefixedOptional<VarInt>,
    pub custom_color: PrefixedOptional<i32>,
    pub custom_effects: PrefixedArray<PotionEffect>,
    pub custom_name: String,
}

impl DeepView for PotionContentsComponent {
    type V = <PotionContentsComponentFields as DeepView>::V;

    open spec fn deep_view(&self) -> Self::V {
        (self.potion_id.deep_view(), (self.custom_color.deep_view(), (self.custom_effects.deep_view(), self.custom_name.deep_view())))
    }
}

impl McSerialize for PotionContentsComponent {
    open spec fn spec_serialize(v: Self::V) -> Seq<u8> {
        PotionContentsComponentFields::spec_serialize(v)
    }

    open spec fn spec_can_serialize(v: Self::V) -> bool {
        PotionContentsComponentFields::spec_can_serialize(v)
    }

    fn mc_serialize(&self, serializer: &mut McSerializer) -> (r: Result<(), SerializingErr>) {
        let _ = self.potion_id.mc_serialize(serializer);
        let _ = self.custom_color.mc_serialize(serializer);
        let _ = self.custom_effects.mc_serialize(serializer);
        let _ = self.custom_name.mc_serialize(serializer);
        assert(serializer.output@ == old(serializer).output@ + Self::spec_serialize(self.deep_view()));
        Ok(())
    }
}

impl McDeserialize for PotionContentsComponent {
    open spec fn spec_deserialize(s: Seq<u8>) -> ParseResult<Self::V> {
        PotionContentsComponentFields::spec_deserialize(s)
    }

    proof fn lemma_deserialize_len(s: Seq<u8>) {
        PotionContentsComponentFields::lemma_deserialize_len(s);
    }

    fn mc_deserialize(deserializer: &mut McDeserializer) -> (r: Result<PotionContentsComponent, SerializingErr>) {
        let (potion_id, (custom_color, (custom_effects, custom_name))) = PotionContentsComponentFields::mc_deserialize(deserializer)?;
        Ok(PotionContentsComponent { potion_id, custom_color, custom_effects, custom_name })
    }
}

impl McRoundTrip for PotionContentsComponent {
    open spec fn spec_well_formed(v: Self::V) -> bool {
        PotionContentsComponentFields::spec_well_formed(v)
    }

    proof fn lemma_round_trip(v: Self::V, rest: Seq<u8>) {
        PotionContentsComponentFields::lemma_round_trip(v, rest);
    }
}

} // verus!
