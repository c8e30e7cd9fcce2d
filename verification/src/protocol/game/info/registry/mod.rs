//! Registry data: the entries of registries such as dimension types and biomes, sent as NBT.
//!
//! https://minecraft.wiki/w/Java_Edition_protocol/Registry_data

pub mod registry_components;
pub mod registry_generator;

use crate::protocol::game::info::registry::registry_components::{
    dec_color, get_color, lemma_nbt_translate_color_nbt_round_trip, NbtTranslateColor,
};
use crate::protocol::serialization::serializer_types::{
    seq_can_serialize, seq_serialize, serialize_all, serialize_option, spec_option_bytes,
};
use crate::protocol::serialization::var_int::{read_varint, spec_varint_parse, VarInt};
use crate::protocol::serialization::{
    deserialized, lemma_remaining_advance, ErrKind, McDeserialize, McDeserializer, McRoundTrip, McSerialize, McSerializer, ParseResult,
    SerializingErr,
};
use crate::protocol_types::datatypes::nbt::{
    lemma_lookup_insert, spec_insert, spec_lookup, NbtCompound, NbtTag, NbtValue,
};
use crate::protocol_types::datatypes::nbt_fields::{
    dec_bool, dec_f32, dec_f64, dec_i32, dec_i64, dec_i8, dec_opt_i64, dec_opt_str, dec_str, get_bool,
    get_f32, get_f64, get_i32, get_i64, get_i8, get_opt_i64, get_opt_str, get_str,
};
use vstd::prelude::*;

verus! {

/// An entry of the `minecraft:banner_pattern` registry.
#[derive(Debug, Clone, PartialEq)]
pub struct BannerPattern {
    pub asset_id: String,
    pub translation_key: String,
}

impl DeepView for BannerPattern {
    type V = (Seq<char>, Seq<char>);

    open spec fn deep_view(&self) -> Self::V {
        (self.asset_id@, self.translation_key@)
    }
}

impl BannerPattern {
    /// The entries of the compound that stands for a value: one per field, in order, with absent
    /// optional fields left out.
    pub open spec fn spec_to_entries(v: <BannerPattern as DeepView>::V) -> Seq<(Seq<char>, NbtValue)> {
        let e0 = Seq::<(Seq<char>, NbtValue)>::empty();
        let e1 = spec_insert(e0, "asset_id"@, NbtValue::Str(v.0));
        let e2 = spec_insert(e1, "translation_key"@, NbtValue::Str(v.1));
        e2
    }

    /// The value that compound entries stand for, if every field is there with its type.
    pub open spec fn spec_from_entries(es: Seq<(Seq<char>, NbtValue)>) -> Option<<BannerPattern as DeepView>::V> {
        match dec_str(es, "asset_id"@) {
            Some(x0) =>
            match dec_str(es, "translation_key"@) {
                Some(x1) =>
                    Some((x0, x1)),
                None => None,
            },
            None => None,
        }
    }

    pub fn new(asset_id: String, translation_key: String) -> (r: Self)
        ensures
            r == (BannerPattern { asset_id, translation_key }),
    {
        BannerPattern { asset_id, translation_key }
    }

    /// The compound that stands for this value. Useful for serializing.
    pub fn to_nbt(&self) -> (c: NbtCompound)
        ensures
            c.deep_view() == (None::<Seq<char>>, Self::spec_to_entries(self.deep_view())),
    {
        let mut nbt = NbtCompound::new(None);
        nbt.add("asset_id".to_owned(), NbtTag::Str(self.asset_id.clone()));
        nbt.add("translation_key".to_owned(), NbtTag::Str(self.translation_key.clone()));
        nbt
    }

    /// The value a compound stands for. Useful for deserializing. A field that is missing,
    /// or is not of its type, is refused.
    pub fn from_nbt(nbt: &NbtCompound) -> (r: Result<Self, SerializingErr>)
        ensures
            match Self::spec_from_entries(nbt.deep_view().1) {
                Some(v) => r matches Ok(x) && x.deep_view() == v,
                None => r matches Err(e) && e.kind() == ErrKind::NbtMissingField,
            },
    {
        let name = "asset_id".to_owned();
        let asset_id = match get_str(nbt, &name) {
            Some(x) => x,
            None => return Err(SerializingErr::NbtMissingField(name)),
        };
        let name = "translation_key".to_owned();
        let translation_key = match get_str(nbt, &name) {
            Some(x) => x,
            None => return Err(SerializingErr::NbtMissingField(name)),
        };
        Ok(BannerPattern { asset_id, translation_key })
    }
}

/// A BannerPattern turned into a compound and back is the same value.
pub proof fn lemma_banner_pattern_nbt_round_trip(v: <BannerPattern as DeepView>::V)
    ensures
        BannerPattern::spec_from_entries(BannerPattern::spec_to_entries(v)) == Some(v),
{
    reveal_strlit("asset_id");
    reveal_strlit("translation_key");
    assert("asset_id"@.len() == 8);
    assert("translation_key"@.len() == 15);
    assert("asset_id"@ != "translation_key"@);
    let e0 = Seq::<(Seq<char>, NbtValue)>::empty();
    let e1 = spec_insert(e0, "asset_id"@, NbtValue::Str(v.0));
    let e2 = spec_insert(e1, "translation_key"@, NbtValue::Str(v.1));
    lemma_lookup_insert(e0, "asset_id"@, NbtValue::Str(v.0), "asset_id"@);
    lemma_lookup_insert(e1, "translation_key"@, NbtValue::Str(v.1), "asset_id"@);
    assert(dec_str(e2, "asset_id"@) == Some(v.0));
    lemma_lookup_insert(e0, "asset_id"@, NbtValue::Str(v.0), "translation_key"@);
    lemma_lookup_insert(e1, "translation_key"@, NbtValue::Str(v.1), "translation_key"@);
    assert(dec_str(e2, "translation_key"@) == Some(v.1));
    assert(e2 == BannerPattern::spec_to_entries(v));
}

impl McSerialize for BannerPattern {
    /// Sent as the compound that stands for it.
    open spec fn spec_serialize(v: Self::V) -> Seq<u8> {
        NbtCompound::spec_serialize((None::<Seq<char>>, Self::spec_to_entries(v)))
    }

    open spec fn spec_can_serialize(v: Self::V) -> bool {
        NbtCompound::spec_can_serialize((None::<Seq<char>>, Self::spec_to_entries(v)))
    }

    fn mc_serialize(&self, serializer: &mut McSerializer) -> (r: Result<(), SerializingErr>) {
        self.to_nbt().mc_serialize(serializer)
    }
}

impl McDeserialize for BannerPattern {
    open spec fn spec_deserialize(s: Seq<u8>) -> ParseResult<Self::V> {
        match NbtCompound::spec_deserialize(s) {
            Ok((c, n)) => match Self::spec_from_entries(c.1) {
                Some(v) => Ok((v, n)),
                None => Err(ErrKind::NbtMissingField),
            },
            Err(e) => Err(e),
        }
    }

    proof fn lemma_deserialize_len(s: Seq<u8>) {
        NbtCompound::lemma_deserialize_len(s);
    }

    fn mc_deserialize(deserializer: &mut McDeserializer) -> (r: Result<BannerPattern, SerializingErr>) {
        let nbt = NbtCompound::mc_deserialize(deserializer)?;
        Self::from_nbt(&nbt)
    }
}

impl McRoundTrip for BannerPattern {
    open spec fn spec_well_formed(v: Self::V) -> bool {
        true
    }

    proof fn lemma_round_trip(v: Self::V, rest: Seq<u8>) {
        NbtCompound::lemma_round_trip((None::<Seq<char>>, Self::spec_to_entries(v)), rest);
        lemma_banner_pattern_nbt_round_trip(v);
    }
}

/// An entry of the `minecraft:cat_variant` registry.
#[derive(Debug, Clone, PartialEq)]
pub struct CatVariant {
    pub asset_id: String,
}

impl DeepView for CatVariant {
    type V = Seq<char>;

    open spec fn deep_view(&self) -> Self::V {
        self.asset_id@
    }
}

impl CatVariant {
    /// The entries of the compound that stands for a value: one per field, in order, with absent
    /// optional fields left out.
    pub open spec fn spec_to_entries(v: <CatVariant as DeepView>::V) -> Seq<(Seq<char>, NbtValue)> {
        let e0 = Seq::<(Seq<char>, NbtValue)>::empty();
        let e1 = spec_insert(e0, "asset_id"@, NbtValue::Str(v));
        e1
    }

    /// The value that compound entries stand for, if every field is there with its type.
    pub open spec fn spec_from_entries(es: Seq<(Seq<char>, NbtValue)>) -> Option<<CatVariant as DeepView>::V> {
        match dec_str(es, "asset_id"@) {
            Some(x0) =>
                Some(x0),
            None => None,
        }
    }

    pub fn new(asset_id: String) -> (r: Self)
        ensures
            r == (CatVariant { asset_id }),
    {
        CatVariant { asset_id }
    }

    /// The compound that stands for this value. Useful for serializing.
    pub fn to_nbt(&self) -> (c: NbtCompound)
        ensures
            c.deep_view() == (None::<Seq<char>>, Self::spec_to_entries(self.deep_view())),
    {
        let mut nbt = NbtCompound::new(None);
        nbt.add("asset_id".to_owned(), NbtTag::Str(self.asset_id.clone()));
        nbt
    }

    /// The value a compound stands for. Useful for deserializing. A field that is missing,
    /// or is not of its type, is refused.
    pub fn from_nbt(nbt: &NbtCompound) -> (r: Result<Self, SerializingErr>)
        ensures
            match Self::spec_from_entries(nbt.deep_view().1) {
                Some(v) => r matches Ok(x) && x.deep_view() == v,
                None => r matches Err(e) && e.kind() == ErrKind::NbtMissingField,
            },
    {
        let name = "asset_id".to_owned();
        let asset_id = match get_str(nbt, &name) {
            Some(x) => x,
            None => return Err(SerializingErr::NbtMissingField(name)),
        };
        Ok(CatVariant { asset_id })
    }
}

/// A CatVariant turned into a compound and back is the same value.
pub proof fn lemma_cat_variant_nbt_round_trip(v: <CatVariant as DeepView>::V)
    ensures
        CatVariant::spec_from_entries(CatVariant::spec_to_entries(v)) == Some(v),
{
    reveal_strlit("asset_id");
    assert("asset_id"@.len() == 8);
    let e0 = Seq::<(Seq<char>, NbtValue)>::empty();
    let e1 = spec_insert(e0, "asset_id"@, NbtValue::Str(v));
    lemma_lookup_insert(e0, "asset_id"@, NbtValue::Str(v), "asset_id"@);
    assert(dec_str(e1, "asset_id"@) == Some(v));
    assert(e1 == CatVariant::spec_to_entries(v));
}

impl McSerialize for CatVariant {
    /// Sent as the compound that stands for it.
    open spec fn spec_serialize(v: Self::V) -> Seq<u8> {
        NbtCompound::spec_serialize((None::<Seq<char>>, Self::spec_to_entries(v)))
    }

    open spec fn spec_can_serialize(v: Self::V) -> bool {
        NbtCompound::spec_can_serialize((None::<Seq<char>>, Self::spec_to_entries(v)))
    }

    fn mc_serialize(&self, serializer: &mut McSerializer) -> (r: Result<(), SerializingErr>) {
        self.to_nbt().mc_serialize(serializer)
    }
}

impl McDeserialize for CatVariant {
    open spec fn spec_deserialize(s: Seq<u8>) -> ParseResult<Self::V> {
        match NbtCompound::spec_deserialize(s) {
            Ok((c, n)) => match Self::spec_from_entries(c.1) {
                Some(v) => Ok((v, n)),
                None => Err(ErrKind::NbtMissingField),
            },
            Err(e) => Err(e),
        }
    }

    proof fn lemma_deserialize_len(s: Seq<u8>) {
        NbtCompound::lemma_deserialize_len(s);
    }

    fn mc_deserialize(deserializer: &mut McDeserializer) -> (r: Result<CatVariant, SerializingErr>) {
        let nbt = NbtCompound::mc_deserialize(deserializer)?;
        Self::from_nbt(&nbt)
    }
}

impl McRoundTrip for CatVariant {
    open spec fn spec_well_formed(v: Self::V) -> bool {
        true
    }

    proof fn lemma_round_trip(v: Self::V, rest: Seq<u8>) {
        NbtCompound::lemma_round_trip((None::<Seq<char>>, Self::spec_to_entries(v)), rest);
        lemma_cat_variant_nbt_round_trip(v);
    }
}

/// An entry of the `minecraft:chicken_variant` registry.
#[derive(Debug, Clone, PartialEq)]
pub struct ChickenVariant {
    pub asset_id: String,
    pub model: Option<String>,
}

impl DeepView for ChickenVariant {
    type V = (Seq<char>, Option<Seq<char>>);

    open spec fn deep_view(&self) -> Self::V {
        (self.asset_id@, self.model.deep_view())
    }
}

impl ChickenVariant {
    /// The entries of the compound that stands for a value: one per field, in order, with absent
    /// optional fields left out.
    pub open spec fn spec_to_entries(v: <ChickenVariant as DeepView>::V) -> Seq<(Seq<char>, NbtValue)> {
        let e0 = Seq::<(Seq<char>, NbtValue)>::empty();
        let e1 = spec_insert(e0, "asset_id"@, NbtValue::Str(v.0));
        let e2 = match v.1 { Some(x) => spec_insert(e1, "model"@, NbtValue::Str(x)), None => e1 };
        e2
    }

    /// The value that compound entries stand for, if every field is there with its type.
    pub open spec fn spec_from_entries(es: Seq<(Seq<char>, NbtValue)>) -> Option<<ChickenVariant as DeepView>::V> {
        match dec_str(es, "asset_id"@) {
            Some(x0) =>
            match dec_opt_str(es, "model"@) {
                Some(x1) =>
                    Some((x0, x1)),
                None => None,
            },
            None => None,
        }
    }

    pub fn new(asset_id: String, model: Option<String>) -> (r: Self)
        ensures
            r == (ChickenVariant { asset_id, model }),
    {
        ChickenVariant { asset_id, model }
    }

    /// The compound that stands for this value. Useful for serializing.
    pub fn to_nbt(&self) -> (c: NbtCompound)
        ensures
            c.deep_view() == (None::<Seq<char>>, Self::spec_to_entries(self.deep_view())),
    {
        let mut nbt = NbtCompound::new(None);
        nbt.add("asset_id".to_owned(), NbtTag::Str(self.asset_id.clone()));
        if let Some(x) = &self.model {
            nbt.add("model".to_owned(), NbtTag::Str(x.clone()));
        }
        nbt
    }

    /// The value a compound stands for. Useful for deserializing. A field that is missing,
    /// or is not of its type, is refused.
    pub fn from_nbt(nbt: &NbtCompound) -> (r: Result<Self, SerializingErr>)
        ensures
            match Self::spec_from_entries(nbt.deep_view().1) {
                Some(v) => r matches Ok(x) && x.deep_view() == v,
                None => r matches Err(e) && e.kind() == ErrKind::NbtMissingField,
            },
    {
        let name = "asset_id".to_owned();
        let asset_id = match get_str(nbt, &name) {
            Some(x) => x,
            None => return Err(SerializingErr::NbtMissingField(name)),
        };
        let name = "model".to_owned();
        let model = match get_opt_str(nbt, &name) {
            Some(x) => x,
            None => return Err(SerializingErr::NbtMissingField(name)),
        };
        Ok(ChickenVariant { asset_id, model })
    }
}

/// A ChickenVariant turned into a compound and back is the same value.
pub proof fn lemma_chicken_variant_nbt_round_trip(v: <ChickenVariant as DeepView>::V)
    ensures
        ChickenVariant::spec_from_entries(ChickenVariant::spec_to_entries(v)) == Some(v),
{
    reveal_strlit("asset_id");
    reveal_strlit("model");
    assert("asset_id"@.len() == 8);
    assert("model"@.len() == 5);
    assert("asset_id"@ != "model"@);
    let e0 = Seq::<(Seq<char>, NbtValue)>::empty();
    let e1 = spec_insert(e0, "asset_id"@, NbtValue::Str(v.0));
    let e2 = match v.1 { Some(x) => spec_insert(e1, "model"@, NbtValue::Str(x)), None => e1 };
    lemma_lookup_insert(e0, "asset_id"@, NbtValue::Str(v.0), "asset_id"@);
    if let Some(x) = v.1 { lemma_lookup_insert(e1, "model"@, NbtValue::Str(x), "asset_id"@); }
    assert(dec_str(e2, "asset_id"@) == Some(v.0));
    lemma_lookup_insert(e0, "asset_id"@, NbtValue::Str(v.0), "model"@);
    if let Some(x) = v.1 { lemma_lookup_insert(e1, "model"@, NbtValue::Str(x), "model"@); }
    assert(spec_lookup(e0, "model"@) is None);
    assert(dec_opt_str(e2, "model"@) == Some(v.1));
    assert(e2 == ChickenVariant::spec_to_entries(v));
}

impl McSerialize for ChickenVariant {
    /// Sent as the compound that stands for it.
    open spec fn spec_serialize(v: Self::V) -> Seq<u8> {
        NbtCompound::spec_serialize((None::<Seq<char>>, Self::spec_to_entries(v)))
    }

    open spec fn spec_can_serialize(v: Self::V) -> bool {
        NbtCompound::spec_can_serialize((None::<Seq<char>>, Self::spec_to_entries(v)))
    }

    fn mc_serialize(&self, serializer: &mut McSerializer) -> (r: Result<(), SerializingErr>) {
        self.to_nbt().mc_serialize(serializer)
    }
}

impl McDeserialize for ChickenVariant {
    open spec fn spec_deserialize(s: Seq<u8>) -> ParseResult<Self::V> {
        match NbtCompound::spec_deserialize(s) {
            Ok((c, n)) => match Self::spec_from_entries(c.1) {
                Some(v) => Ok((v, n)),
                None => Err(ErrKind::NbtMissingField),
            },
            Err(e) => Err(e),
        }
    }

    proof fn lemma_deserialize_len(s: Seq<u8>) {
        NbtCompound::lemma_deserialize_len(s);
    }

    fn mc_deserialize(deserializer: &mut McDeserializer) -> (r: Result<ChickenVariant, SerializingErr>) {
        let nbt = NbtCompound::mc_deserialize(deserializer)?;
        Self::from_nbt(&nbt)
    }
}

impl McRoundTrip for ChickenVariant {
    open spec fn spec_well_formed(v: Self::V) -> bool {
        true
    }

    proof fn lemma_round_trip(v: Self::V, rest: Seq<u8>) {
        NbtCompound::lemma_round_trip((None::<Seq<char>>, Self::spec_to_entries(v)), rest);
        lemma_chicken_variant_nbt_round_trip(v);
    }
}

/// An entry of the `minecraft:cow_variant` registry.
#[derive(Debug, Clone, PartialEq)]
pub struct CowVariant {
    pub asset_id: String,
    pub model: Option<String>,
}

impl DeepView for CowVariant {
    type V = (Seq<char>, Option<Seq<char>>);

    open spec fn deep_view(&self) -> Self::V {
        (self.asset_id@, self.model.deep_view())
    }
}

impl CowVariant {
    /// The entries of the compound that stands for a value: one per field, in order, with absent
    /// optional fields left out.
    pub open spec fn spec_to_entries(v: <CowVariant as DeepView>::V) -> Seq<(Seq<char>, NbtValue)> {
        let e0 = Seq::<(Seq<char>, NbtValue)>::empty();
        let e1 = spec_insert(e0, "asset_id"@, NbtValue::Str(v.0));
        let e2 = match v.1 { Some(x) => spec_insert(e1, "model"@, NbtValue::Str(x)), None => e1 };
        e2
    }

    /// The value that compound entries stand for, if every field is there with its type.
    pub open spec fn spec_from_entries(es: Seq<(Seq<char>, NbtValue)>) -> Option<<CowVariant as DeepView>::V> {
        match dec_str(es, "asset_id"@) {
            Some(x0) =>
            match dec_opt_str(es, "model"@) {
                Some(x1) =>
                    Some((x0, x1)),
                None => None,
            },
            None => None,
        }
    }

    pub fn new(asset_id: String, model: Option<String>) -> (r: Self)
        ensures
            r == (CowVariant { asset_id, model }),
    {
        CowVariant { asset_id, model }
    }

    /// The compound that stands for this value. Useful for serializing.
    pub fn to_nbt(&self) -> (c: NbtCompound)
        ensures
            c.deep_view() == (None::<Seq<char>>, Self::spec_to_entries(self.deep_view())),
    {
        let mut nbt = NbtCompound::new(None);
        nbt.add("asset_id".to_owned(), NbtTag::Str(self.asset_id.clone()));
        if let Some(x) = &self.model {
            nbt.add("model".to_owned(), NbtTag::Str(x.clone()));
        }
        nbt
    }

    /// The value a compound stands for. Useful for deserializing. A field that is missing,
    /// or is not of its type, is refused.
    pub fn from_nbt(nbt: &NbtCompound) -> (r: Result<Self, SerializingErr>)
        ensures
            match Self::spec_from_entries(nbt.deep_view().1) {
                Some(v) => r matches Ok(x) && x.deep_view() == v,
                None => r matches Err(e) && e.kind() == ErrKind::NbtMissingField,
            },
    {
        let name = "asset_id".to_owned();
        let asset_id = match get_str(nbt, &name) {
            Some(x) => x,
            None => return Err(SerializingErr::NbtMissingField(name)),
        };
        let name = "model".to_owned();
        let model = match get_opt_str(nbt, &name) {
            Some(x) => x,
            None => return Err(SerializingErr::NbtMissingField(name)),
        };
        Ok(CowVariant { asset_id, model })
    }
}

/// A CowVariant turned into a compound and back is the same value.
pub proof fn lemma_cow_variant_nbt_round_trip(v: <CowVariant as DeepView>::V)
    ensures
        CowVariant::spec_from_entries(CowVariant::spec_to_entries(v)) == Some(v),
{
    reveal_strlit("asset_id");
    reveal_strlit("model");
    assert("asset_id"@.len() == 8);
    assert("model"@.len() == 5);
    assert("asset_id"@ != "model"@);
    let e0 = Seq::<(Seq<char>, NbtValue)>::empty();
    let e1 = spec_insert(e0, "asset_id"@, NbtValue::Str(v.0));
    let e2 = match v.1 { Some(x) => spec_insert(e1, "model"@, NbtValue::Str(x)), None => e1 };
    lemma_lookup_insert(e0, "asset_id"@, NbtValue::Str(v.0), "asset_id"@);
    if let Some(x) = v.1 { lemma_lookup_insert(e1, "model"@, NbtValue::Str(x), "asset_id"@); }
    assert(dec_str(e2, "asset_id"@) == Some(v.0));
    lemma_lookup_insert(e0, "asset_id"@, NbtValue::Str(v.0), "model"@);
    if let Some(x) = v.1 { lemma_lookup_insert(e1, "model"@, NbtValue::Str(x), "model"@); }
    assert(spec_lookup(e0, "model"@) is None);
    assert(dec_opt_str(e2, "model"@) == Some(v.1));
    assert(e2 == CowVariant::spec_to_entries(v));
}

impl McSerialize for CowVariant {
    /// Sent as the compound that stands for it.
    open spec fn spec_serialize(v: Self::V) -> Seq<u8> {
        NbtCompound::spec_serialize((None::<Seq<char>>, Self::spec_to_entries(v)))
    }

    open spec fn spec_can_serialize(v: Self::V) -> bool {
        NbtCompound::spec_can_serialize((None::<Seq<char>>, Self::spec_to_entries(v)))
    }

    fn mc_serialize(&self, serializer: &mut McSerializer) -> (r: Result<(), SerializingErr>) {
        self.to_nbt().mc_serialize(serializer)
    }
}

impl McDeserialize for CowVariant {
    open spec fn spec_deserialize(s: Seq<u8>) -> ParseResult<Self::V> {
        match NbtCompound::spec_deserialize(s) {
            Ok((c, n)) => match Self::spec_from_entries(c.1) {
                Some(v) => Ok((v, n)),
                None => Err(ErrKind::NbtMissingField),
            },
            Err(e) => Err(e),
        }
    }

    proof fn lemma_deserialize_len(s: Seq<u8>) {
        NbtCompound::lemma_deserialize_len(s);
    }

    fn mc_deserialize(deserializer: &mut McDeserializer) -> (r: Result<CowVariant, SerializingErr>) {
        let nbt = NbtCompound::mc_deserialize(deserializer)?;
        Self::from_nbt(&nbt)
    }
}

impl McRoundTrip for CowVariant {
    open spec fn spec_well_formed(v: Self::V) -> bool {
        true
    }

    proof fn lemma_round_trip(v: Self::V, rest: Seq<u8>) {
        NbtCompound::lemma_round_trip((None::<Seq<char>>, Self::spec_to_entries(v)), rest);
        lemma_cow_variant_nbt_round_trip(v);
    }
}

/// An entry of the `minecraft:dimension_type` registry. Floating-point fields hold the bits of their values.
#[derive(Debug, Clone, PartialEq)]
pub struct DimensionType {
    pub fixed_time: Option<i64>,
    pub has_skylight: i8,
    pub has_ceiling: i8,
    pub ultrawarm: i8,
    pub natural: i8,
    pub coordinate_scale: u64,
    pub bed_works: i8,
    pub respawn_anchor_works: i8,
    pub min_y: i32,
    pub height: i32,
    pub logical_height: i32,
    pub infiniburn: String,
    pub effects: String,
    pub ambient_light: u32,
    pub piglin_safe: i8,
    pub has_raids: i8,
    pub monster_spawn_light_level: i32,
    pub monster_spawn_block_light_limit: i32,
}

impl DeepView for DimensionType {
    type V = (Option<i64>, (i8, (i8, (i8, (i8, (u64, (i8, (i8, (i32, (i32, (i32, (Seq<char>, (Seq<char>, (u32, (i8, (i8, (i32, i32)))))))))))))))));

    open spec fn deep_view(&self) -> Self::V {
        (self.fixed_time, (self.has_skylight, (self.has_ceiling, (self.ultrawarm, (self.natural, (self.coordinate_scale, (self.bed_works, (self.respawn_anchor_works, (self.min_y, (self.height, (self.logical_height, (self.infiniburn@, (self.effects@, (self.ambient_light, (self.piglin_safe, (self.has_raids, (self.monster_spawn_light_level, self.monster_spawn_block_light_limit)))))))))))))))))
    }
}

impl DimensionType {
    /// The entries of the compound that stands for a value: one per field, in order, with absent
    /// optional fields left out.
    pub open spec fn spec_to_entries(v: <DimensionType as DeepView>::V) -> Seq<(Seq<char>, NbtValue)> {
        let e0 = Seq::<(Seq<char>, NbtValue)>::empty();
        let e1 = match v.0 { Some(x) => spec_insert(e0, "fixed_time"@, NbtValue::Long(x)), None => e0 };
        let e2 = spec_insert(e1, "has_skylight"@, NbtValue::Byte(v.1.0));
        let e3 = spec_insert(e2, "has_ceiling"@, NbtValue::Byte(v.1.1.0));
        let e4 = spec_insert(e3, "ultrawarm"@, NbtValue::Byte(v.1.1.1.0));
        let e5 = spec_insert(e4, "natural"@, NbtValue::Byte(v.1.1.1.1.0));
        let e6 = spec_insert(e5, "coordinate_scale"@, NbtValue::Double(v.1.1.1.1.1.0));
        let e7 = spec_insert(e6, "bed_works"@, NbtValue::Byte(v.1.1.1.1.1.1.0));
        let e8 = spec_insert(e7, "respawn_anchor_works"@, NbtValue::Byte(v.1.1.1.1.1.1.1.0));
        let e9 = spec_insert(e8, "min_y"@, NbtValue::Int(v.1.1.1.1.1.1.1.1.0));
        let e10 = spec_insert(e9, "height"@, NbtValue::Int(v.1.1.1.1.1.1.1.1.1.0));
        let e11 = spec_insert(e10, "logical_height"@, NbtValue::Int(v.1.1.1.1.1.1.1.1.1.1.0));
        let e12 = spec_insert(e11, "infiniburn"@, NbtValue::Str(v.1.1.1.1.1.1.1.1.1.1.1.0));
        let e13 = spec_insert(e12, "effects"@, NbtValue::Str(v.1.1.1.1.1.1.1.1.1.1.1.1.0));
        let e14 = spec_insert(e13, "ambient_light"@, NbtValue::Float(v.1.1.1.1.1.1.1.1.1.1.1.1.1.0));
        let e15 = spec_insert(e14, "piglin_safe"@, NbtValue::Byte(v.1.1.1.1.1.1.1.1.1.1.1.1.1.1.0));
        let e16 = spec_insert(e15, "has_raids"@, NbtValue::Byte(v.1.1.1.1.1.1.1.1.1.1.1.1.1.1.1.0));
        let e17 = spec_insert(e16, "monster_spawn_light_level"@, NbtValue::Int(v.1.1.1.1.1.1.1.1.1.1.1.1.1.1.1.1.0));
        let e18 = spec_insert(e17, "monster_spawn_block_light_limit"@, NbtValue::Int(v.1.1.1.1.1.1.1.1.1.1.1.1.1.1.1.1.1));
        e18
    }

    /// The value that compound entries stand for, if every field is there with its type.
    pub open spec fn spec_from_entries(es: Seq<(Seq<char>, NbtValue)>) -> Option<<DimensionType as DeepView>::V> {
        match dec_opt_i64(es, "fixed_time"@) {
            Some(x0) =>
            match dec_i8(es, "has_skylight"@) {
                Some(x1) =>
                match dec_i8(es, "has_ceiling"@) {
                    Some(x2) =>
                    match dec_i8(es, "ultrawarm"@) {
                        Some(x3) =>
                        match dec_i8(es, "natural"@) {
                            Some(x4) =>
                            match dec_f64(es, "coordinate_scale"@) {
                                Some(x5) =>
                                match dec_i8(es, "bed_works"@) {
                                    Some(x6) =>
                                    match dec_i8(es, "respawn_anchor_works"@) {
                                        Some(x7) =>
                                        match dec_i32(es, "min_y"@) {
                                            Some(x8) =>
                                            match dec_i32(es, "height"@) {
                                                Some(x9) =>
                                                match dec_i32(es, "logical_height"@) {
                                                    Some(x10) =>
                                                    match dec_str(es, "infiniburn"@) {
                                                        Some(x11) =>
                                                        match dec_str(es, "effects"@) {
                                                            Some(x12) =>
                                                            match dec_f32(es, "ambient_light"@) {
                                                                Some(x13) =>
                                                                match dec_i8(es, "piglin_safe"@) {
                                                                    Some(x14) =>
                                                                    match dec_i8(es, "has_raids"@) {
                                                                        Some(x15) =>
                                                                        match dec_i32(es, "monster_spawn_light_level"@) {
                                                                            Some(x16) =>
                                                                            match dec_i32(es, "monster_spawn_block_light_limit"@) {
                                                                                Some(x17) =>
                                                                                    Some((x0, (x1, (x2, (x3, (x4, (x5, (x6, (x7, (x8, (x9, (x10, (x11, (x12, (x13, (x14, (x15, (x16, x17)))))))))))))))))),
                                                                                None => None,
                                                                            },
                                                                            None => None,
                                                                        },
                                                                        None => None,
                                                                    },
                                                                    None => None,
                                                                },
                                                                None => None,
                                                            },
                                                            None => None,
                                                        },
                                                        None => None,
                                                    },
                                                    None => None,
                                                },
                                                None => None,
                                            },
                                            None => None,
                                        },
                                        None => None,
                                    },
                                    None => None,
                                },
                                None => None,
                            },
                            None => None,
                        },
                        None => None,
                    },
                    None => None,
                },
                None => None,
            },
            None => None,
        }
    }

    pub fn new(fixed_time: Option<i64>, has_skylight: i8, has_ceiling: i8, ultrawarm: i8, natural: i8, coordinate_scale: u64, bed_works: i8, respawn_anchor_works: i8, min_y: i32, height: i32, logical_height: i32, infiniburn: String, effects: String, ambient_light: u32, piglin_safe: i8, has_raids: i8, monster_spawn_light_level: i32, monster_spawn_block_light_limit: i32) -> (r: Self)
        ensures
            r == (DimensionType { fixed_time, has_skylight, has_ceiling, ultrawarm, natural, coordinate_scale, bed_works, respawn_anchor_works, min_y, height, logical_height, infiniburn, effects, ambient_light, piglin_safe, has_raids, monster_spawn_light_level, monster_spawn_block_light_limit }),
    {
        DimensionType { fixed_time, has_skylight, has_ceiling, ultrawarm, natural, coordinate_scale, bed_works, respawn_anchor_works, min_y, height, logical_height, infiniburn, effects, ambient_light, piglin_safe, has_raids, monster_spawn_light_level, monster_spawn_block_light_limit }
    }

    /// The compound that stands for this value. Useful for serializing.
    pub fn to_nbt(&self) -> (c: NbtCompound)
        ensures
            c.deep_view() == (None::<Seq<char>>, Self::spec_to_entries(self.deep_view())),
    {
        let mut nbt = NbtCompound::new(None);
        if let Some(x) = &self.fixed_time {
            nbt.add("fixed_time".to_owned(), NbtTag::Long(*x));
        }
        nbt.add("has_skylight".to_owned(), NbtTag::Byte(self.has_skylight));
        nbt.add("has_ceiling".to_owned(), NbtTag::Byte(self.has_ceiling));
        nbt.add("ultrawarm".to_owned(), NbtTag::Byte(self.ultrawarm));
        nbt.add("natural".to_owned(), NbtTag::Byte(self.natural));
        nbt.add("coordinate_scale".to_owned(), NbtTag::Double(self.coordinate_scale));
        nbt.add("bed_works".to_owned(), NbtTag::Byte(self.bed_works));
        nbt.add("respawn_anchor_works".to_owned(), NbtTag::Byte(self.respawn_anchor_works));
        nbt.add("min_y".to_owned(), NbtTag::Int(self.min_y));
        nbt.add("height".to_owned(), NbtTag::Int(self.height));
        nbt.add("logical_height".to_owned(), NbtTag::Int(self.logical_height));
        nbt.add("infiniburn".to_owned(), NbtTag::Str(self.infiniburn.clone()));
        nbt.add("effects".to_owned(), NbtTag::Str(self.effects.clone()));
        nbt.add("ambient_light".to_owned(), NbtTag::Float(self.ambient_light));
        nbt.add("piglin_safe".to_owned(), NbtTag::Byte(self.piglin_safe));
        nbt.add("has_raids".to_owned(), NbtTag::Byte(self.has_raids));
        nbt.add("monster_spawn_light_level".to_owned(), NbtTag::Int(self.monster_spawn_light_level));
        nbt.add("monster_spawn_block_light_limit".to_owned(), NbtTag::Int(self.monster_spawn_block_light_limit));
        nbt
    }

    /// The value a compound stands for. Useful for deserializing. A field that is missing,
    /// or is not of its type, is refused.
    pub fn from_nbt(nbt: &NbtCompound) -> (r: Result<Self, SerializingErr>)
        ensures
            match Self::spec_from_entries(nbt.deep_view().1) {
                Some(v) => r matches Ok(x) && x.deep_view() == v,
                None => r matches Err(e) && e.kind() == ErrKind::NbtMissingField,
            },
    {
        let name = "fixed_time".to_owned();
        let fixed_time = match get_opt_i64(nbt, &name) {
            Some(x) => x,
            None => return Err(SerializingErr::NbtMissingField(name)),
        };
        let name = "has_skylight".to_owned();
        let has_skylight = match get_i8(nbt, &name) {
            Some(x) => x,
            None => return Err(SerializingErr::NbtMissingField(name)),
        };
        let name = "has_ceiling".to_owned();
        let has_ceiling = match get_i8(nbt, &name) {
            Some(x) => x,
            None => return Err(SerializingErr::NbtMissingField(name)),
        };
        let name = "ultrawarm".to_owned();
        let ultrawarm = match get_i8(nbt, &name) {
            Some(x) => x,
            None => return Err(SerializingErr::NbtMissingField(name)),
        };
        let name = "natural".to_owned();
        let natural = match get_i8(nbt, &name) {
            Some(x) => x,
            None => return Err(SerializingErr::NbtMissingField(name)),
        };
        let name = "coordinate_scale".to_owned();
        let coordinate_scale = match get_f64(nbt, &name) {
            Some(x) => x,
            None => return Err(SerializingErr::NbtMissingField(name)),
        };
        let name = "bed_works".to_owned();
        let bed_works = match get_i8(nbt, &name) {
            Some(x) => x,
            None => return Err(SerializingErr::NbtMissingField(name)),
        };
        let name = "respawn_anchor_works".to_owned();
        let respawn_anchor_works = match get_i8(nbt, &name) {
            Some(x) => x,
            None => return Err(SerializingErr::NbtMissingField(name)),
        };
        let name = "min_y".to_owned();
        let min_y = match get_i32(nbt, &name) {
            Some(x) => x,
            None => return Err(SerializingErr::NbtMissingField(name)),
        };
        let name = "height".to_owned();
        let height = match get_i32(nbt, &name) {
            Some(x) => x,
            None => return Err(SerializingErr::NbtMissingField(name)),
        };
        let name = "logical_height".to_owned();
        let logical_height = match get_i32(nbt, &name) {
            Some(x) => x,
            None => return Err(SerializingErr::NbtMissingField(name)),
        };
        let name = "infiniburn".to_owned();
        let infiniburn = match get_str(nbt, &name) {
            Some(x) => x,
            None => return Err(SerializingErr::NbtMissingField(name)),
        };
        let name = "effects".to_owned();
        let effects = match get_str(nbt, &name) {
            Some(x) => x,
            None => return Err(SerializingErr::NbtMissingField(name)),
        };
        let name = "ambient_light".to_owned();
        let ambient_light = match get_f32(nbt, &name) {
            Some(x) => x,
            None => return Err(SerializingErr::NbtMissingField(name)),
        };
        let name = "piglin_safe".to_owned();
        let piglin_safe = match get_i8(nbt, &name) {
            Some(x) => x,
            None => return Err(SerializingErr::NbtMissingField(name)),
        };
        let name = "has_raids".to_owned();
        let has_raids = match get_i8(nbt, &name) {
            Some(x) => x,
            None => return Err(SerializingErr::NbtMissingField(name)),
        };
        let name = "monster_spawn_light_level".to_owned();
        let monster_spawn_light_level = match get_i32(nbt, &name) {
            Some(x) => x,
            None => return Err(SerializingErr::NbtMissingField(name)),
        };
        let name = "monster_spawn_block_light_limit".to_owned();
        let monster_spawn_block_light_limit = match get_i32(nbt, &name) {
            Some(x) => x,
            None => return Err(SerializingErr::NbtMissingField(name)),
        };
        Ok(DimensionType { fixed_time, has_skylight, has_ceiling, ultrawarm, natural, coordinate_scale, bed_works, respawn_anchor_works, min_y, height, logical_height, infiniburn, effects, ambient_light, piglin_safe, has_raids, monster_spawn_light_level, monster_spawn_block_light_limit })
    }
}

/// A DimensionType turned into a compound and back is the same value.
pub proof fn lemma_dimension_type_nbt_round_trip(v: <DimensionType as DeepView>::V)
    ensures
        DimensionType::spec_from_entries(DimensionType::spec_to_entries(v)) == Some(v),
{
    reveal_strlit("fixed_time");
    reveal_strlit("has_skylight");
    reveal_strlit("has_ceiling");
    reveal_strlit("ultrawarm");
    reveal_strlit("natural");
    reveal_strlit("coordinate_scale");
    reveal_strlit("bed_works");
    reveal_strlit("respawn_anchor_works");
    reveal_strlit("min_y");
    reveal_strlit("height");
    reveal_strlit("logical_height");
    reveal_strlit("infiniburn");
    reveal_strlit("effects");
    reveal_strlit("ambient_light");
    reveal_strlit("piglin_safe");
    reveal_strlit("has_raids");
    reveal_strlit("monster_spawn_light_level");
    reveal_strlit("monster_spawn_block_light_limit");
    assert("fixed_time"@.len() == 10);
    assert("has_skylight"@.len() == 12);
    assert("has_ceiling"@.len() == 11);
    assert("ultrawarm"@.len() == 9);
    assert("natural"@.len() == 7);
    assert("coordinate_scale"@.len() == 16);
    assert("bed_works"@.len() == 9);
    assert("respawn_anchor_works"@.len() == 20);
    assert("min_y"@.len() == 5);
    assert("height"@.len() == 6);
    assert("logical_height"@.len() == 14);
    assert("infiniburn"@.len() == 10);
    assert("effects"@.len() == 7);
    assert("ambient_light"@.len() == 13);
    assert("piglin_safe"@.len() == 11);
    assert("has_raids"@.len() == 9);
    assert("monster_spawn_light_level"@.len() == 25);
    assert("monster_spawn_block_light_limit"@.len() == 31);
    assert("fixed_time"@[0] != "infiniburn"@[0]);
    assert("has_ceiling"@[0] != "piglin_safe"@[0]);
    assert("ultrawarm"@[0] != "bed_works"@[0]);
    assert("ultrawarm"@[0] != "has_raids"@[0]);
    assert("natural"@[0] != "effects"@[0]);
    assert("bed_works"@[0] != "has_raids"@[0]);
    assert("fixed_time"@ != "has_skylight"@);
    assert("fixed_time"@ != "has_ceiling"@);
    assert("fixed_time"@ != "ultrawarm"@);
    assert("fixed_time"@ != "natural"@);
    assert("fixed_time"@ != "coordinate_scale"@);
    assert("fixed_time"@ != "bed_works"@);
    assert("fixed_time"@ != "respawn_anchor_works"@);
    assert("fixed_time"@ != "min_y"@);
    assert("fixed_time"@ != "height"@);
    assert("fixed_time"@ != "logical_height"@);
    assert("fixed_time"@ != "infiniburn"@);
    assert("fixed_time"@ != "effects"@);
    assert("fixed_time"@ != "ambient_light"@);
    assert("fixed_time"@ != "piglin_safe"@);
    assert("fixed_time"@ != "has_raids"@);
    assert("fixed_time"@ != "monster_spawn_light_level"@);
    assert("fixed_time"@ != "monster_spawn_block_light_limit"@);
    assert("has_skylight"@ != "has_ceiling"@);
    assert("has_skylight"@ != "ultrawarm"@);
    assert("has_skylight"@ != "natural"@);
    assert("has_skylight"@ != "coordinate_scale"@);
    assert("has_skylight"@ != "bed_works"@);
    assert("has_skylight"@ != "respawn_anchor_works"@);
    assert("has_skylight"@ != "min_y"@);
    assert("has_skylight"@ != "height"@);
    assert("has_skylight"@ != "logical_height"@);
    assert("has_skylight"@ != "infiniburn"@);
    assert("has_skylight"@ != "effects"@);
    assert("has_skylight"@ != "ambient_light"@);
    assert("has_skylight"@ != "piglin_safe"@);
    assert("has_skylight"@ != "has_raids"@);
    assert("has_skylight"@ != "monster_spawn_light_level"@);
    assert("has_skylight"@ != "monster_spawn_block_light_limit"@);
    assert("has_ceiling"@ != "ultrawarm"@);
    assert("has_ceiling"@ != "natural"@);
    assert("has_ceiling"@ != "coordinate_scale"@);
    assert("has_ceiling"@ != "bed_works"@);
    assert("has_ceiling"@ != "respawn_anchor_works"@);
    assert("has_ceiling"@ != "min_y"@);
    assert("has_ceiling"@ != "height"@);
    assert("has_ceiling"@ != "logical_height"@);
    assert("has_ceiling"@ != "infiniburn"@);
    assert("has_ceiling"@ != "effects"@);
    assert("has_ceiling"@ != "ambient_light"@);
    assert("has_ceiling"@ != "piglin_safe"@);
    assert("has_ceiling"@ != "has_raids"@);
    assert("has_ceiling"@ != "monster_spawn_light_level"@);
    assert("has_ceiling"@ != "monster_spawn_block_light_limit"@);
    assert("ultrawarm"@ != "natural"@);
    assert("ultrawarm"@ != "coordinate_scale"@);
    assert("ultrawarm"@ != "bed_works"@);
    assert("ultrawarm"@ != "respawn_anchor_works"@);
    assert("ultrawarm"@ != "min_y"@);
    assert("ultrawarm"@ != "height"@);
    assert("ultrawarm"@ != "logical_height"@);
    assert("ultrawarm"@ != "infiniburn"@);
    assert("ultrawarm"@ != "effects"@);
    assert("ultrawarm"@ != "ambient_light"@);
    assert("ultrawarm"@ != "piglin_safe"@);
    assert("ultrawarm"@ != "has_raids"@);
    assert("ultrawarm"@ != "monster_spawn_light_level"@);
    assert("ultrawarm"@ != "monster_spawn_block_light_limit"@);
    assert("natural"@ != "coordinate_scale"@);
    assert("natural"@ != "bed_works"@);
    assert("natural"@ != "respawn_anchor_works"@);
    assert("natural"@ != "min_y"@);
    assert("natural"@ != "height"@);
    assert("natural"@ != "logical_height"@);
    assert("natural"@ != "infiniburn"@);
    assert("natural"@ != "effects"@);
    assert("natural"@ != "ambient_light"@);
    assert("natural"@ != "piglin_safe"@);
    assert("natural"@ != "has_raids"@);
    assert("natural"@ != "monster_spawn_light_level"@);
    assert("natural"@ != "monster_spawn_block_light_limit"@);
    assert("coordinate_scale"@ != "bed_works"@);
    assert("coordinate_scale"@ != "respawn_anchor_works"@);
    assert("coordinate_scale"@ != "min_y"@);
    assert("coordinate_scale"@ != "height"@);
    assert("coordinate_scale"@ != "logical_height"@);
    assert("coordinate_scale"@ != "infiniburn"@);
    assert("coordinate_scale"@ != "effects"@);
    assert("coordinate_scale"@ != "ambient_light"@);
    assert("coordinate_scale"@ != "piglin_safe"@);
    assert("coordinate_scale"@ != "has_raids"@);
    assert("coordinate_scale"@ != "monster_spawn_light_level"@);
    assert("coordinate_scale"@ != "monster_spawn_block_light_limit"@);
    assert("bed_works"@ != "respawn_anchor_works"@);
    assert("bed_works"@ != "min_y"@);
    assert("bed_works"@ != "height"@);
    assert("bed_works"@ != "logical_height"@);
    assert("bed_works"@ != "infiniburn"@);
    assert("bed_works"@ != "effects"@);
    assert("bed_works"@ != "ambient_light"@);
    assert("bed_works"@ != "piglin_safe"@);
    assert("bed_works"@ != "has_raids"@);
    assert("bed_works"@ != "monster_spawn_light_level"@);
    assert("bed_works"@ != "monster_spawn_block_light_limit"@);
    assert("respawn_anchor_works"@ != "min_y"@);
    assert("respawn_anchor_works"@ != "height"@);
    assert("respawn_anchor_works"@ != "logical_height"@);
    assert("respawn_anchor_works"@ != "infiniburn"@);
    assert("respawn_anchor_works"@ != "effects"@);
    assert("respawn_anchor_works"@ != "ambient_light"@);
    assert("respawn_anchor_works"@ != "piglin_safe"@);
    assert("respawn_anchor_works"@ != "has_raids"@);
    assert("respawn_anchor_works"@ != "monster_spawn_light_level"@);
    assert("respawn_anchor_works"@ != "monster_spawn_block_light_limit"@);
    assert("min_y"@ != "height"@);
    assert("min_y"@ != "logical_height"@);
    assert("min_y"@ != "infiniburn"@);
    assert("min_y"@ != "effects"@);
    assert("min_y"@ != "ambient_light"@);
    assert("min_y"@ != "piglin_safe"@);
    assert("min_y"@ != "has_raids"@);
    assert("min_y"@ != "monster_spawn_light_level"@);
    assert("min_y"@ != "monster_spawn_block_light_limit"@);
    assert("height"@ != "logical_height"@);
    assert("height"@ != "infiniburn"@);
    assert("height"@ != "effects"@);
    assert("height"@ != "ambient_light"@);
    assert("height"@ != "piglin_safe"@);
    assert("height"@ != "has_raids"@);
    assert("height"@ != "monster_spawn_light_level"@);
    assert("height"@ != "monster_spawn_block_light_limit"@);
    assert("logical_height"@ != "infiniburn"@);
    assert("logical_height"@ != "effects"@);
    assert("logical_height"@ != "ambient_light"@);
    assert("logical_height"@ != "piglin_safe"@);
    assert("logical_height"@ != "has_raids"@);
    assert("logical_height"@ != "monster_spawn_light_level"@);
    assert("logical_height"@ != "monster_spawn_block_light_limit"@);
    assert("infiniburn"@ != "effects"@);
    assert("infiniburn"@ != "ambient_light"@);
    assert("infiniburn"@ != "piglin_safe"@);
    assert("infiniburn"@ != "has_raids"@);
    assert("infiniburn"@ != "monster_spawn_light_level"@);
    assert("infiniburn"@ != "monster_spawn_block_light_limit"@);
    assert("effects"@ != "ambient_light"@);
    assert("effects"@ != "piglin_safe"@);
    assert("effects"@ != "has_raids"@);
    assert("effects"@ != "monster_spawn_light_level"@);
    assert("effects"@ != "monster_spawn_block_light_limit"@);
    assert("ambient_light"@ != "piglin_safe"@);
    assert("ambient_light"@ != "has_raids"@);
    assert("ambient_light"@ != "monster_spawn_light_level"@);
    assert("ambient_light"@ != "monster_spawn_block_light_limit"@);
    assert("piglin_safe"@ != "has_raids"@);
    assert("piglin_safe"@ != "monster_spawn_light_level"@);
    assert("piglin_safe"@ != "monster_spawn_block_light_limit"@);
    assert("has_raids"@ != "monster_spawn_light_level"@);
    assert("has_raids"@ != "monster_spawn_block_light_limit"@);
    assert("monster_spawn_light_level"@ != "monster_spawn_block_light_limit"@);
    let e0 = Seq::<(Seq<char>, NbtValue)>::empty();
    let e1 = match v.0 { Some(x) => spec_insert(e0, "fixed_time"@, NbtValue::Long(x)), None => e0 };
    let e2 = spec_insert(e1, "has_skylight"@, NbtValue::Byte(v.1.0));
    let e3 = spec_insert(e2, "has_ceiling"@, NbtValue::Byte(v.1.1.0));
    let e4 = spec_insert(e3, "ultrawarm"@, NbtValue::Byte(v.1.1.1.0));
    let e5 = spec_insert(e4, "natural"@, NbtValue::Byte(v.1.1.1.1.0));
    let e6 = spec_insert(e5, "coordinate_scale"@, NbtValue::Double(v.1.1.1.1.1.0));
    let e7 = spec_insert(e6, "bed_works"@, NbtValue::Byte(v.1.1.1.1.1.1.0));
    let e8 = spec_insert(e7, "respawn_anchor_works"@, NbtValue::Byte(v.1.1.1.1.1.1.1.0));
    let e9 = spec_insert(e8, "min_y"@, NbtValue::Int(v.1.1.1.1.1.1.1.1.0));
    let e10 = spec_insert(e9, "height"@, NbtValue::Int(v.1.1.1.1.1.1.1.1.1.0));
    let e11 = spec_insert(e10, "logical_height"@, NbtValue::Int(v.1.1.1.1.1.1.1.1.1.1.0));
    let e12 = spec_insert(e11, "infiniburn"@, NbtValue::Str(v.1.1.1.1.1.1.1.1.1.1.1.0));
    let e13 = spec_insert(e12, "effects"@, NbtValue::Str(v.1.1.1.1.1.1.1.1.1.1.1.1.0));
    let e14 = spec_insert(e13, "ambient_light"@, NbtValue::Float(v.1.1.1.1.1.1.1.1.1.1.1.1.1.0));
    let e15 = spec_insert(e14, "piglin_safe"@, NbtValue::Byte(v.1.1.1.1.1.1.1.1.1.1.1.1.1.1.0));
    let e16 = spec_insert(e15, "has_raids"@, NbtValue::Byte(v.1.1.1.1.1.1.1.1.1.1.1.1.1.1.1.0));
    let e17 = spec_insert(e16, "monster_spawn_light_level"@, NbtValue::Int(v.1.1.1.1.1.1.1.1.1.1.1.1.1.1.1.1.0));
    let e18 = spec_insert(e17, "monster_spawn_block_light_limit"@, NbtValue::Int(v.1.1.1.1.1.1.1.1.1.1.1.1.1.1.1.1.1));
    if let Some(x) = v.0 { lemma_lookup_insert(e0, "fixed_time"@, NbtValue::Long(x), "fixed_time"@); }
    lemma_lookup_insert(e1, "has_skylight"@, NbtValue::Byte(v.1.0), "fixed_time"@);
    lemma_lookup_insert(e2, "has_ceiling"@, NbtValue::Byte(v.1.1.0), "fixed_time"@);
    lemma_lookup_insert(e3, "ultrawarm"@, NbtValue::Byte(v.1.1.1.0), "fixed_time"@);
    lemma_lookup_insert(e4, "natural"@, NbtValue::Byte(v.1.1.1.1.0), "fixed_time"@);
    lemma_lookup_insert(e5, "coordinate_scale"@, NbtValue::Double(v.1.1.1.1.1.0), "fixed_time"@);
    lemma_lookup_insert(e6, "bed_works"@, NbtValue::Byte(v.1.1.1.1.1.1.0), "fixed_time"@);
    lemma_lookup_insert(e7, "respawn_anchor_works"@, NbtValue::Byte(v.1.1.1.1.1.1.1.0), "fixed_time"@);
    lemma_lookup_insert(e8, "min_y"@, NbtValue::Int(v.1.1.1.1.1.1.1.1.0), "fixed_time"@);
    lemma_lookup_insert(e9, "height"@, NbtValue::Int(v.1.1.1.1.1.1.1.1.1.0), "fixed_time"@);
    lemma_lookup_insert(e10, "logical_height"@, NbtValue::Int(v.1.1.1.1.1.1.1.1.1.1.0), "fixed_time"@);
    lemma_lookup_insert(e11, "infiniburn"@, NbtValue::Str(v.1.1.1.1.1.1.1.1.1.1.1.0), "fixed_time"@);
    lemma_lookup_insert(e12, "effects"@, NbtValue::Str(v.1.1.1.1.1.1.1.1.1.1.1.1.0), "fixed_time"@);
    lemma_lookup_insert(e13, "ambient_light"@, NbtValue::Float(v.1.1.1.1.1.1.1.1.1.1.1.1.1.0), "fixed_time"@);
    lemma_lookup_insert(e14, "piglin_safe"@, NbtValue::Byte(v.1.1.1.1.1.1.1.1.1.1.1.1.1.1.0), "fixed_time"@);
    lemma_lookup_insert(e15, "has_raids"@, NbtValue::Byte(v.1.1.1.1.1.1.1.1.1.1.1.1.1.1.1.0), "fixed_time"@);
    lemma_lookup_insert(e16, "monster_spawn_light_level"@, NbtValue::Int(v.1.1.1.1.1.1.1.1.1.1.1.1.1.1.1.1.0), "fixed_time"@);
    lemma_lookup_insert(e17, "monster_spawn_block_light_limit"@, NbtValue::Int(v.1.1.1.1.1.1.1.1.1.1.1.1.1.1.1.1.1), "fixed_time"@);
    assert(spec_lookup(e0, "fixed_time"@) is None);
    assert(dec_opt_i64(e18, "fixed_time"@) == Some(v.0));
    if let Some(x) = v.0 { lemma_lookup_insert(e0, "fixed_time"@, NbtValue::Long(x), "has_skylight"@); }
    lemma_lookup_insert(e1, "has_skylight"@, NbtValue::Byte(v.1.0), "has_skylight"@);
    lemma_lookup_insert(e2, "has_ceiling"@, NbtValue::Byte(v.1.1.0), "has_skylight"@);
    lemma_lookup_insert(e3, "ultrawarm"@, NbtValue::Byte(v.1.1.1.0), "has_skylight"@);
    lemma_lookup_insert(e4, "natural"@, NbtValue::Byte(v.1.1.1.1.0), "has_skylight"@);
    lemma_lookup_insert(e5, "coordinate_scale"@, NbtValue::Double(v.1.1.1.1.1.0), "has_skylight"@);
    lemma_lookup_insert(e6, "bed_works"@, NbtValue::Byte(v.1.1.1.1.1.1.0), "has_skylight"@);
    lemma_lookup_insert(e7, "respawn_anchor_works"@, NbtValue::Byte(v.1.1.1.1.1.1.1.0), "has_skylight"@);
    lemma_lookup_insert(e8, "min_y"@, NbtValue::Int(v.1.1.1.1.1.1.1.1.0), "has_skylight"@);
    lemma_lookup_insert(e9, "height"@, NbtValue::Int(v.1.1.1.1.1.1.1.1.1.0), "has_skylight"@);
    lemma_lookup_insert(e10, "logical_height"@, NbtValue::Int(v.1.1.1.1.1.1.1.1.1.1.0), "has_skylight"@);
    lemma_lookup_insert(e11, "infiniburn"@, NbtValue::Str(v.1.1.1.1.1.1.1.1.1.1.1.0), "has_skylight"@);
    lemma_lookup_insert(e12, "effects"@, NbtValue::Str(v.1.1.1.1.1.1.1.1.1.1.1.1.0), "has_skylight"@);
    lemma_lookup_insert(e13, "ambient_light"@, NbtValue::Float(v.1.1.1.1.1.1.1.1.1.1.1.1.1.0), "has_skylight"@);
    lemma_lookup_insert(e14, "piglin_safe"@, NbtValue::Byte(v.1.1.1.1.1.1.1.1.1.1.1.1.1.1.0), "has_skylight"@);
    lemma_lookup_insert(e15, "has_raids"@, NbtValue::Byte(v.1.1.1.1.1.1.1.1.1.1.1.1.1.1.1.0), "has_skylight"@);
    lemma_lookup_insert(e16, "monster_spawn_light_level"@, NbtValue::Int(v.1.1.1.1.1.1.1.1.1.1.1.1.1.1.1.1.0), "has_skylight"@);
    lemma_lookup_insert(e17, "monster_spawn_block_light_limit"@, NbtValue::Int(v.1.1.1.1.1.1.1.1.1.1.1.1.1.1.1.1.1), "has_skylight"@);
    assert(dec_i8(e18, "has_skylight"@) == Some(v.1.0));
    if let Some(x) = v.0 { lemma_lookup_insert(e0, "fixed_time"@, NbtValue::Long(x), "has_ceiling"@); }
    lemma_lookup_insert(e1, "has_skylight"@, NbtValue::Byte(v.1.0), "has_ceiling"@);
    lemma_lookup_insert(e2, "has_ceiling"@, NbtValue::Byte(v.1.1.0), "has_ceiling"@);
    lemma_lookup_insert(e3, "ultrawarm"@, NbtValue::Byte(v.1.1.1.0), "has_ceiling"@);
    lemma_lookup_insert(e4, "natural"@, NbtValue::Byte(v.1.1.1.1.0), "has_ceiling"@);
    lemma_lookup_insert(e5, "coordinate_scale"@, NbtValue::Double(v.1.1.1.1.1.0), "has_ceiling"@);
    lemma_lookup_insert(e6, "bed_works"@, NbtValue::Byte(v.1.1.1.1.1.1.0), "has_ceiling"@);
    lemma_lookup_insert(e7, "respawn_anchor_works"@, NbtValue::Byte(v.1.1.1.1.1.1.1.0), "has_ceiling"@);
    lemma_lookup_insert(e8, "min_y"@, NbtValue::Int(v.1.1.1.1.1.1.1.1.0), "has_ceiling"@);
    lemma_lookup_insert(e9, "height"@, NbtValue::Int(v.1.1.1.1.1.1.1.1.1.0), "has_ceiling"@);
    lemma_lookup_insert(e10, "logical_height"@, NbtValue::Int(v.1.1.1.1.1.1.1.1.1.1.0), "has_ceiling"@);
    lemma_lookup_insert(e11, "infiniburn"@, NbtValue::Str(v.1.1.1.1.1.1.1.1.1.1.1.0), "has_ceiling"@);
    lemma_lookup_insert(e12, "effects"@, NbtValue::Str(v.1.1.1.1.1.1.1.1.1.1.1.1.0), "has_ceiling"@);
    lemma_lookup_insert(e13, "ambient_light"@, NbtValue::Float(v.1.1.1.1.1.1.1.1.1.1.1.1.1.0), "has_ceiling"@);
    lemma_lookup_insert(e14, "piglin_safe"@, NbtValue::Byte(v.1.1.1.1.1.1.1.1.1.1.1.1.1.1.0), "has_ceiling"@);
    lemma_lookup_insert(e15, "has_raids"@, NbtValue::Byte(v.1.1.1.1.1.1.1.1.1.1.1.1.1.1.1.0), "has_ceiling"@);
    lemma_lookup_insert(e16, "monster_spawn_light_level"@, NbtValue::Int(v.1.1.1.1.1.1.1.1.1.1.1.1.1.1.1.1.0), "has_ceiling"@);
    lemma_lookup_insert(e17, "monster_spawn_block_light_limit"@, NbtValue::Int(v.1.1.1.1.1.1.1.1.1.1.1.1.1.1.1.1.1), "has_ceiling"@);
    assert(dec_i8(e18, "has_ceiling"@) == Some(v.1.1.0));
    if let Some(x) = v.0 { lemma_lookup_insert(e0, "fixed_time"@, NbtValue::Long(x), "ultrawarm"@); }
    lemma_lookup_insert(e1, "has_skylight"@, NbtValue::Byte(v.1.0), "ultrawarm"@);
    lemma_lookup_insert(e2, "has_ceiling"@, NbtValue::Byte(v.1.1.0), "ultrawarm"@);
    lemma_lookup_insert(e3, "ultrawarm"@, NbtValue::Byte(v.1.1.1.0), "ultrawarm"@);
    lemma_lookup_insert(e4, "natural"@, NbtValue::Byte(v.1.1.1.1.0), "ultrawarm"@);
    lemma_lookup_insert(e5, "coordinate_scale"@, NbtValue::Double(v.1.1.1.1.1.0), "ultrawarm"@);
    lemma_lookup_insert(e6, "bed_works"@, NbtValue::Byte(v.1.1.1.1.1.1.0), "ultrawarm"@);
    lemma_lookup_insert(e7, "respawn_anchor_works"@, NbtValue::Byte(v.1.1.1.1.1.1.1.0), "ultrawarm"@);
    lemma_lookup_insert(e8, "min_y"@, NbtValue::Int(v.1.1.1.1.1.1.1.1.0), "ultrawarm"@);
    lemma_lookup_insert(e9, "height"@, NbtValue::Int(v.1.1.1.1.1.1.1.1.1.0), "ultrawarm"@);
    lemma_lookup_insert(e10, "logical_height"@, NbtValue::Int(v.1.1.1.1.1.1.1.1.1.1.0), "ultrawarm"@);
    lemma_lookup_insert(e11, "infiniburn"@, NbtValue::Str(v.1.1.1.1.1.1.1.1.1.1.1.0), "ultrawarm"@);
    lemma_lookup_insert(e12, "effects"@, NbtValue::Str(v.1.1.1.1.1.1.1.1.1.1.1.1.0), "ultrawarm"@);
    lemma_lookup_insert(e13, "ambient_light"@, NbtValue::Float(v.1.1.1.1.1.1.1.1.1.1.1.1.1.0), "ultrawarm"@);
    lemma_lookup_insert(e14, "piglin_safe"@, NbtValue::Byte(v.1.1.1.1.1.1.1.1.1.1.1.1.1.1.0), "ultrawarm"@);
    lemma_lookup_insert(e15, "has_raids"@, NbtValue::Byte(v.1.1.1.1.1.1.1.1.1.1.1.1.1.1.1.0), "ultrawarm"@);
    lemma_lookup_insert(e16, "monster_spawn_light_level"@, NbtValue::Int(v.1.1.1.1.1.1.1.1.1.1.1.1.1.1.1.1.0), "ultrawarm"@);
    lemma_lookup_insert(e17, "monster_spawn_block_light_limit"@, NbtValue::Int(v.1.1.1.1.1.1.1.1.1.1.1.1.1.1.1.1.1), "ultrawarm"@);
    assert(dec_i8(e18, "ultrawarm"@) == Some(v.1.1.1.0));
    if let Some(x) = v.0 { lemma_lookup_insert(e0, "fixed_time"@, NbtValue::Long(x), "natural"@); }
    lemma_lookup_insert(e1, "has_skylight"@, NbtValue::Byte(v.1.0), "natural"@);
    lemma_lookup_insert(e2, "has_ceiling"@, NbtValue::Byte(v.1.1.0), "natural"@);
    lemma_lookup_insert(e3, "ultrawarm"@, NbtValue::Byte(v.1.1.1.0), "natural"@);
    lemma_lookup_insert(e4, "natural"@, NbtValue::Byte(v.1.1.1.1.0), "natural"@);
    lemma_lookup_insert(e5, "coordinate_scale"@, NbtValue::Double(v.1.1.1.1.1.0), "natural"@);
    lemma_lookup_insert(e6, "bed_works"@, NbtValue::Byte(v.1.1.1.1.1.1.0), "natural"@);
    lemma_lookup_insert(e7, "respawn_anchor_works"@, NbtValue::Byte(v.1.1.1.1.1.1.1.0), "natural"@);
    lemma_lookup_insert(e8, "min_y"@, NbtValue::Int(v.1.1.1.1.1.1.1.1.0), "natural"@);
    lemma_lookup_insert(e9, "height"@, NbtValue::Int(v.1.1.1.1.1.1.1.1.1.0), "natural"@);
    lemma_lookup_insert(e10, "logical_height"@, NbtValue::Int(v.1.1.1.1.1.1.1.1.1.1.0), "natural"@);
    lemma_lookup_insert(e11, "infiniburn"@, NbtValue::Str(v.1.1.1.1.1.1.1.1.1.1.1.0), "natural"@);
    lemma_lookup_insert(e12, "effects"@, NbtValue::Str(v.1.1.1.1.1.1.1.1.1.1.1.1.0), "natural"@);
    lemma_lookup_insert(e13, "ambient_light"@, NbtValue::Float(v.1.1.1.1.1.1.1.1.1.1.1.1.1.0), "natural"@);
    lemma_lookup_insert(e14, "piglin_safe"@, NbtValue::Byte(v.1.1.1.1.1.1.1.1.1.1.1.1.1.1.0), "natural"@);
    lemma_lookup_insert(e15, "has_raids"@, NbtValue::Byte(v.1.1.1.1.1.1.1.1.1.1.1.1.1.1.1.0), "natural"@);
    lemma_lookup_insert(e16, "monster_spawn_light_level"@, NbtValue::Int(v.1.1.1.1.1.1.1.1.1.1.1.1.1.1.1.1.0), "natural"@);
    lemma_lookup_insert(e17, "monster_spawn_block_light_limit"@, NbtValue::Int(v.1.1.1.1.1.1.1.1.1.1.1.1.1.1.1.1.1), "natural"@);
    assert(dec_i8(e18, "natural"@) == Some(v.1.1.1.1.0));
    if let Some(x) = v.0 { lemma_lookup_insert(e0, "fixed_time"@, NbtValue::Long(x), "coordinate_scale"@); }
    lemma_lookup_insert(e1, "has_skylight"@, NbtValue::Byte(v.1.0), "coordinate_scale"@);
    lemma_lookup_insert(e2, "has_ceiling"@, NbtValue::Byte(v.1.1.0), "coordinate_scale"@);
    lemma_lookup_insert(e3, "ultrawarm"@, NbtValue::Byte(v.1.1.1.0), "coordinate_scale"@);
    lemma_lookup_insert(e4, "natural"@, NbtValue::Byte(v.1.1.1.1.0), "coordinate_scale"@);
    lemma_lookup_insert(e5, "coordinate_scale"@, NbtValue::Double(v.1.1.1.1.1.0), "coordinate_scale"@);
    lemma_lookup_insert(e6, "bed_works"@, NbtValue::Byte(v.1.1.1.1.1.1.0), "coordinate_scale"@);
    lemma_lookup_insert(e7, "respawn_anchor_works"@, NbtValue::Byte(v.1.1.1.1.1.1.1.0), "coordinate_scale"@);
    lemma_lookup_insert(e8, "min_y"@, NbtValue::Int(v.1.1.1.1.1.1.1.1.0), "coordinate_scale"@);
    lemma_lookup_insert(e9, "height"@, NbtValue::Int(v.1.1.1.1.1.1.1.1.1.0), "coordinate_scale"@);
    lemma_lookup_insert(e10, "logical_height"@, NbtValue::Int(v.1.1.1.1.1.1.1.1.1.1.0), "coordinate_scale"@);
    lemma_lookup_insert(e11, "infiniburn"@, NbtValue::Str(v.1.1.1.1.1.1.1.1.1.1.1.0), "coordinate_scale"@);
    lemma_lookup_insert(e12, "effects"@, NbtValue::Str(v.1.1.1.1.1.1.1.1.1.1.1.1.0), "coordinate_scale"@);
    lemma_lookup_insert(e13, "ambient_light"@, NbtValue::Float(v.1.1.1.1.1.1.1.1.1.1.1.1.1.0), "coordinate_scale"@);
    lemma_lookup_insert(e14, "piglin_safe"@, NbtValue::Byte(v.1.1.1.1.1.1.1.1.1.1.1.1.1.1.0), "coordinate_scale"@);
    lemma_lookup_insert(e15, "has_raids"@, NbtValue::Byte(v.1.1.1.1.1.1.1.1.1.1.1.1.1.1.1.0), "coordinate_scale"@);
    lemma_lookup_insert(e16, "monster_spawn_light_level"@, NbtValue::Int(v.1.1.1.1.1.1.1.1.1.1.1.1.1.1.1.1.0), "coordinate_scale"@);
    lemma_lookup_insert(e17, "monster_spawn_block_light_limit"@, NbtValue::Int(v.1.1.1.1.1.1.1.1.1.1.1.1.1.1.1.1.1), "coordinate_scale"@);
    assert(dec_f64(e18, "coordinate_scale"@) == Some(v.1.1.1.1.1.0));
    if let Some(x) = v.0 { lemma_lookup_insert(e0, "fixed_time"@, NbtValue::Long(x), "bed_works"@); }
    lemma_lookup_insert(e1, "has_skylight"@, NbtValue::Byte(v.1.0), "bed_works"@);
    lemma_lookup_insert(e2, "has_ceiling"@, NbtValue::Byte(v.1.1.0), "bed_works"@);
    lemma_lookup_insert(e3, "ultrawarm"@, NbtValue::Byte(v.1.1.1.0), "bed_works"@);
    lemma_lookup_insert(e4, "natural"@, NbtValue::Byte(v.1.1.1.1.0), "bed_works"@);
    lemma_lookup_insert(e5, "coordinate_scale"@, NbtValue::Double(v.1.1.1.1.1.0), "bed_works"@);
    lemma_lookup_insert(e6, "bed_works"@, NbtValue::Byte(v.1.1.1.1.1.1.0), "bed_works"@);
    lemma_lookup_insert(e7, "respawn_anchor_works"@, NbtValue::Byte(v.1.1.1.1.1.1.1.0), "bed_works"@);
    lemma_lookup_insert(e8, "min_y"@, NbtValue::Int(v.1.1.1.1.1.1.1.1.0), "bed_works"@);
    lemma_lookup_insert(e9, "height"@, NbtValue::Int(v.1.1.1.1.1.1.1.1.1.0), "bed_works"@);
    lemma_lookup_insert(e10, "logical_height"@, NbtValue::Int(v.1.1.1.1.1.1.1.1.1.1.0), "bed_works"@);
    lemma_lookup_insert(e11, "infiniburn"@, NbtValue::Str(v.1.1.1.1.1.1.1.1.1.1.1.0), "bed_works"@);
    lemma_lookup_insert(e12, "effects"@, NbtValue::Str(v.1.1.1.1.1.1.1.1.1.1.1.1.0), "bed_works"@);
    lemma_lookup_insert(e13, "ambient_light"@, NbtValue::Float(v.1.1.1.1.1.1.1.1.1.1.1.1.1.0), "bed_works"@);
    lemma_lookup_insert(e14, "piglin_safe"@, NbtValue::Byte(v.1.1.1.1.1.1.1.1.1.1.1.1.1.1.0), "bed_works"@);
    lemma_lookup_insert(e15, "has_raids"@, NbtValue::Byte(v.1.1.1.1.1.1.1.1.1.1.1.1.1.1.1.0), "bed_works"@);
    lemma_lookup_insert(e16, "monster_spawn_light_level"@, NbtValue::Int(v.1.1.1.1.1.1.1.1.1.1.1.1.1.1.1.1.0), "bed_works"@);
    lemma_lookup_insert(e17, "monster_spawn_block_light_limit"@, NbtValue::Int(v.1.1.1.1.1.1.1.1.1.1.1.1.1.1.1.1.1), "bed_works"@);
    assert(dec_i8(e18, "bed_works"@) == Some(v.1.1.1.1.1.1.0));
    if let Some(x) = v.0 { lemma_lookup_insert(e0, "fixed_time"@, NbtValue::Long(x), "respawn_anchor_works"@); }
    lemma_lookup_insert(e1, "has_skylight"@, NbtValue::Byte(v.1.0), "respawn_anchor_works"@);
    lemma_lookup_insert(e2, "has_ceiling"@, NbtValue::Byte(v.1.1.0), "respawn_anchor_works"@);
    lemma_lookup_insert(e3, "ultrawarm"@, NbtValue::Byte(v.1.1.1.0), "respawn_anchor_works"@);
    lemma_lookup_insert(e4, "natural"@, NbtValue::Byte(v.1.1.1.1.0), "respawn_anchor_works"@);
    lemma_lookup_insert(e5, "coordinate_scale"@, NbtValue::Double(v.1.1.1.1.1.0), "respawn_anchor_works"@);
    lemma_lookup_insert(e6, "bed_works"@, NbtValue::Byte(v.1.1.1.1.1.1.0), "respawn_anchor_works"@);
    lemma_lookup_insert(e7, "respawn_anchor_works"@, NbtValue::Byte(v.1.1.1.1.1.1.1.0), "respawn_anchor_works"@);
    lemma_lookup_insert(e8, "min_y"@, NbtValue::Int(v.1.1.1.1.1.1.1.1.0), "respawn_anchor_works"@);
    lemma_lookup_insert(e9, "height"@, NbtValue::Int(v.1.1.1.1.1.1.1.1.1.0), "respawn_anchor_works"@);
    lemma_lookup_insert(e10, "logical_height"@, NbtValue::Int(v.1.1.1.1.1.1.1.1.1.1.0), "respawn_anchor_works"@);
    lemma_lookup_insert(e11, "infiniburn"@, NbtValue::Str(v.1.1.1.1.1.1.1.1.1.1.1.0), "respawn_anchor_works"@);
    lemma_lookup_insert(e12, "effects"@, NbtValue::Str(v.1.1.1.1.1.1.1.1.1.1.1.1.0), "respawn_anchor_works"@);
    lemma_lookup_insert(e13, "ambient_light"@, NbtValue::Float(v.1.1.1.1.1.1.1.1.1.1.1.1.1.0), "respawn_anchor_works"@);
    lemma_lookup_insert(e14, "piglin_safe"@, NbtValue::Byte(v.1.1.1.1.1.1.1.1.1.1.1.1.1.1.0), "respawn_anchor_works"@);
    lemma_lookup_insert(e15, "has_raids"@, NbtValue::Byte(v.1.1.1.1.1.1.1.1.1.1.1.1.1.1.1.0), "respawn_anchor_works"@);
    lemma_lookup_insert(e16, "monster_spawn_light_level"@, NbtValue::Int(v.1.1.1.1.1.1.1.1.1.1.1.1.1.1.1.1.0), "respawn_anchor_works"@);
    lemma_lookup_insert(e17, "monster_spawn_block_light_limit"@, NbtValue::Int(v.1.1.1.1.1.1.1.1.1.1.1.1.1.1.1.1.1), "respawn_anchor_works"@);
    assert(dec_i8(e18, "respawn_anchor_works"@) == Some(v.1.1.1.1.1.1.1.0));
    if let Some(x) = v.0 { lemma_lookup_insert(e0, "fixed_time"@, NbtValue::Long(x), "min_y"@); }
    lemma_lookup_insert(e1, "has_skylight"@, NbtValue::Byte(v.1.0), "min_y"@);
    lemma_lookup_insert(e2, "has_ceiling"@, NbtValue::Byte(v.1.1.0), "min_y"@);
    lemma_lookup_insert(e3, "ultrawarm"@, NbtValue::Byte(v.1.1.1.0), "min_y"@);
    lemma_lookup_insert(e4, "natural"@, NbtValue::Byte(v.1.1.1.1.0), "min_y"@);
    lemma_lookup_insert(e5, "coordinate_scale"@, NbtValue::Double(v.1.1.1.1.1.0), "min_y"@);
    lemma_lookup_insert(e6, "bed_works"@, NbtValue::Byte(v.1.1.1.1.1.1.0), "min_y"@);
    lemma_lookup_insert(e7, "respawn_anchor_works"@, NbtValue::Byte(v.1.1.1.1.1.1.1.0), "min_y"@);
    lemma_lookup_insert(e8, "min_y"@, NbtValue::Int(v.1.1.1.1.1.1.1.1.0), "min_y"@);
    lemma_lookup_insert(e9, "height"@, NbtValue::Int(v.1.1.1.1.1.1.1.1.1.0), "min_y"@);
    lemma_lookup_insert(e10, "logical_height"@, NbtValue::Int(v.1.1.1.1.1.1.1.1.1.1.0), "min_y"@);
    lemma_lookup_insert(e11, "infiniburn"@, NbtValue::Str(v.1.1.1.1.1.1.1.1.1.1.1.0), "min_y"@);
    lemma_lookup_insert(e12, "effects"@, NbtValue::Str(v.1.1.1.1.1.1.1.1.1.1.1.1.0), "min_y"@);
    lemma_lookup_insert(e13, "ambient_light"@, NbtValue::Float(v.1.1.1.1.1.1.1.1.1.1.1.1.1.0), "min_y"@);
    lemma_lookup_insert(e14, "piglin_safe"@, NbtValue::Byte(v.1.1.1.1.1.1.1.1.1.1.1.1.1.1.0), "min_y"@);
    lemma_lookup_insert(e15, "has_raids"@, NbtValue::Byte(v.1.1.1.1.1.1.1.1.1.1.1.1.1.1.1.0), "min_y"@);
    lemma_lookup_insert(e16, "monster_spawn_light_level"@, NbtValue::Int(v.1.1.1.1.1.1.1.1.1.1.1.1.1.1.1.1.0), "min_y"@);
    lemma_lookup_insert(e17, "monster_spawn_block_light_limit"@, NbtValue::Int(v.1.1.1.1.1.1.1.1.1.1.1.1.1.1.1.1.1), "min_y"@);
    assert(dec_i32(e18, "min_y"@) == Some(v.1.1.1.1.1.1.1.1.0));
    if let Some(x) = v.0 { lemma_lookup_insert(e0, "fixed_time"@, NbtValue::Long(x), "height"@); }
    lemma_lookup_insert(e1, "has_skylight"@, NbtValue::Byte(v.1.0), "height"@);
    lemma_lookup_insert(e2, "has_ceiling"@, NbtValue::Byte(v.1.1.0), "height"@);
    lemma_lookup_insert(e3, "ultrawarm"@, NbtValue::Byte(v.1.1.1.0), "height"@);
    lemma_lookup_insert(e4, "natural"@, NbtValue::Byte(v.1.1.1.1.0), "height"@);
    lemma_lookup_insert(e5, "coordinate_scale"@, NbtValue::Double(v.1.1.1.1.1.0), "height"@);
    lemma_lookup_insert(e6, "bed_works"@, NbtValue::Byte(v.1.1.1.1.1.1.0), "height"@);
    lemma_lookup_insert(e7, "respawn_anchor_works"@, NbtValue::Byte(v.1.1.1.1.1.1.1.0), "height"@);
    lemma_lookup_insert(e8, "min_y"@, NbtValue::Int(v.1.1.1.1.1.1.1.1.0), "height"@);
    lemma_lookup_insert(e9, "height"@, NbtValue::Int(v.1.1.1.1.1.1.1.1.1.0), "height"@);
    lemma_lookup_insert(e10, "logical_height"@, NbtValue::Int(v.1.1.1.1.1.1.1.1.1.1.0), "height"@);
    lemma_lookup_insert(e11, "infiniburn"@, NbtValue::Str(v.1.1.1.1.1.1.1.1.1.1.1.0), "height"@);
    lemma_lookup_insert(e12, "effects"@, NbtValue::Str(v.1.1.1.1.1.1.1.1.1.1.1.1.0), "height"@);
    lemma_lookup_insert(e13, "ambient_light"@, NbtValue::Float(v.1.1.1.1.1.1.1.1.1.1.1.1.1.0), "height"@);
    lemma_lookup_insert(e14, "piglin_safe"@, NbtValue::Byte(v.1.1.1.1.1.1.1.1.1.1.1.1.1.1.0), "height"@);
    lemma_lookup_insert(e15, "has_raids"@, NbtValue::Byte(v.1.1.1.1.1.1.1.1.1.1.1.1.1.1.1.0), "height"@);
    lemma_lookup_insert(e16, "monster_spawn_light_level"@, NbtValue::Int(v.1.1.1.1.1.1.1.1.1.1.1.1.1.1.1.1.0), "height"@);
    lemma_lookup_insert(e17, "monster_spawn_block_light_limit"@, NbtValue::Int(v.1.1.1.1.1.1.1.1.1.1.1.1.1.1.1.1.1), "height"@);
    assert(dec_i32(e18, "height"@) == Some(v.1.1.1.1.1.1.1.1.1.0));
    if let Some(x) = v.0 { lemma_lookup_insert(e0, "fixed_time"@, NbtValue::Long(x), "logical_height"@); }
    lemma_lookup_insert(e1, "has_skylight"@, NbtValue::Byte(v.1.0), "logical_height"@);
    lemma_lookup_insert(e2, "has_ceiling"@, NbtValue::Byte(v.1.1.0), "logical_height"@);
    lemma_lookup_insert(e3, "ultrawarm"@, NbtValue::Byte(v.1.1.1.0), "logical_height"@);
    lemma_lookup_insert(e4, "natural"@, NbtValue::Byte(v.1.1.1.1.0), "logical_height"@);
    lemma_lookup_insert(e5, "coordinate_scale"@, NbtValue::Double(v.1.1.1.1.1.0), "logical_height"@);
    lemma_lookup_insert(e6, "bed_works"@, NbtValue::Byte(v.1.1.1.1.1.1.0), "logical_height"@);
    lemma_lookup_insert(e7, "respawn_anchor_works"@, NbtValue::Byte(v.1.1.1.1.1.1.1.0), "logical_height"@);
    lemma_lookup_insert(e8, "min_y"@, NbtValue::Int(v.1.1.1.1.1.1.1.1.0), "logical_height"@);
    lemma_lookup_insert(e9, "height"@, NbtValue::Int(v.1.1.1.1.1.1.1.1.1.0), "logical_height"@);
    lemma_lookup_insert(e10, "logical_height"@, NbtValue::Int(v.1.1.1.1.1.1.1.1.1.1.0), "logical_height"@);
    lemma_lookup_insert(e11, "infiniburn"@, NbtValue::Str(v.1.1.1.1.1.1.1.1.1.1.1.0), "logical_height"@);
    lemma_lookup_insert(e12, "effects"@, NbtValue::Str(v.1.1.1.1.1.1.1.1.1.1.1.1.0), "logical_height"@);
    lemma_lookup_insert(e13, "ambient_light"@, NbtValue::Float(v.1.1.1.1.1.1.1.1.1.1.1.1.1.0), "logical_height"@);
    lemma_lookup_insert(e14, "piglin_safe"@, NbtValue::Byte(v.1.1.1.1.1.1.1.1.1.1.1.1.1.1.0), "logical_height"@);
    lemma_lookup_insert(e15, "has_raids"@, NbtValue::Byte(v.1.1.1.1.1.1.1.1.1.1.1.1.1.1.1.0), "logical_height"@);
    lemma_lookup_insert(e16, "monster_spawn_light_level"@, NbtValue::Int(v.1.1.1.1.1.1.1.1.1.1.1.1.1.1.1.1.0), "logical_height"@);
    lemma_lookup_insert(e17, "monster_spawn_block_light_limit"@, NbtValue::Int(v.1.1.1.1.1.1.1.1.1.1.1.1.1.1.1.1.1), "logical_height"@);
    assert(dec_i32(e18, "logical_height"@) == Some(v.1.1.1.1.1.1.1.1.1.1.0));
    if let Some(x) = v.0 { lemma_lookup_insert(e0, "fixed_time"@, NbtValue::Long(x), "infiniburn"@); }
    lemma_lookup_insert(e1, "has_skylight"@, NbtValue::Byte(v.1.0), "infiniburn"@);
    lemma_lookup_insert(e2, "has_ceiling"@, NbtValue::Byte(v.1.1.0), "infiniburn"@);
    lemma_lookup_insert(e3, "ultrawarm"@, NbtValue::Byte(v.1.1.1.0), "infiniburn"@);
    lemma_lookup_insert(e4, "natural"@, NbtValue::Byte(v.1.1.1.1.0), "infiniburn"@);
    lemma_lookup_insert(e5, "coordinate_scale"@, NbtValue::Double(v.1.1.1.1.1.0), "infiniburn"@);
    lemma_lookup_insert(e6, "bed_works"@, NbtValue::Byte(v.1.1.1.1.1.1.0), "infiniburn"@);
    lemma_lookup_insert(e7, "respawn_anchor_works"@, NbtValue::Byte(v.1.1.1.1.1.1.1.0), "infiniburn"@);
    lemma_lookup_insert(e8, "min_y"@, NbtValue::Int(v.1.1.1.1.1.1.1.1.0), "infiniburn"@);
    lemma_lookup_insert(e9, "height"@, NbtValue::Int(v.1.1.1.1.1.1.1.1.1.0), "infiniburn"@);
    lemma_lookup_insert(e10, "logical_height"@, NbtValue::Int(v.1.1.1.1.1.1.1.1.1.1.0), "infiniburn"@);
    lemma_lookup_insert(e11, "infiniburn"@, NbtValue::Str(v.1.1.1.1.1.1.1.1.1.1.1.0), "infiniburn"@);
    lemma_lookup_insert(e12, "effects"@, NbtValue::Str(v.1.1.1.1.1.1.1.1.1.1.1.1.0), "infiniburn"@);
    lemma_lookup_insert(e13, "ambient_light"@, NbtValue::Float(v.1.1.1.1.1.1.1.1.1.1.1.1.1.0), "infiniburn"@);
    lemma_lookup_insert(e14, "piglin_safe"@, NbtValue::Byte(v.1.1.1.1.1.1.1.1.1.1.1.1.1.1.0), "infiniburn"@);
    lemma_lookup_insert(e15, "has_raids"@, NbtValue::Byte(v.1.1.1.1.1.1.1.1.1.1.1.1.1.1.1.0), "infiniburn"@);
    lemma_lookup_insert(e16, "monster_spawn_light_level"@, NbtValue::Int(v.1.1.1.1.1.1.1.1.1.1.1.1.1.1.1.1.0), "infiniburn"@);
    lemma_lookup_insert(e17, "monster_spawn_block_light_limit"@, NbtValue::Int(v.1.1.1.1.1.1.1.1.1.1.1.1.1.1.1.1.1), "infiniburn"@);
    assert(dec_str(e18, "infiniburn"@) == Some(v.1.1.1.1.1.1.1.1.1.1.1.0));
    if let Some(x) = v.0 { lemma_lookup_insert(e0, "fixed_time"@, NbtValue::Long(x), "effects"@); }
    lemma_lookup_insert(e1, "has_skylight"@, NbtValue::Byte(v.1.0), "effects"@);
    lemma_lookup_insert(e2, "has_ceiling"@, NbtValue::Byte(v.1.1.0), "effects"@);
    lemma_lookup_insert(e3, "ultrawarm"@, NbtValue::Byte(v.1.1.1.0), "effects"@);
    lemma_lookup_insert(e4, "natural"@, NbtValue::Byte(v.1.1.1.1.0), "effects"@);
    lemma_lookup_insert(e5, "coordinate_scale"@, NbtValue::Double(v.1.1.1.1.1.0), "effects"@);
    lemma_lookup_insert(e6, "bed_works"@, NbtValue::Byte(v.1.1.1.1.1.1.0), "effects"@);
    lemma_lookup_insert(e7, "respawn_anchor_works"@, NbtValue::Byte(v.1.1.1.1.1.1.1.0), "effects"@);
    lemma_lookup_insert(e8, "min_y"@, NbtValue::Int(v.1.1.1.1.1.1.1.1.0), "effects"@);
    lemma_lookup_insert(e9, "height"@, NbtValue::Int(v.1.1.1.1.1.1.1.1.1.0), "effects"@);
    lemma_lookup_insert(e10, "logical_height"@, NbtValue::Int(v.1.1.1.1.1.1.1.1.1.1.0), "effects"@);
    lemma_lookup_insert(e11, "infiniburn"@, NbtValue::Str(v.1.1.1.1.1.1.1.1.1.1.1.0), "effects"@);
    lemma_lookup_insert(e12, "effects"@, NbtValue::Str(v.1.1.1.1.1.1.1.1.1.1.1.1.0), "effects"@);
    lemma_lookup_insert(e13, "ambient_light"@, NbtValue::Float(v.1.1.1.1.1.1.1.1.1.1.1.1.1.0), "effects"@);
    lemma_lookup_insert(e14, "piglin_safe"@, NbtValue::Byte(v.1.1.1.1.1.1.1.1.1.1.1.1.1.1.0), "effects"@);
    lemma_lookup_insert(e15, "has_raids"@, NbtValue::Byte(v.1.1.1.1.1.1.1.1.1.1.1.1.1.1.1.0), "effects"@);
    lemma_lookup_insert(e16, "monster_spawn_light_level"@, NbtValue::Int(v.1.1.1.1.1.1.1.1.1.1.1.1.1.1.1.1.0), "effects"@);
    lemma_lookup_insert(e17, "monster_spawn_block_light_limit"@, NbtValue::Int(v.1.1.1.1.1.1.1.1.1.1.1.1.1.1.1.1.1), "effects"@);
    assert(dec_str(e18, "effects"@) == Some(v.1.1.1.1.1.1.1.1.1.1.1.1.0));
    if let Some(x) = v.0 { lemma_lookup_insert(e0, "fixed_time"@, NbtValue::Long(x), "ambient_light"@); }
    lemma_lookup_insert(e1, "has_skylight"@, NbtValue::Byte(v.1.0), "ambient_light"@);
    lemma_lookup_insert(e2, "has_ceiling"@, NbtValue::Byte(v.1.1.0), "ambient_light"@);
    lemma_lookup_insert(e3, "ultrawarm"@, NbtValue::Byte(v.1.1.1.0), "ambient_light"@);
    lemma_lookup_insert(e4, "natural"@, NbtValue::Byte(v.1.1.1.1.0), "ambient_light"@);
    lemma_lookup_insert(e5, "coordinate_scale"@, NbtValue::Double(v.1.1.1.1.1.0), "ambient_light"@);
    lemma_lookup_insert(e6, "bed_works"@, NbtValue::Byte(v.1.1.1.1.1.1.0), "ambient_light"@);
    lemma_lookup_insert(e7, "respawn_anchor_works"@, NbtValue::Byte(v.1.1.1.1.1.1.1.0), "ambient_light"@);
    lemma_lookup_insert(e8, "min_y"@, NbtValue::Int(v.1.1.1.1.1.1.1.1.0), "ambient_light"@);
    lemma_lookup_insert(e9, "height"@, NbtValue::Int(v.1.1.1.1.1.1.1.1.1.0), "ambient_light"@);
    lemma_lookup_insert(e10, "logical_height"@, NbtValue::Int(v.1.1.1.1.1.1.1.1.1.1.0), "ambient_light"@);
    lemma_lookup_insert(e11, "infiniburn"@, NbtValue::Str(v.1.1.1.1.1.1.1.1.1.1.1.0), "ambient_light"@);
    lemma_lookup_insert(e12, "effects"@, NbtValue::Str(v.1.1.1.1.1.1.1.1.1.1.1.1.0), "ambient_light"@);
    lemma_lookup_insert(e13, "ambient_light"@, NbtValue::Float(v.1.1.1.1.1.1.1.1.1.1.1.1.1.0), "ambient_light"@);
    lemma_lookup_insert(e14, "piglin_safe"@, NbtValue::Byte(v.1.1.1.1.1.1.1.1.1.1.1.1.1.1.0), "ambient_light"@);
    lemma_lookup_insert(e15, "has_raids"@, NbtValue::Byte(v.1.1.1.1.1.1.1.1.1.1.1.1.1.1.1.0), "ambient_light"@);
    lemma_lookup_insert(e16, "monster_spawn_light_level"@, NbtValue::Int(v.1.1.1.1.1.1.1.1.1.1.1.1.1.1.1.1.0), "ambient_light"@);
    lemma_lookup_insert(e17, "monster_spawn_block_light_limit"@, NbtValue::Int(v.1.1.1.1.1.1.1.1.1.1.1.1.1.1.1.1.1), "ambient_light"@);
    assert(dec_f32(e18, "ambient_light"@) == Some(v.1.1.1.1.1.1.1.1.1.1.1.1.1.0));
    if let Some(x) = v.0 { lemma_lookup_insert(e0, "fixed_time"@, NbtValue::Long(x), "piglin_safe"@); }
    lemma_lookup_insert(e1, "has_skylight"@, NbtValue::Byte(v.1.0), "piglin_safe"@);
    lemma_lookup_insert(e2, "has_ceiling"@, NbtValue::Byte(v.1.1.0), "piglin_safe"@);
    lemma_lookup_insert(e3, "ultrawarm"@, NbtValue::Byte(v.1.1.1.0), "piglin_safe"@);
    lemma_lookup_insert(e4, "natural"@, NbtValue::Byte(v.1.1.1.1.0), "piglin_safe"@);
    lemma_lookup_insert(e5, "coordinate_scale"@, NbtValue::Double(v.1.1.1.1.1.0), "piglin_safe"@);
    lemma_lookup_insert(e6, "bed_works"@, NbtValue::Byte(v.1.1.1.1.1.1.0), "piglin_safe"@);
    lemma_lookup_insert(e7, "respawn_anchor_works"@, NbtValue::Byte(v.1.1.1.1.1.1.1.0), "piglin_safe"@);
    lemma_lookup_insert(e8, "min_y"@, NbtValue::Int(v.1.1.1.1.1.1.1.1.0), "piglin_safe"@);
    lemma_lookup_insert(e9, "height"@, NbtValue::Int(v.1.1.1.1.1.1.1.1.1.0), "piglin_safe"@);
    lemma_lookup_insert(e10, "logical_height"@, NbtValue::Int(v.1.1.1.1.1.1.1.1.1.1.0), "piglin_safe"@);
    lemma_lookup_insert(e11, "infiniburn"@, NbtValue::Str(v.1.1.1.1.1.1.1.1.1.1.1.0), "piglin_safe"@);
    lemma_lookup_insert(e12, "effects"@, NbtValue::Str(v.1.1.1.1.1.1.1.1.1.1.1.1.0), "piglin_safe"@);
    lemma_lookup_insert(e13, "ambient_light"@, NbtValue::Float(v.1.1.1.1.1.1.1.1.1.1.1.1.1.0), "piglin_safe"@);
    lemma_lookup_insert(e14, "piglin_safe"@, NbtValue::Byte(v.1.1.1.1.1.1.1.1.1.1.1.1.1.1.0), "piglin_safe"@);
    lemma_lookup_insert(e15, "has_raids"@, NbtValue::Byte(v.1.1.1.1.1.1.1.1.1.1.1.1.1.1.1.0), "piglin_safe"@);
    lemma_lookup_insert(e16, "monster_spawn_light_level"@, NbtValue::Int(v.1.1.1.1.1.1.1.1.1.1.1.1.1.1.1.1.0), "piglin_safe"@);
    lemma_lookup_insert(e17, "monster_spawn_block_light_limit"@, NbtValue::Int(v.1.1.1.1.1.1.1.1.1.1.1.1.1.1.1.1.1), "piglin_safe"@);
    assert(dec_i8(e18, "piglin_safe"@) == Some(v.1.1.1.1.1.1.1.1.1.1.1.1.1.1.0));
    if let Some(x) = v.0 { lemma_lookup_insert(e0, "fixed_time"@, NbtValue::Long(x), "has_raids"@); }
    lemma_lookup_insert(e1, "has_skylight"@, NbtValue::Byte(v.1.0), "has_raids"@);
    lemma_lookup_insert(e2, "has_ceiling"@, NbtValue::Byte(v.1.1.0), "has_raids"@);
    lemma_lookup_insert(e3, "ultrawarm"@, NbtValue::Byte(v.1.1.1.0), "has_raids"@);
    lemma_lookup_insert(e4, "natural"@, NbtValue::Byte(v.1.1.1.1.0), "has_raids"@);
    lemma_lookup_insert(e5, "coordinate_scale"@, NbtValue::Double(v.1.1.1.1.1.0), "has_raids"@);
    lemma_lookup_insert(e6, "bed_works"@, NbtValue::Byte(v.1.1.1.1.1.1.0), "has_raids"@);
    lemma_lookup_insert(e7, "respawn_anchor_works"@, NbtValue::Byte(v.1.1.1.1.1.1.1.0), "has_raids"@);
    lemma_lookup_insert(e8, "min_y"@, NbtValue::Int(v.1.1.1.1.1.1.1.1.0), "has_raids"@);
    lemma_lookup_insert(e9, "height"@, NbtValue::Int(v.1.1.1.1.1.1.1.1.1.0), "has_raids"@);
    lemma_lookup_insert(e10, "logical_height"@, NbtValue::Int(v.1.1.1.1.1.1.1.1.1.1.0), "has_raids"@);
    lemma_lookup_insert(e11, "infiniburn"@, NbtValue::Str(v.1.1.1.1.1.1.1.1.1.1.1.0), "has_raids"@);
    lemma_lookup_insert(e12, "effects"@, NbtValue::Str(v.1.1.1.1.1.1.1.1.1.1.1.1.0), "has_raids"@);
    lemma_lookup_insert(e13, "ambient_light"@, NbtValue::Float(v.1.1.1.1.1.1.1.1.1.1.1.1.1.0), "has_raids"@);
    lemma_lookup_insert(e14, "piglin_safe"@, NbtValue::Byte(v.1.1.1.1.1.1.1.1.1.1.1.1.1.1.0), "has_raids"@);
    lemma_lookup_insert(e15, "has_raids"@, NbtValue::Byte(v.1.1.1.1.1.1.1.1.1.1.1.1.1.1.1.0), "has_raids"@);
    lemma_lookup_insert(e16, "monster_spawn_light_level"@, NbtValue::Int(v.1.1.1.1.1.1.1.1.1.1.1.1.1.1.1.1.0), "has_raids"@);
    lemma_lookup_insert(e17, "monster_spawn_block_light_limit"@, NbtValue::Int(v.1.1.1.1.1.1.1.1.1.1.1.1.1.1.1.1.1), "has_raids"@);
    assert(dec_i8(e18, "has_raids"@) == Some(v.1.1.1.1.1.1.1.1.1.1.1.1.1.1.1.0));
    if let Some(x) = v.0 { lemma_lookup_insert(e0, "fixed_time"@, NbtValue::Long(x), "monster_spawn_light_level"@); }
    lemma_lookup_insert(e1, "has_skylight"@, NbtValue::Byte(v.1.0), "monster_spawn_light_level"@);
    lemma_lookup_insert(e2, "has_ceiling"@, NbtValue::Byte(v.1.1.0), "monster_spawn_light_level"@);
    lemma_lookup_insert(e3, "ultrawarm"@, NbtValue::Byte(v.1.1.1.0), "monster_spawn_light_level"@);
    lemma_lookup_insert(e4, "natural"@, NbtValue::Byte(v.1.1.1.1.0), "monster_spawn_light_level"@);
    lemma_lookup_insert(e5, "coordinate_scale"@, NbtValue::Double(v.1.1.1.1.1.0), "monster_spawn_light_level"@);
    lemma_lookup_insert(e6, "bed_works"@, NbtValue::Byte(v.1.1.1.1.1.1.0), "monster_spawn_light_level"@);
    lemma_lookup_insert(e7, "respawn_anchor_works"@, NbtValue::Byte(v.1.1.1.1.1.1.1.0), "monster_spawn_light_level"@);
    lemma_lookup_insert(e8, "min_y"@, NbtValue::Int(v.1.1.1.1.1.1.1.1.0), "monster_spawn_light_level"@);
    lemma_lookup_insert(e9, "height"@, NbtValue::Int(v.1.1.1.1.1.1.1.1.1.0), "monster_spawn_light_level"@);
    lemma_lookup_insert(e10, "logical_height"@, NbtValue::Int(v.1.1.1.1.1.1.1.1.1.1.0), "monster_spawn_light_level"@);
    lemma_lookup_insert(e11, "infiniburn"@, NbtValue::Str(v.1.1.1.1.1.1.1.1.1.1.1.0), "monster_spawn_light_level"@);
    lemma_lookup_insert(e12, "effects"@, NbtValue::Str(v.1.1.1.1.1.1.1.1.1.1.1.1.0), "monster_spawn_light_level"@);
    lemma_lookup_insert(e13, "ambient_light"@, NbtValue::Float(v.1.1.1.1.1.1.1.1.1.1.1.1.1.0), "monster_spawn_light_level"@);
    lemma_lookup_insert(e14, "piglin_safe"@, NbtValue::Byte(v.1.1.1.1.1.1.1.1.1.1.1.1.1.1.0), "monster_spawn_light_level"@);
    lemma_lookup_insert(e15, "has_raids"@, NbtValue::Byte(v.1.1.1.1.1.1.1.1.1.1.1.1.1.1.1.0), "monster_spawn_light_level"@);
    lemma_lookup_insert(e16, "monster_spawn_light_level"@, NbtValue::Int(v.1.1.1.1.1.1.1.1.1.1.1.1.1.1.1.1.0), "monster_spawn_light_level"@);
    lemma_lookup_insert(e17, "monster_spawn_block_light_limit"@, NbtValue::Int(v.1.1.1.1.1.1.1.1.1.1.1.1.1.1.1.1.1), "monster_spawn_light_level"@);
    assert(dec_i32(e18, "monster_spawn_light_level"@) == Some(v.1.1.1.1.1.1.1.1.1.1.1.1.1.1.1.1.0));
    if let Some(x) = v.0 { lemma_lookup_insert(e0, "fixed_time"@, NbtValue::Long(x), "monster_spawn_block_light_limit"@); }
    lemma_lookup_insert(e1, "has_skylight"@, NbtValue::Byte(v.1.0), "monster_spawn_block_light_limit"@);
    lemma_lookup_insert(e2, "has_ceiling"@, NbtValue::Byte(v.1.1.0), "monster_spawn_block_light_limit"@);
    lemma_lookup_insert(e3, "ultrawarm"@, NbtValue::Byte(v.1.1.1.0), "monster_spawn_block_light_limit"@);
    lemma_lookup_insert(e4, "natural"@, NbtValue::Byte(v.1.1.1.1.0), "monster_spawn_block_light_limit"@);
    lemma_lookup_insert(e5, "coordinate_scale"@, NbtValue::Double(v.1.1.1.1.1.0), "monster_spawn_block_light_limit"@);
    lemma_lookup_insert(e6, "bed_works"@, NbtValue::Byte(v.1.1.1.1.1.1.0), "monster_spawn_block_light_limit"@);
    lemma_lookup_insert(e7, "respawn_anchor_works"@, NbtValue::Byte(v.1.1.1.1.1.1.1.0), "monster_spawn_block_light_limit"@);
    lemma_lookup_insert(e8, "min_y"@, NbtValue::Int(v.1.1.1.1.1.1.1.1.0), "monster_spawn_block_light_limit"@);
    lemma_lookup_insert(e9, "height"@, NbtValue::Int(v.1.1.1.1.1.1.1.1.1.0), "monster_spawn_block_light_limit"@);
    lemma_lookup_insert(e10, "logical_height"@, NbtValue::Int(v.1.1.1.1.1.1.1.1.1.1.0), "monster_spawn_block_light_limit"@);
    lemma_lookup_insert(e11, "infiniburn"@, NbtValue::Str(v.1.1.1.1.1.1.1.1.1.1.1.0), "monster_spawn_block_light_limit"@);
    lemma_lookup_insert(e12, "effects"@, NbtValue::Str(v.1.1.1.1.1.1.1.1.1.1.1.1.0), "monster_spawn_block_light_limit"@);
    lemma_lookup_insert(e13, "ambient_light"@, NbtValue::Float(v.1.1.1.1.1.1.1.1.1.1.1.1.1.0), "monster_spawn_block_light_limit"@);
    lemma_lookup_insert(e14, "piglin_safe"@, NbtValue::Byte(v.1.1.1.1.1.1.1.1.1.1.1.1.1.1.0), "monster_spawn_block_light_limit"@);
    lemma_lookup_insert(e15, "has_raids"@, NbtValue::Byte(v.1.1.1.1.1.1.1.1.1.1.1.1.1.1.1.0), "monster_spawn_block_light_limit"@);
    lemma_lookup_insert(e16, "monster_spawn_light_level"@, NbtValue::Int(v.1.1.1.1.1.1.1.1.1.1.1.1.1.1.1.1.0), "monster_spawn_block_light_limit"@);
    lemma_lookup_insert(e17, "monster_spawn_block_light_limit"@, NbtValue::Int(v.1.1.1.1.1.1.1.1.1.1.1.1.1.1.1.1.1), "monster_spawn_block_light_limit"@);
    assert(dec_i32(e18, "monster_spawn_block_light_limit"@) == Some(v.1.1.1.1.1.1.1.1.1.1.1.1.1.1.1.1.1));
    assert(e18 == DimensionType::spec_to_entries(v));
}

/// A compound made from a dimension type, read back and made again, is the same compound.
pub proof fn lemma_dimension_type_nbt_stable(v: <DimensionType as DeepView>::V)
    ensures
        DimensionType::spec_from_entries(DimensionType::spec_to_entries(v)) matches Some(w)
            && DimensionType::spec_to_entries(w) == DimensionType::spec_to_entries(v),
{
    lemma_dimension_type_nbt_round_trip(v);
}

impl McSerialize for DimensionType {
    /// Sent as the compound that stands for it.
    open spec fn spec_serialize(v: Self::V) -> Seq<u8> {
        NbtCompound::spec_serialize((None::<Seq<char>>, Self::spec_to_entries(v)))
    }

    open spec fn spec_can_serialize(v: Self::V) -> bool {
        NbtCompound::spec_can_serialize((None::<Seq<char>>, Self::spec_to_entries(v)))
    }

    fn mc_serialize(&self, serializer: &mut McSerializer) -> (r: Result<(), SerializingErr>) {
        self.to_nbt().mc_serialize(serializer)
    }
}

impl McDeserialize for DimensionType {
    open spec fn spec_deserialize(s: Seq<u8>) -> ParseResult<Self::V> {
        match NbtCompound::spec_deserialize(s) {
            Ok((c, n)) => match Self::spec_from_entries(c.1) {
                Some(v) => Ok((v, n)),
                None => Err(ErrKind::NbtMissingField),
            },
            Err(e) => Err(e),
        }
    }

    proof fn lemma_deserialize_len(s: Seq<u8>) {
        NbtCompound::lemma_deserialize_len(s);
    }

    fn mc_deserialize(deserializer: &mut McDeserializer) -> (r: Result<DimensionType, SerializingErr>) {
        let nbt = NbtCompound::mc_deserialize(deserializer)?;
        Self::from_nbt(&nbt)
    }
}

impl McRoundTrip for DimensionType {
    open spec fn spec_well_formed(v: Self::V) -> bool {
        true
    }

    proof fn lemma_round_trip(v: Self::V, rest: Seq<u8>) {
        NbtCompound::lemma_round_trip((None::<Seq<char>>, Self::spec_to_entries(v)), rest);
        lemma_dimension_type_nbt_round_trip(v);
    }
}

/// An entry of the `minecraft:frog_variant` registry.
#[derive(Debug, Clone, PartialEq)]
pub struct FrogVariant {
    pub asset_id: String,
}

impl DeepView for FrogVariant {
    type V = Seq<char>;

    open spec fn deep_view(&self) -> Self::V {
        self.asset_id@
    }
}

impl FrogVariant {
    /// The entries of the compound that stands for a value: one per field, in order, with absent
    /// optional fields left out.
    pub open spec fn spec_to_entries(v: <FrogVariant as DeepView>::V) -> Seq<(Seq<char>, NbtValue)> {
        let e0 = Seq::<(Seq<char>, NbtValue)>::empty();
        let e1 = spec_insert(e0, "asset_id"@, NbtValue::Str(v));
        e1
    }

    /// The value that compound entries stand for, if every field is there with its type.
    pub open spec fn spec_from_entries(es: Seq<(Seq<char>, NbtValue)>) -> Option<<FrogVariant as DeepView>::V> {
        match dec_str(es, "asset_id"@) {
            Some(x0) =>
                Some(x0),
            None => None,
        }
    }

    pub fn new(asset_id: String) -> (r: Self)
        ensures
            r == (FrogVariant { asset_id }),
    {
        FrogVariant { asset_id }
    }

    /// The compound that stands for this value. Useful for serializing.
    pub fn to_nbt(&self) -> (c: NbtCompound)
        ensures
            c.deep_view() == (None::<Seq<char>>, Self::spec_to_entries(self.deep_view())),
    {
        let mut nbt = NbtCompound::new(None);
        nbt.add("asset_id".to_owned(), NbtTag::Str(self.asset_id.clone()));
        nbt
    }

    /// The value a compound stands for. Useful for deserializing. A field that is missing,
    /// or is not of its type, is refused.
    pub fn from_nbt(nbt: &NbtCompound) -> (r: Result<Self, SerializingErr>)
        ensures
            match Self::spec_from_entries(nbt.deep_view().1) {
                Some(v) => r matches Ok(x) && x.deep_view() == v,
                None => r matches Err(e) && e.kind() == ErrKind::NbtMissingField,
            },
    {
        let name = "asset_id".to_owned();
        let asset_id = match get_str(nbt, &name) {
            Some(x) => x,
            None => return Err(SerializingErr::NbtMissingField(name)),
        };
        Ok(FrogVariant { asset_id })
    }
}

/// A FrogVariant turned into a compound and back is the same value.
pub proof fn lemma_frog_variant_nbt_round_trip(v: <FrogVariant as DeepView>::V)
    ensures
        FrogVariant::spec_from_entries(FrogVariant::spec_to_entries(v)) == Some(v),
{
    reveal_strlit("asset_id");
    assert("asset_id"@.len() == 8);
    let e0 = Seq::<(Seq<char>, NbtValue)>::empty();
    let e1 = spec_insert(e0, "asset_id"@, NbtValue::Str(v));
    lemma_lookup_insert(e0, "asset_id"@, NbtValue::Str(v), "asset_id"@);
    assert(dec_str(e1, "asset_id"@) == Some(v));
    assert(e1 == FrogVariant::spec_to_entries(v));
}

impl McSerialize for FrogVariant {
    /// Sent as the compound that stands for it.
    open spec fn spec_serialize(v: Self::V) -> Seq<u8> {
        NbtCompound::spec_serialize((None::<Seq<char>>, Self::spec_to_entries(v)))
    }

    open spec fn spec_can_serialize(v: Self::V) -> bool {
        NbtCompound::spec_can_serialize((None::<Seq<char>>, Self::spec_to_entries(v)))
    }

    fn mc_serialize(&self, serializer: &mut McSerializer) -> (r: Result<(), SerializingErr>) {
        self.to_nbt().mc_serialize(serializer)
    }
}

impl McDeserialize for FrogVariant {
    open spec fn spec_deserialize(s: Seq<u8>) -> ParseResult<Self::V> {
        match NbtCompound::spec_deserialize(s) {
            Ok((c, n)) => match Self::spec_from_entries(c.1) {
                Some(v) => Ok((v, n)),
                None => Err(ErrKind::NbtMissingField),
            },
            Err(e) => Err(e),
        }
    }

    proof fn lemma_deserialize_len(s: Seq<u8>) {
        NbtCompound::lemma_deserialize_len(s);
    }

    fn mc_deserialize(deserializer: &mut McDeserializer) -> (r: Result<FrogVariant, SerializingErr>) {
        let nbt = NbtCompound::mc_deserialize(deserializer)?;
        Self::from_nbt(&nbt)
    }
}

impl McRoundTrip for FrogVariant {
    open spec fn spec_well_formed(v: Self::V) -> bool {
        true
    }

    proof fn lemma_round_trip(v: Self::V, rest: Seq<u8>) {
        NbtCompound::lemma_round_trip((None::<Seq<char>>, Self::spec_to_entries(v)), rest);
        lemma_frog_variant_nbt_round_trip(v);
    }
}

/// An entry of the `minecraft:painting_variant` registry.
#[derive(Debug, Clone, PartialEq)]
pub struct PaintingVariant {
    pub asset_id: String,
    pub author: NbtTranslateColor,
    pub height: i32,
    pub title: NbtTranslateColor,
    pub width: i32,
}

impl DeepView for PaintingVariant {
    type V = (Seq<char>, (<NbtTranslateColor as DeepView>::V, (i32, (<NbtTranslateColor as DeepView>::V, i32))));

    open spec fn deep_view(&self) -> Self::V {
        (self.asset_id@, (self.author.deep_view(), (self.height, (self.title.deep_view(), self.width))))
    }
}

impl PaintingVariant {
    /// The entries of the compound that stands for a value: one per field, in order, with absent
    /// optional fields left out.
    pub open spec fn spec_to_entries(v: <PaintingVariant as DeepView>::V) -> Seq<(Seq<char>, NbtValue)> {
        let e0 = Seq::<(Seq<char>, NbtValue)>::empty();
        let e1 = spec_insert(e0, "asset_id"@, NbtValue::Str(v.0));
        let e2 = spec_insert(e1, "author"@, NbtValue::Compound(NbtTranslateColor::spec_to_entries(v.1.0)));
        let e3 = spec_insert(e2, "height"@, NbtValue::Int(v.1.1.0));
        let e4 = spec_insert(e3, "title"@, NbtValue::Compound(NbtTranslateColor::spec_to_entries(v.1.1.1.0)));
        let e5 = spec_insert(e4, "width"@, NbtValue::Int(v.1.1.1.1));
        e5
    }

    /// The value that compound entries stand for, if every field is there with its type.
    pub open spec fn spec_from_entries(es: Seq<(Seq<char>, NbtValue)>) -> Option<<PaintingVariant as DeepView>::V> {
        match dec_str(es, "asset_id"@) {
            Some(x0) =>
            match dec_color(es, "author"@) {
                Some(x1) =>
                match dec_i32(es, "height"@) {
                    Some(x2) =>
                    match dec_color(es, "title"@) {
                        Some(x3) =>
                        match dec_i32(es, "width"@) {
                            Some(x4) =>
                                Some((x0, (x1, (x2, (x3, x4))))),
                            None => None,
                        },
                        None => None,
                    },
                    None => None,
                },
                None => None,
            },
            None => None,
        }
    }

    pub fn new(asset_id: String, author: NbtTranslateColor, height: i32, title: NbtTranslateColor, width: i32) -> (r: Self)
        ensures
            r == (PaintingVariant { asset_id, author, height, title, width }),
    {
        PaintingVariant { asset_id, author, height, title, width }
    }

    /// The compound that stands for this value. Useful for serializing.
    pub fn to_nbt(&self) -> (c: NbtCompound)
        ensures
            c.deep_view() == (None::<Seq<char>>, Self::spec_to_entries(self.deep_view())),
    {
        let mut nbt = NbtCompound::new(None);
        nbt.add("asset_id".to_owned(), NbtTag::Str(self.asset_id.clone()));
        nbt.add("author".to_owned(), NbtTag::Compound(self.author.to_nbt()));
        nbt.add("height".to_owned(), NbtTag::Int(self.height));
        nbt.add("title".to_owned(), NbtTag::Compound(self.title.to_nbt()));
        nbt.add("width".to_owned(), NbtTag::Int(self.width));
        nbt
    }

    /// The value a compound stands for. Useful for deserializing. A field that is missing,
    /// or is not of its type, is refused.
    pub fn from_nbt(nbt: &NbtCompound) -> (r: Result<Self, SerializingErr>)
        ensures
            match Self::spec_from_entries(nbt.deep_view().1) {
                Some(v) => r matches Ok(x) && x.deep_view() == v,
                None => r matches Err(e) && e.kind() == ErrKind::NbtMissingField,
            },
    {
        let name = "asset_id".to_owned();
        let asset_id = match get_str(nbt, &name) {
            Some(x) => x,
            None => return Err(SerializingErr::NbtMissingField(name)),
        };
        let name = "author".to_owned();
        let author = match get_color(nbt, &name) {
            Some(x) => x,
            None => return Err(SerializingErr::NbtMissingField(name)),
        };
        let name = "height".to_owned();
        let height = match get_i32(nbt, &name) {
            Some(x) => x,
            None => return Err(SerializingErr::NbtMissingField(name)),
        };
        let name = "title".to_owned();
        let title = match get_color(nbt, &name) {
            Some(x) => x,
            None => return Err(SerializingErr::NbtMissingField(name)),
        };
        let name = "width".to_owned();
        let width = match get_i32(nbt, &name) {
            Some(x) => x,
            None => return Err(SerializingErr::NbtMissingField(name)),
        };
        Ok(PaintingVariant { asset_id, author, height, title, width })
    }
}

/// A PaintingVariant turned into a compound and back is the same value.
pub proof fn lemma_painting_variant_nbt_round_trip(v: <PaintingVariant as DeepView>::V)
    ensures
        PaintingVariant::spec_from_entries(PaintingVariant::spec_to_entries(v)) == Some(v),
{
    reveal_strlit("asset_id");
    reveal_strlit("author");
    reveal_strlit("height");
    reveal_strlit("title");
    reveal_strlit("width");
    assert("asset_id"@.len() == 8);
    assert("author"@.len() == 6);
    assert("height"@.len() == 6);
    assert("title"@.len() == 5);
    assert("width"@.len() == 5);
    assert("author"@[0] != "height"@[0]);
    assert("title"@[0] != "width"@[0]);
    assert("asset_id"@ != "author"@);
    assert("asset_id"@ != "height"@);
    assert("asset_id"@ != "title"@);
    assert("asset_id"@ != "width"@);
    assert("author"@ != "height"@);
    assert("author"@ != "title"@);
    assert("author"@ != "width"@);
    assert("height"@ != "title"@);
    assert("height"@ != "width"@);
    assert("title"@ != "width"@);
    let e0 = Seq::<(Seq<char>, NbtValue)>::empty();
    let e1 = spec_insert(e0, "asset_id"@, NbtValue::Str(v.0));
    let e2 = spec_insert(e1, "author"@, NbtValue::Compound(NbtTranslateColor::spec_to_entries(v.1.0)));
    let e3 = spec_insert(e2, "height"@, NbtValue::Int(v.1.1.0));
    let e4 = spec_insert(e3, "title"@, NbtValue::Compound(NbtTranslateColor::spec_to_entries(v.1.1.1.0)));
    let e5 = spec_insert(e4, "width"@, NbtValue::Int(v.1.1.1.1));
    lemma_lookup_insert(e0, "asset_id"@, NbtValue::Str(v.0), "asset_id"@);
    lemma_lookup_insert(e1, "author"@, NbtValue::Compound(NbtTranslateColor::spec_to_entries(v.1.0)), "asset_id"@);
    lemma_lookup_insert(e2, "height"@, NbtValue::Int(v.1.1.0), "asset_id"@);
    lemma_lookup_insert(e3, "title"@, NbtValue::Compound(NbtTranslateColor::spec_to_entries(v.1.1.1.0)), "asset_id"@);
    lemma_lookup_insert(e4, "width"@, NbtValue::Int(v.1.1.1.1), "asset_id"@);
    assert(dec_str(e5, "asset_id"@) == Some(v.0));
    lemma_lookup_insert(e0, "asset_id"@, NbtValue::Str(v.0), "author"@);
    lemma_lookup_insert(e1, "author"@, NbtValue::Compound(NbtTranslateColor::spec_to_entries(v.1.0)), "author"@);
    lemma_lookup_insert(e2, "height"@, NbtValue::Int(v.1.1.0), "author"@);
    lemma_lookup_insert(e3, "title"@, NbtValue::Compound(NbtTranslateColor::spec_to_entries(v.1.1.1.0)), "author"@);
    lemma_lookup_insert(e4, "width"@, NbtValue::Int(v.1.1.1.1), "author"@);
    lemma_nbt_translate_color_nbt_round_trip(v.1.0);
    assert(dec_color(e5, "author"@) == Some(v.1.0));
    lemma_lookup_insert(e0, "asset_id"@, NbtValue::Str(v.0), "height"@);
    lemma_lookup_insert(e1, "author"@, NbtValue::Compound(NbtTranslateColor::spec_to_entries(v.1.0)), "height"@);
    lemma_lookup_insert(e2, "height"@, NbtValue::Int(v.1.1.0), "height"@);
    lemma_lookup_insert(e3, "title"@, NbtValue::Compound(NbtTranslateColor::spec_to_entries(v.1.1.1.0)), "height"@);
    lemma_lookup_insert(e4, "width"@, NbtValue::Int(v.1.1.1.1), "height"@);
    assert(dec_i32(e5, "height"@) == Some(v.1.1.0));
    lemma_lookup_insert(e0, "asset_id"@, NbtValue::Str(v.0), "title"@);
    lemma_lookup_insert(e1, "author"@, NbtValue::Compound(NbtTranslateColor::spec_to_entries(v.1.0)), "title"@);
    lemma_lookup_insert(e2, "height"@, NbtValue::Int(v.1.1.0), "title"@);
    lemma_lookup_insert(e3, "title"@, NbtValue::Compound(NbtTranslateColor::spec_to_entries(v.1.1.1.0)), "title"@);
    lemma_lookup_insert(e4, "width"@, NbtValue::Int(v.1.1.1.1), "title"@);
    lemma_nbt_translate_color_nbt_round_trip(v.1.1.1.0);
    assert(dec_color(e5, "title"@) == Some(v.1.1.1.0));
    lemma_lookup_insert(e0, "asset_id"@, NbtValue::Str(v.0), "width"@);
    lemma_lookup_insert(e1, "author"@, NbtValue::Compound(NbtTranslateColor::spec_to_entries(v.1.0)), "width"@);
    lemma_lookup_insert(e2, "height"@, NbtValue::Int(v.1.1.0), "width"@);
    lemma_lookup_insert(e3, "title"@, NbtValue::Compound(NbtTranslateColor::spec_to_entries(v.1.1.1.0)), "width"@);
    lemma_lookup_insert(e4, "width"@, NbtValue::Int(v.1.1.1.1), "width"@);
    assert(dec_i32(e5, "width"@) == Some(v.1.1.1.1));
    assert(e5 == PaintingVariant::spec_to_entries(v));
}

impl McSerialize for PaintingVariant {
    /// Sent as the compound that stands for it.
    open spec fn spec_serialize(v: Self::V) -> Seq<u8> {
        NbtCompound::spec_serialize((None::<Seq<char>>, Self::spec_to_entries(v)))
    }

    open spec fn spec_can_serialize(v: Self::V) -> bool {
        NbtCompound::spec_can_serialize((None::<Seq<char>>, Self::spec_to_entries(v)))
    }

    fn mc_serialize(&self, serializer: &mut McSerializer) -> (r: Result<(), SerializingErr>) {
        self.to_nbt().mc_serialize(serializer)
    }
}

impl McDeserialize for PaintingVariant {
    open spec fn spec_deserialize(s: Seq<u8>) -> ParseResult<Self::V> {
        match NbtCompound::spec_deserialize(s) {
            Ok((c, n)) => match Self::spec_from_entries(c.1) {
                Some(v) => Ok((v, n)),
                None => Err(ErrKind::NbtMissingField),
            },
            Err(e) => Err(e),
        }
    }

    proof fn lemma_deserialize_len(s: Seq<u8>) {
        NbtCompound::lemma_deserialize_len(s);
    }

    fn mc_deserialize(deserializer: &mut McDeserializer) -> (r: Result<PaintingVariant, SerializingErr>) {
        let nbt = NbtCompound::mc_deserialize(deserializer)?;
        Self::from_nbt(&nbt)
    }
}

impl McRoundTrip for PaintingVariant {
    open spec fn spec_well_formed(v: Self::V) -> bool {
        true
    }

    proof fn lemma_round_trip(v: Self::V, rest: Seq<u8>) {
        NbtCompound::lemma_round_trip((None::<Seq<char>>, Self::spec_to_entries(v)), rest);
        lemma_painting_variant_nbt_round_trip(v);
    }
}

/// An entry of the `minecraft:pig_variant` registry.
#[derive(Debug, Clone, PartialEq)]
pub struct PigVariant {
    pub asset_id: String,
    pub model: Option<String>,
}

impl DeepView for PigVariant {
    type V = (Seq<char>, Option<Seq<char>>);

    open spec fn deep_view(&self) -> Self::V {
        (self.asset_id@, self.model.deep_view())
    }
}

impl PigVariant {
    /// The entries of the compound that stands for a value: one per field, in order, with absent
    /// optional fields left out.
    pub open spec fn spec_to_entries(v: <PigVariant as DeepView>::V) -> Seq<(Seq<char>, NbtValue)> {
        let e0 = Seq::<(Seq<char>, NbtValue)>::empty();
        let e1 = spec_insert(e0, "asset_id"@, NbtValue::Str(v.0));
        let e2 = match v.1 { Some(x) => spec_insert(e1, "model"@, NbtValue::Str(x)), None => e1 };
        e2
    }

    /// The value that compound entries stand for, if every field is there with its type.
    pub open spec fn spec_from_entries(es: Seq<(Seq<char>, NbtValue)>) -> Option<<PigVariant as DeepView>::V> {
        match dec_str(es, "asset_id"@) {
            Some(x0) =>
            match dec_opt_str(es, "model"@) {
                Some(x1) =>
                    Some((x0, x1)),
                None => None,
            },
            None => None,
        }
    }

    pub fn new(asset_id: String, model: Option<String>) -> (r: Self)
        ensures
            r == (PigVariant { asset_id, model }),
    {
        PigVariant { asset_id, model }
    }

    /// The compound that stands for this value. Useful for serializing.
    pub fn to_nbt(&self) -> (c: NbtCompound)
        ensures
            c.deep_view() == (None::<Seq<char>>, Self::spec_to_entries(self.deep_view())),
    {
        let mut nbt = NbtCompound::new(None);
        nbt.add("asset_id".to_owned(), NbtTag::Str(self.asset_id.clone()));
        if let Some(x) = &self.model {
            nbt.add("model".to_owned(), NbtTag::Str(x.clone()));
        }
        nbt
    }

    /// The value a compound stands for. Useful for deserializing. A field that is missing,
    /// or is not of its type, is refused.
    pub fn from_nbt(nbt: &NbtCompound) -> (r: Result<Self, SerializingErr>)
        ensures
            match Self::spec_from_entries(nbt.deep_view().1) {
                Some(v) => r matches Ok(x) && x.deep_view() == v,
                None => r matches Err(e) && e.kind() == ErrKind::NbtMissingField,
            },
    {
        let name = "asset_id".to_owned();
        let asset_id = match get_str(nbt, &name) {
            Some(x) => x,
            None => return Err(SerializingErr::NbtMissingField(name)),
        };
        let name = "model".to_owned();
        let model = match get_opt_str(nbt, &name) {
            Some(x) => x,
            None => return Err(SerializingErr::NbtMissingField(name)),
        };
        Ok(PigVariant { asset_id, model })
    }
}

/// A PigVariant turned into a compound and back is the same value.
pub proof fn lemma_pig_variant_nbt_round_trip(v: <PigVariant as DeepView>::V)
    ensures
        PigVariant::spec_from_entries(PigVariant::spec_to_entries(v)) == Some(v),
{
    reveal_strlit("asset_id");
    reveal_strlit("model");
    assert("asset_id"@.len() == 8);
    assert("model"@.len() == 5);
    assert("asset_id"@ != "model"@);
    let e0 = Seq::<(Seq<char>, NbtValue)>::empty();
    let e1 = spec_insert(e0, "asset_id"@, NbtValue::Str(v.0));
    let e2 = match v.1 { Some(x) => spec_insert(e1, "model"@, NbtValue::Str(x)), None => e1 };
    lemma_lookup_insert(e0, "asset_id"@, NbtValue::Str(v.0), "asset_id"@);
    if let Some(x) = v.1 { lemma_lookup_insert(e1, "model"@, NbtValue::Str(x), "asset_id"@); }
    assert(dec_str(e2, "asset_id"@) == Some(v.0));
    lemma_lookup_insert(e0, "asset_id"@, NbtValue::Str(v.0), "model"@);
    if let Some(x) = v.1 { lemma_lookup_insert(e1, "model"@, NbtValue::Str(x), "model"@); }
    assert(spec_lookup(e0, "model"@) is None);
    assert(dec_opt_str(e2, "model"@) == Some(v.1));
    assert(e2 == PigVariant::spec_to_entries(v));
}

impl McSerialize for PigVariant {
    /// Sent as the compound that stands for it.
    open spec fn spec_serialize(v: Self::V) -> Seq<u8> {
        NbtCompound::spec_serialize((None::<Seq<char>>, Self::spec_to_entries(v)))
    }

    open spec fn spec_can_serialize(v: Self::V) -> bool {
        NbtCompound::spec_can_serialize((None::<Seq<char>>, Self::spec_to_entries(v)))
    }

    fn mc_serialize(&self, serializer: &mut McSerializer) -> (r: Result<(), SerializingErr>) {
        self.to_nbt().mc_serialize(serializer)
    }
}

impl McDeserialize for PigVariant {
    open spec fn spec_deserialize(s: Seq<u8>) -> ParseResult<Self::V> {
        match NbtCompound::spec_deserialize(s) {
            Ok((c, n)) => match Self::spec_from_entries(c.1) {
                Some(v) => Ok((v, n)),
                None => Err(ErrKind::NbtMissingField),
            },
            Err(e) => Err(e),
        }
    }

    proof fn lemma_deserialize_len(s: Seq<u8>) {
        NbtCompound::lemma_deserialize_len(s);
    }

    fn mc_deserialize(deserializer: &mut McDeserializer) -> (r: Result<PigVariant, SerializingErr>) {
        let nbt = NbtCompound::mc_deserialize(deserializer)?;
        Self::from_nbt(&nbt)
    }
}

impl McRoundTrip for PigVariant {
    open spec fn spec_well_formed(v: Self::V) -> bool {
        true
    }

    proof fn lemma_round_trip(v: Self::V, rest: Seq<u8>) {
        NbtCompound::lemma_round_trip((None::<Seq<char>>, Self::spec_to_entries(v)), rest);
        lemma_pig_variant_nbt_round_trip(v);
    }
}

/// An entry of the `minecraft:trim_pattern` registry.
#[derive(Debug, Clone, PartialEq)]
pub struct TrimPattern {
    pub asset_id: String,
    pub decal: i8,
    pub description: NbtTranslateColor,
}

impl DeepView for TrimPattern {
    type V = (Seq<char>, (i8, <NbtTranslateColor as DeepView>::V));

    open spec fn deep_view(&self) -> Self::V {
        (self.asset_id@, (self.decal, self.description.deep_view()))
    }
}

impl TrimPattern {
    /// The entries of the compound that stands for a value: one per field, in order, with absent
    /// optional fields left out.
    pub open spec fn spec_to_entries(v: <TrimPattern as DeepView>::V) -> Seq<(Seq<char>, NbtValue)> {
        let e0 = Seq::<(Seq<char>, NbtValue)>::empty();
        let e1 = spec_insert(e0, "asset_id"@, NbtValue::Str(v.0));
        let e2 = spec_insert(e1, "decal"@, NbtValue::Byte(v.1.0));
        let e3 = spec_insert(e2, "description"@, NbtValue::Compound(NbtTranslateColor::spec_to_entries(v.1.1)));
        e3
    }

    /// The value that compound entries stand for, if every field is there with its type.
    pub open spec fn spec_from_entries(es: Seq<(Seq<char>, NbtValue)>) -> Option<<TrimPattern as DeepView>::V> {
        match dec_str(es, "asset_id"@) {
            Some(x0) =>
            match dec_i8(es, "decal"@) {
                Some(x1) =>
                match dec_color(es, "description"@) {
                    Some(x2) =>
                        Some((x0, (x1, x2))),
                    None => None,
                },
                None => None,
            },
            None => None,
        }
    }

    pub fn new(asset_id: String, decal: i8, description: NbtTranslateColor) -> (r: Self)
        ensures
            r == (TrimPattern { asset_id, decal, description }),
    {
        TrimPattern { asset_id, decal, description }
    }

    /// The compound that stands for this value. Useful for serializing.
    pub fn to_nbt(&self) -> (c: NbtCompound)
        ensures
            c.deep_view() == (None::<Seq<char>>, Self::spec_to_entries(self.deep_view())),
    {
        let mut nbt = NbtCompound::new(None);
        nbt.add("asset_id".to_owned(), NbtTag::Str(self.asset_id.clone()));
        nbt.add("decal".to_owned(), NbtTag::Byte(self.decal));
        nbt.add("description".to_owned(), NbtTag::Compound(self.description.to_nbt()));
        nbt
    }

    /// The value a compound stands for. Useful for deserializing. A field that is missing,
    /// or is not of its type, is refused.
    pub fn from_nbt(nbt: &NbtCompound) -> (r: Result<Self, SerializingErr>)
        ensures
            match Self::spec_from_entries(nbt.deep_view().1) {
                Some(v) => r matches Ok(x) && x.deep_view() == v,
                None => r matches Err(e) && e.kind() == ErrKind::NbtMissingField,
            },
    {
        let name = "asset_id".to_owned();
        let asset_id = match get_str(nbt, &name) {
            Some(x) => x,
            None => return Err(SerializingErr::NbtMissingField(name)),
        };
        let name = "decal".to_owned();
        let decal = match get_i8(nbt, &name) {
            Some(x) => x,
            None => return Err(SerializingErr::NbtMissingField(name)),
        };
        let name = "description".to_owned();
        let description = match get_color(nbt, &name) {
            Some(x) => x,
            None => return Err(SerializingErr::NbtMissingField(name)),
        };
        Ok(TrimPattern { asset_id, decal, description })
    }
}

/// A TrimPattern turned into a compound and back is the same value.
pub proof fn lemma_trim_pattern_nbt_round_trip(v: <TrimPattern as DeepView>::V)
    ensures
        TrimPattern::spec_from_entries(TrimPattern::spec_to_entries(v)) == Some(v),
{
    reveal_strlit("asset_id");
    reveal_strlit("decal");
    reveal_strlit("description");
    assert("asset_id"@.len() == 8);
    assert("decal"@.len() == 5);
    assert("description"@.len() == 11);
    assert("asset_id"@ != "decal"@);
    assert("asset_id"@ != "description"@);
    assert("decal"@ != "description"@);
    let e0 = Seq::<(Seq<char>, NbtValue)>::empty();
    let e1 = spec_insert(e0, "asset_id"@, NbtValue::Str(v.0));
    let e2 = spec_insert(e1, "decal"@, NbtValue::Byte(v.1.0));
    let e3 = spec_insert(e2, "description"@, NbtValue::Compound(NbtTranslateColor::spec_to_entries(v.1.1)));
    lemma_lookup_insert(e0, "asset_id"@, NbtValue::Str(v.0), "asset_id"@);
    lemma_lookup_insert(e1, "decal"@, NbtValue::Byte(v.1.0), "asset_id"@);
    lemma_lookup_insert(e2, "description"@, NbtValue::Compound(NbtTranslateColor::spec_to_entries(v.1.1)), "asset_id"@);
    assert(dec_str(e3, "asset_id"@) == Some(v.0));
    lemma_lookup_insert(e0, "asset_id"@, NbtValue::Str(v.0), "decal"@);
    lemma_lookup_insert(e1, "decal"@, NbtValue::Byte(v.1.0), "decal"@);
    lemma_lookup_insert(e2, "description"@, NbtValue::Compound(NbtTranslateColor::spec_to_entries(v.1.1)), "decal"@);
    assert(dec_i8(e3, "decal"@) == Some(v.1.0));
    lemma_lookup_insert(e0, "asset_id"@, NbtValue::Str(v.0), "description"@);
    lemma_lookup_insert(e1, "decal"@, NbtValue::Byte(v.1.0), "description"@);
    lemma_lookup_insert(e2, "description"@, NbtValue::Compound(NbtTranslateColor::spec_to_entries(v.1.1)), "description"@);
    lemma_nbt_translate_color_nbt_round_trip(v.1.1);
    assert(dec_color(e3, "description"@) == Some(v.1.1));
    assert(e3 == TrimPattern::spec_to_entries(v));
}

impl McSerialize for TrimPattern {
    /// Sent as the compound that stands for it.
    open spec fn spec_serialize(v: Self::V) -> Seq<u8> {
        NbtCompound::spec_serialize((None::<Seq<char>>, Self::spec_to_entries(v)))
    }

    open spec fn spec_can_serialize(v: Self::V) -> bool {
        NbtCompound::spec_can_serialize((None::<Seq<char>>, Self::spec_to_entries(v)))
    }

    fn mc_serialize(&self, serializer: &mut McSerializer) -> (r: Result<(), SerializingErr>) {
        self.to_nbt().mc_serialize(serializer)
    }
}

impl McDeserialize for TrimPattern {
    open spec fn spec_deserialize(s: Seq<u8>) -> ParseResult<Self::V> {
        match NbtCompound::spec_deserialize(s) {
            Ok((c, n)) => match Self::spec_from_entries(c.1) {
                Some(v) => Ok((v, n)),
                None => Err(ErrKind::NbtMissingField),
            },
            Err(e) => Err(e),
        }
    }

    proof fn lemma_deserialize_len(s: Seq<u8>) {
        NbtCompound::lemma_deserialize_len(s);
    }

    fn mc_deserialize(deserializer: &mut McDeserializer) -> (r: Result<TrimPattern, SerializingErr>) {
        let nbt = NbtCompound::mc_deserialize(deserializer)?;
        Self::from_nbt(&nbt)
    }
}

impl McRoundTrip for TrimPattern {
    open spec fn spec_well_formed(v: Self::V) -> bool {
        true
    }

    proof fn lemma_round_trip(v: Self::V, rest: Seq<u8>) {
        NbtCompound::lemma_round_trip((None::<Seq<char>>, Self::spec_to_entries(v)), rest);
        lemma_trim_pattern_nbt_round_trip(v);
    }
}

/// An entry of the `minecraft:wolf_sound_variant` registry.
#[derive(Debug, Clone, PartialEq)]
pub struct WolfSoundVariant {
    pub pant_sound: String,
    pub hurt_sound: String,
    pub growl_sound: String,
    pub whine_sound: String,
    pub death_sound: String,
    pub ambient_sound: String,
}

impl DeepView for WolfSoundVariant {
    type V = (Seq<char>, (Seq<char>, (Seq<char>, (Seq<char>, (Seq<char>, Seq<char>)))));

    open spec fn deep_view(&self) -> Self::V {
        (self.pant_sound@, (self.hurt_sound@, (self.growl_sound@, (self.whine_sound@, (self.death_sound@, self.ambient_sound@)))))
    }
}

impl WolfSoundVariant {
    /// The entries of the compound that stands for a value: one per field, in order, with absent
    /// optional fields left out.
    pub open spec fn spec_to_entries(v: <WolfSoundVariant as DeepView>::V) -> Seq<(Seq<char>, NbtValue)> {
        let e0 = Seq::<(Seq<char>, NbtValue)>::empty();
        let e1 = spec_insert(e0, "pant_sound"@, NbtValue::Str(v.0));
        let e2 = spec_insert(e1, "hurt_sound"@, NbtValue::Str(v.1.0));
        let e3 = spec_insert(e2, "growl_sound"@, NbtValue::Str(v.1.1.0));
        let e4 = spec_insert(e3, "whine_sound"@, NbtValue::Str(v.1.1.1.0));
        let e5 = spec_insert(e4, "death_sound"@, NbtValue::Str(v.1.1.1.1.0));
        let e6 = spec_insert(e5, "ambient_sound"@, NbtValue::Str(v.1.1.1.1.1));
        e6
    }

    /// The value that compound entries stand for, if every field is there with its type.
    pub open spec fn spec_from_entries(es: Seq<(Seq<char>, NbtValue)>) -> Option<<WolfSoundVariant as DeepView>::V> {
        match dec_str(es, "pant_sound"@) {
            Some(x0) =>
            match dec_str(es, "hurt_sound"@) {
                Some(x1) =>
                match dec_str(es, "growl_sound"@) {
                    Some(x2) =>
                    match dec_str(es, "whine_sound"@) {
                        Some(x3) =>
                        match dec_str(es, "death_sound"@) {
                            Some(x4) =>
                            match dec_str(es, "ambient_sound"@) {
                                Some(x5) =>
                                    Some((x0, (x1, (x2, (x3, (x4, x5)))))),
                                None => None,
                            },
                            None => None,
                        },
                        None => None,
                    },
                    None => None,
                },
                None => None,
            },
            None => None,
        }
    }

    pub fn new(pant_sound: String, hurt_sound: String, growl_sound: String, whine_sound: String, death_sound: String, ambient_sound: String) -> (r: Self)
        ensures
            r == (WolfSoundVariant { pant_sound, hurt_sound, growl_sound, whine_sound, death_sound, ambient_sound }),
    {
        WolfSoundVariant { pant_sound, hurt_sound, growl_sound, whine_sound, death_sound, ambient_sound }
    }

    /// The compound that stands for this value. Useful for serializing.
    pub fn to_nbt(&self) -> (c: NbtCompound)
        ensures
            c.deep_view() == (None::<Seq<char>>, Self::spec_to_entries(self.deep_view())),
    {
        let mut nbt = NbtCompound::new(None);
        nbt.add("pant_sound".to_owned(), NbtTag::Str(self.pant_sound.clone()));
        nbt.add("hurt_sound".to_owned(), NbtTag::Str(self.hurt_sound.clone()));
        nbt.add("growl_sound".to_owned(), NbtTag::Str(self.growl_sound.clone()));
        nbt.add("whine_sound".to_owned(), NbtTag::Str(self.whine_sound.clone()));
        nbt.add("death_sound".to_owned(), NbtTag::Str(self.death_sound.clone()));
        nbt.add("ambient_sound".to_owned(), NbtTag::Str(self.ambient_sound.clone()));
        nbt
    }

    /// The value a compound stands for. Useful for deserializing. A field that is missing,
    /// or is not of its type, is refused.
    pub fn from_nbt(nbt: &NbtCompound) -> (r: Result<Self, SerializingErr>)
        ensures
            match Self::spec_from_entries(nbt.deep_view().1) {
                Some(v) => r matches Ok(x) && x.deep_view() == v,
                None => r matches Err(e) && e.kind() == ErrKind::NbtMissingField,
            },
    {
        let name = "pant_sound".to_owned();
        let pant_sound = match get_str(nbt, &name) {
            Some(x) => x,
            None => return Err(SerializingErr::NbtMissingField(name)),
        };
        let name = "hurt_sound".to_owned();
        let hurt_sound = match get_str(nbt, &name) {
            Some(x) => x,
            None => return Err(SerializingErr::NbtMissingField(name)),
        };
        let name = "growl_sound".to_owned();
        let growl_sound = match get_str(nbt, &name) {
            Some(x) => x,
            None => return Err(SerializingErr::NbtMissingField(name)),
        };
        let name = "whine_sound".to_owned();
        let whine_sound = match get_str(nbt, &name) {
            Some(x) => x,
            None => return Err(SerializingErr::NbtMissingField(name)),
        };
        let name = "death_sound".to_owned();
        let death_sound = match get_str(nbt, &name) {
            Some(x) => x,
            None => return Err(SerializingErr::NbtMissingField(name)),
        };
        let name = "ambient_sound".to_owned();
        let ambient_sound = match get_str(nbt, &name) {
            Some(x) => x,
            None => return Err(SerializingErr::NbtMissingField(name)),
        };
        Ok(WolfSoundVariant { pant_sound, hurt_sound, growl_sound, whine_sound, death_sound, ambient_sound })
    }
}

/// A WolfSoundVariant turned into a compound and back is the same value.
pub proof fn lemma_wolf_sound_variant_nbt_round_trip(v: <WolfSoundVariant as DeepView>::V)
    ensures
        WolfSoundVariant::spec_from_entries(WolfSoundVariant::spec_to_entries(v)) == Some(v),
{
    reveal_strlit("pant_sound");
    reveal_strlit("hurt_sound");
    reveal_strlit("growl_sound");
    reveal_strlit("whine_sound");
    reveal_strlit("death_sound");
    reveal_strlit("ambient_sound");
    assert("pant_sound"@.len() == 10);
    assert("hurt_sound"@.len() == 10);
    assert("growl_sound"@.len() == 11);
    assert("whine_sound"@.len() == 11);
    assert("death_sound"@.len() == 11);
    assert("ambient_sound"@.len() == 13);
    assert("pant_sound"@[0] != "hurt_sound"@[0]);
    assert("growl_sound"@[0] != "whine_sound"@[0]);
    assert("growl_sound"@[0] != "death_sound"@[0]);
    assert("whine_sound"@[0] != "death_sound"@[0]);
    assert("pant_sound"@ != "hurt_sound"@);
    assert("pant_sound"@ != "growl_sound"@);
    assert("pant_sound"@ != "whine_sound"@);
    assert("pant_sound"@ != "death_sound"@);
    assert("pant_sound"@ != "ambient_sound"@);
    assert("hurt_sound"@ != "growl_sound"@);
    assert("hurt_sound"@ != "whine_sound"@);
    assert("hurt_sound"@ != "death_sound"@);
    assert("hurt_sound"@ != "ambient_sound"@);
    assert("growl_sound"@ != "whine_sound"@);
    assert("growl_sound"@ != "death_sound"@);
    assert("growl_sound"@ != "ambient_sound"@);
    assert("whine_sound"@ != "death_sound"@);
    assert("whine_sound"@ != "ambient_sound"@);
    assert("death_sound"@ != "ambient_sound"@);
    let e0 = Seq::<(Seq<char>, NbtValue)>::empty();
    let e1 = spec_insert(e0, "pant_sound"@, NbtValue::Str(v.0));
    let e2 = spec_insert(e1, "hurt_sound"@, NbtValue::Str(v.1.0));
    let e3 = spec_insert(e2, "growl_sound"@, NbtValue::Str(v.1.1.0));
    let e4 = spec_insert(e3, "whine_sound"@, NbtValue::Str(v.1.1.1.0));
    let e5 = spec_insert(e4, "death_sound"@, NbtValue::Str(v.1.1.1.1.0));
    let e6 = spec_insert(e5, "ambient_sound"@, NbtValue::Str(v.1.1.1.1.1));
    lemma_lookup_insert(e0, "pant_sound"@, NbtValue::Str(v.0), "pant_sound"@);
    lemma_lookup_insert(e1, "hurt_sound"@, NbtValue::Str(v.1.0), "pant_sound"@);
    lemma_lookup_insert(e2, "growl_sound"@, NbtValue::Str(v.1.1.0), "pant_sound"@);
    lemma_lookup_insert(e3, "whine_sound"@, NbtValue::Str(v.1.1.1.0), "pant_sound"@);
    lemma_lookup_insert(e4, "death_sound"@, NbtValue::Str(v.1.1.1.1.0), "pant_sound"@);
    lemma_lookup_insert(e5, "ambient_sound"@, NbtValue::Str(v.1.1.1.1.1), "pant_sound"@);
    assert(dec_str(e6, "pant_sound"@) == Some(v.0));
    lemma_lookup_insert(e0, "pant_sound"@, NbtValue::Str(v.0), "hurt_sound"@);
    lemma_lookup_insert(e1, "hurt_sound"@, NbtValue::Str(v.1.0), "hurt_sound"@);
    lemma_lookup_insert(e2, "growl_sound"@, NbtValue::Str(v.1.1.0), "hurt_sound"@);
    lemma_lookup_insert(e3, "whine_sound"@, NbtValue::Str(v.1.1.1.0), "hurt_sound"@);
    lemma_lookup_insert(e4, "death_sound"@, NbtValue::Str(v.1.1.1.1.0), "hurt_sound"@);
    lemma_lookup_insert(e5, "ambient_sound"@, NbtValue::Str(v.1.1.1.1.1), "hurt_sound"@);
    assert(dec_str(e6, "hurt_sound"@) == Some(v.1.0));
    lemma_lookup_insert(e0, "pant_sound"@, NbtValue::Str(v.0), "growl_sound"@);
    lemma_lookup_insert(e1, "hurt_sound"@, NbtValue::Str(v.1.0), "growl_sound"@);
    lemma_lookup_insert(e2, "growl_sound"@, NbtValue::Str(v.1.1.0), "growl_sound"@);
    lemma_lookup_insert(e3, "whine_sound"@, NbtValue::Str(v.1.1.1.0), "growl_sound"@);
    lemma_lookup_insert(e4, "death_sound"@, NbtValue::Str(v.1.1.1.1.0), "growl_sound"@);
    lemma_lookup_insert(e5, "ambient_sound"@, NbtValue::Str(v.1.1.1.1.1), "growl_sound"@);
    assert(dec_str(e6, "growl_sound"@) == Some(v.1.1.0));
    lemma_lookup_insert(e0, "pant_sound"@, NbtValue::Str(v.0), "whine_sound"@);
    lemma_lookup_insert(e1, "hurt_sound"@, NbtValue::Str(v.1.0), "whine_sound"@);
    lemma_lookup_insert(e2, "growl_sound"@, NbtValue::Str(v.1.1.0), "whine_sound"@);
    lemma_lookup_insert(e3, "whine_sound"@, NbtValue::Str(v.1.1.1.0), "whine_sound"@);
    lemma_lookup_insert(e4, "death_sound"@, NbtValue::Str(v.1.1.1.1.0), "whine_sound"@);
    lemma_lookup_insert(e5, "ambient_sound"@, NbtValue::Str(v.1.1.1.1.1), "whine_sound"@);
    assert(dec_str(e6, "whine_sound"@) == Some(v.1.1.1.0));
    lemma_lookup_insert(e0, "pant_sound"@, NbtValue::Str(v.0), "death_sound"@);
    lemma_lookup_insert(e1, "hurt_sound"@, NbtValue::Str(v.1.0), "death_sound"@);
    lemma_lookup_insert(e2, "growl_sound"@, NbtValue::Str(v.1.1.0), "death_sound"@);
    lemma_lookup_insert(e3, "whine_sound"@, NbtValue::Str(v.1.1.1.0), "death_sound"@);
    lemma_lookup_insert(e4, "death_sound"@, NbtValue::Str(v.1.1.1.1.0), "death_sound"@);
    lemma_lookup_insert(e5, "ambient_sound"@, NbtValue::Str(v.1.1.1.1.1), "death_sound"@);
    assert(dec_str(e6, "death_sound"@) == Some(v.1.1.1.1.0));
    lemma_lookup_insert(e0, "pant_sound"@, NbtValue::Str(v.0), "ambient_sound"@);
    lemma_lookup_insert(e1, "hurt_sound"@, NbtValue::Str(v.1.0), "ambient_sound"@);
    lemma_lookup_insert(e2, "growl_sound"@, NbtValue::Str(v.1.1.0), "ambient_sound"@);
    lemma_lookup_insert(e3, "whine_sound"@, NbtValue::Str(v.1.1.1.0), "ambient_sound"@);
    lemma_lookup_insert(e4, "death_sound"@, NbtValue::Str(v.1.1.1.1.0), "ambient_sound"@);
    lemma_lookup_insert(e5, "ambient_sound"@, NbtValue::Str(v.1.1.1.1.1), "ambient_sound"@);
    assert(dec_str(e6, "ambient_sound"@) == Some(v.1.1.1.1.1));
    assert(e6 == WolfSoundVariant::spec_to_entries(v));
}

impl McSerialize for WolfSoundVariant {
    /// Sent as the compound that stands for it.
    open spec fn spec_serialize(v: Self::V) -> Seq<u8> {
        NbtCompound::spec_serialize((None::<Seq<char>>, Self::spec_to_entries(v)))
    }

    open spec fn spec_can_serialize(v: Self::V) -> bool {
        NbtCompound::spec_can_serialize((None::<Seq<char>>, Self::spec_to_entries(v)))
    }

    fn mc_serialize(&self, serializer: &mut McSerializer) -> (r: Result<(), SerializingErr>) {
        self.to_nbt().mc_serialize(serializer)
    }
}

impl McDeserialize for WolfSoundVariant {
    open spec fn spec_deserialize(s: Seq<u8>) -> ParseResult<Self::V> {
        match NbtCompound::spec_deserialize(s) {
            Ok((c, n)) => match Self::spec_from_entries(c.1) {
                Some(v) => Ok((v, n)),
                None => Err(ErrKind::NbtMissingField),
            },
            Err(e) => Err(e),
        }
    }

    proof fn lemma_deserialize_len(s: Seq<u8>) {
        NbtCompound::lemma_deserialize_len(s);
    }

    fn mc_deserialize(deserializer: &mut McDeserializer) -> (r: Result<WolfSoundVariant, SerializingErr>) {
        let nbt = NbtCompound::mc_deserialize(deserializer)?;
        Self::from_nbt(&nbt)
    }
}

impl McRoundTrip for WolfSoundVariant {
    open spec fn spec_well_formed(v: Self::V) -> bool {
        true
    }

    proof fn lemma_round_trip(v: Self::V, rest: Seq<u8>) {
        NbtCompound::lemma_round_trip((None::<Seq<char>>, Self::spec_to_entries(v)), rest);
        lemma_wolf_sound_variant_nbt_round_trip(v);
    }
}

/// An entry of the `minecraft:wolf_variant` registry.
#[derive(Debug, Clone, PartialEq)]
pub struct WolfVariant {
    pub angry: String,
    pub tame: String,
    pub wild: String,
}

impl DeepView for WolfVariant {
    type V = (Seq<char>, (Seq<char>, Seq<char>));

    open spec fn deep_view(&self) -> Self::V {
        (self.angry@, (self.tame@, self.wild@))
    }
}

impl WolfVariant {
    /// The entries of the compound that stands for a value: one per field, in order, with absent
    /// optional fields left out.
    pub open spec fn spec_to_entries(v: <WolfVariant as DeepView>::V) -> Seq<(Seq<char>, NbtValue)> {
        let e0 = Seq::<(Seq<char>, NbtValue)>::empty();
        let e1 = spec_insert(e0, "angry"@, NbtValue::Str(v.0));
        let e2 = spec_insert(e1, "tame"@, NbtValue::Str(v.1.0));
        let e3 = spec_insert(e2, "wild"@, NbtValue::Str(v.1.1));
        e3
    }

    /// The value that compound entries stand for, if every field is there with its type.
    pub open spec fn spec_from_entries(es: Seq<(Seq<char>, NbtValue)>) -> Option<<WolfVariant as DeepView>::V> {
        match dec_str(es, "angry"@) {
            Some(x0) =>
            match dec_str(es, "tame"@) {
                Some(x1) =>
                match dec_str(es, "wild"@) {
                    Some(x2) =>
                        Some((x0, (x1, x2))),
                    None => None,
                },
                None => None,
            },
            None => None,
        }
    }

    pub fn new(angry: String, tame: String, wild: String) -> (r: Self)
        ensures
            r == (WolfVariant { angry, tame, wild }),
    {
        WolfVariant { angry, tame, wild }
    }

    /// The compound that stands for this value. Useful for serializing.
    pub fn to_nbt(&self) -> (c: NbtCompound)
        ensures
            c.deep_view() == (None::<Seq<char>>, Self::spec_to_entries(self.deep_view())),
    {
        let mut nbt = NbtCompound::new(None);
        nbt.add("angry".to_owned(), NbtTag::Str(self.angry.clone()));
        nbt.add("tame".to_owned(), NbtTag::Str(self.tame.clone()));
        nbt.add("wild".to_owned(), NbtTag::Str(self.wild.clone()));
        nbt
    }

    /// The value a compound stands for. Useful for deserializing. A field that is missing,
    /// or is not of its type, is refused.
    pub fn from_nbt(nbt: &NbtCompound) -> (r: Result<Self, SerializingErr>)
        ensures
            match Self::spec_from_entries(nbt.deep_view().1) {
                Some(v) => r matches Ok(x) && x.deep_view() == v,
                None => r matches Err(e) && e.kind() == ErrKind::NbtMissingField,
            },
    {
        let name = "angry".to_owned();
        let angry = match get_str(nbt, &name) {
            Some(x) => x,
            None => return Err(SerializingErr::NbtMissingField(name)),
        };
        let name = "tame".to_owned();
        let tame = match get_str(nbt, &name) {
            Some(x) => x,
            None => return Err(SerializingErr::NbtMissingField(name)),
        };
        let name = "wild".to_owned();
        let wild = match get_str(nbt, &name) {
            Some(x) => x,
            None => return Err(SerializingErr::NbtMissingField(name)),
        };
        Ok(WolfVariant { angry, tame, wild })
    }
}

/// A WolfVariant turned into a compound and back is the same value.
pub proof fn lemma_wolf_variant_nbt_round_trip(v: <WolfVariant as DeepView>::V)
    ensures
        WolfVariant::spec_from_entries(WolfVariant::spec_to_entries(v)) == Some(v),
{
    reveal_strlit("angry");
    reveal_strlit("tame");
    reveal_strlit("wild");
    assert("angry"@.len() == 5);
    assert("tame"@.len() == 4);
    assert("wild"@.len() == 4);
    assert("tame"@[0] != "wild"@[0]);
    assert("angry"@ != "tame"@);
    assert("angry"@ != "wild"@);
    assert("tame"@ != "wild"@);
    let e0 = Seq::<(Seq<char>, NbtValue)>::empty();
    let e1 = spec_insert(e0, "angry"@, NbtValue::Str(v.0));
    let e2 = spec_insert(e1, "tame"@, NbtValue::Str(v.1.0));
    let e3 = spec_insert(e2, "wild"@, NbtValue::Str(v.1.1));
    lemma_lookup_insert(e0, "angry"@, NbtValue::Str(v.0), "angry"@);
    lemma_lookup_insert(e1, "tame"@, NbtValue::Str(v.1.0), "angry"@);
    lemma_lookup_insert(e2, "wild"@, NbtValue::Str(v.1.1), "angry"@);
    assert(dec_str(e3, "angry"@) == Some(v.0));
    lemma_lookup_insert(e0, "angry"@, NbtValue::Str(v.0), "tame"@);
    lemma_lookup_insert(e1, "tame"@, NbtValue::Str(v.1.0), "tame"@);
    lemma_lookup_insert(e2, "wild"@, NbtValue::Str(v.1.1), "tame"@);
    assert(dec_str(e3, "tame"@) == Some(v.1.0));
    lemma_lookup_insert(e0, "angry"@, NbtValue::Str(v.0), "wild"@);
    lemma_lookup_insert(e1, "tame"@, NbtValue::Str(v.1.0), "wild"@);
    lemma_lookup_insert(e2, "wild"@, NbtValue::Str(v.1.1), "wild"@);
    assert(dec_str(e3, "wild"@) == Some(v.1.1));
    assert(e3 == WolfVariant::spec_to_entries(v));
}

impl McSerialize for WolfVariant {
    /// Sent as the compound that stands for it.
    open spec fn spec_serialize(v: Self::V) -> Seq<u8> {
        NbtCompound::spec_serialize((None::<Seq<char>>, Self::spec_to_entries(v)))
    }

    open spec fn spec_can_serialize(v: Self::V) -> bool {
        NbtCompound::spec_can_serialize((None::<Seq<char>>, Self::spec_to_entries(v)))
    }

    fn mc_serialize(&self, serializer: &mut McSerializer) -> (r: Result<(), SerializingErr>) {
        self.to_nbt().mc_serialize(serializer)
    }
}

impl McDeserialize for WolfVariant {
    open spec fn spec_deserialize(s: Seq<u8>) -> ParseResult<Self::V> {
        match NbtCompound::spec_deserialize(s) {
            Ok((c, n)) => match Self::spec_from_entries(c.1) {
                Some(v) => Ok((v, n)),
                None => Err(ErrKind::NbtMissingField),
            },
            Err(e) => Err(e),
        }
    }

    proof fn lemma_deserialize_len(s: Seq<u8>) {
        NbtCompound::lemma_deserialize_len(s);
    }

    fn mc_deserialize(deserializer: &mut McDeserializer) -> (r: Result<WolfVariant, SerializingErr>) {
        let nbt = NbtCompound::mc_deserialize(deserializer)?;
        Self::from_nbt(&nbt)
    }
}

impl McRoundTrip for WolfVariant {
    open spec fn spec_well_formed(v: Self::V) -> bool {
        true
    }

    proof fn lemma_round_trip(v: Self::V, rest: Seq<u8>) {
        NbtCompound::lemma_round_trip((None::<Seq<char>>, Self::spec_to_entries(v)), rest);
        lemma_wolf_variant_nbt_round_trip(v);
    }
}

/// An entry of the `minecraft:worldgen/biome` registry. Floating-point fields hold the bits of their values.
#[derive(Debug, Clone, PartialEq)]
pub struct Biome {
    pub downfall: u32,
    pub has_precipitation: bool,
    pub temperature: u32,
    pub temperature_modifier: Option<String>,
}

impl DeepView for Biome {
    type V = (u32, (bool, (u32, Option<Seq<char>>)));

    open spec fn deep_view(&self) -> Self::V {
        (self.downfall, (self.has_precipitation, (self.temperature, self.temperature_modifier.deep_view())))
    }
}

impl Biome {
    /// The entries of the compound that stands for a value: one per field, in order, with absent
    /// optional fields left out.
    pub open spec fn spec_to_entries(v: <Biome as DeepView>::V) -> Seq<(Seq<char>, NbtValue)> {
        let e0 = Seq::<(Seq<char>, NbtValue)>::empty();
        let e1 = spec_insert(e0, "downfall"@, NbtValue::Float(v.0));
        let e2 = spec_insert(e1, "has_precipitation"@, NbtValue::Byte(if v.1.0 { 1i8 } else { 0i8 }));
        let e3 = spec_insert(e2, "temperature"@, NbtValue::Float(v.1.1.0));
        let e4 = match v.1.1.1 { Some(x) => spec_insert(e3, "temperature_modifier"@, NbtValue::Str(x)), None => e3 };
        e4
    }

    /// The value that compound entries stand for, if every field is there with its type.
    pub open spec fn spec_from_entries(es: Seq<(Seq<char>, NbtValue)>) -> Option<<Biome as DeepView>::V> {
        match dec_f32(es, "downfall"@) {
            Some(x0) =>
            match dec_bool(es, "has_precipitation"@) {
                Some(x1) =>
                match dec_f32(es, "temperature"@) {
                    Some(x2) =>
                    match dec_opt_str(es, "temperature_modifier"@) {
                        Some(x3) =>
                            Some((x0, (x1, (x2, x3)))),
                        None => None,
                    },
                    None => None,
                },
                None => None,
            },
            None => None,
        }
    }

    pub fn new(downfall: u32, has_precipitation: bool, temperature: u32, temperature_modifier: Option<String>) -> (r: Self)
        ensures
            r == (Biome { downfall, has_precipitation, temperature, temperature_modifier }),
    {
        Biome { downfall, has_precipitation, temperature, temperature_modifier }
    }

    /// The compound that stands for this value. Useful for serializing.
    pub fn to_nbt(&self) -> (c: NbtCompound)
        ensures
            c.deep_view() == (None::<Seq<char>>, Self::spec_to_entries(self.deep_view())),
    {
        let mut nbt = NbtCompound::new(None);
        nbt.add("downfall".to_owned(), NbtTag::Float(self.downfall));
        nbt.add("has_precipitation".to_owned(), NbtTag::Byte(if self.has_precipitation { 1 } else { 0 }));
        nbt.add("temperature".to_owned(), NbtTag::Float(self.temperature));
        if let Some(x) = &self.temperature_modifier {
            nbt.add("temperature_modifier".to_owned(), NbtTag::Str(x.clone()));
        }
        nbt
    }

    /// The value a compound stands for. Useful for deserializing. A field that is missing,
    /// or is not of its type, is refused.
    pub fn from_nbt(nbt: &NbtCompound) -> (r: Result<Self, SerializingErr>)
        ensures
            match Self::spec_from_entries(nbt.deep_view().1) {
                Some(v) => r matches Ok(x) && x.deep_view() == v,
                None => r matches Err(e) && e.kind() == ErrKind::NbtMissingField,
            },
    {
        let name = "downfall".to_owned();
        let downfall = match get_f32(nbt, &name) {
            Some(x) => x,
            None => return Err(SerializingErr::NbtMissingField(name)),
        };
        let name = "has_precipitation".to_owned();
        let has_precipitation = match get_bool(nbt, &name) {
            Some(x) => x,
            None => return Err(SerializingErr::NbtMissingField(name)),
        };
        let name = "temperature".to_owned();
        let temperature = match get_f32(nbt, &name) {
            Some(x) => x,
            None => return Err(SerializingErr::NbtMissingField(name)),
        };
        let name = "temperature_modifier".to_owned();
        let temperature_modifier = match get_opt_str(nbt, &name) {
            Some(x) => x,
            None => return Err(SerializingErr::NbtMissingField(name)),
        };
        Ok(Biome { downfall, has_precipitation, temperature, temperature_modifier })
    }
}

/// A Biome turned into a compound and back is the same value.
pub proof fn lemma_biome_nbt_round_trip(v: <Biome as DeepView>::V)
    ensures
        Biome::spec_from_entries(Biome::spec_to_entries(v)) == Some(v),
{
    reveal_strlit("downfall");
    reveal_strlit("has_precipitation");
    reveal_strlit("temperature");
    reveal_strlit("temperature_modifier");
    assert("downfall"@.len() == 8);
    assert("has_precipitation"@.len() == 17);
    assert("temperature"@.len() == 11);
    assert("temperature_modifier"@.len() == 20);
    assert("downfall"@ != "has_precipitation"@);
    assert("downfall"@ != "temperature"@);
    assert("downfall"@ != "temperature_modifier"@);
    assert("has_precipitation"@ != "temperature"@);
    assert("has_precipitation"@ != "temperature_modifier"@);
    assert("temperature"@ != "temperature_modifier"@);
    let e0 = Seq::<(Seq<char>, NbtValue)>::empty();
    let e1 = spec_insert(e0, "downfall"@, NbtValue::Float(v.0));
    let e2 = spec_insert(e1, "has_precipitation"@, NbtValue::Byte(if v.1.0 { 1i8 } else { 0i8 }));
    let e3 = spec_insert(e2, "temperature"@, NbtValue::Float(v.1.1.0));
    let e4 = match v.1.1.1 { Some(x) => spec_insert(e3, "temperature_modifier"@, NbtValue::Str(x)), None => e3 };
    lemma_lookup_insert(e0, "downfall"@, NbtValue::Float(v.0), "downfall"@);
    lemma_lookup_insert(e1, "has_precipitation"@, NbtValue::Byte(if v.1.0 { 1i8 } else { 0i8 }), "downfall"@);
    lemma_lookup_insert(e2, "temperature"@, NbtValue::Float(v.1.1.0), "downfall"@);
    if let Some(x) = v.1.1.1 { lemma_lookup_insert(e3, "temperature_modifier"@, NbtValue::Str(x), "downfall"@); }
    assert(dec_f32(e4, "downfall"@) == Some(v.0));
    lemma_lookup_insert(e0, "downfall"@, NbtValue::Float(v.0), "has_precipitation"@);
    lemma_lookup_insert(e1, "has_precipitation"@, NbtValue::Byte(if v.1.0 { 1i8 } else { 0i8 }), "has_precipitation"@);
    lemma_lookup_insert(e2, "temperature"@, NbtValue::Float(v.1.1.0), "has_precipitation"@);
    if let Some(x) = v.1.1.1 { lemma_lookup_insert(e3, "temperature_modifier"@, NbtValue::Str(x), "has_precipitation"@); }
    assert(dec_bool(e4, "has_precipitation"@) == Some(v.1.0));
    lemma_lookup_insert(e0, "downfall"@, NbtValue::Float(v.0), "temperature"@);
    lemma_lookup_insert(e1, "has_precipitation"@, NbtValue::Byte(if v.1.0 { 1i8 } else { 0i8 }), "temperature"@);
    lemma_lookup_insert(e2, "temperature"@, NbtValue::Float(v.1.1.0), "temperature"@);
    if let Some(x) = v.1.1.1 { lemma_lookup_insert(e3, "temperature_modifier"@, NbtValue::Str(x), "temperature"@); }
    assert(dec_f32(e4, "temperature"@) == Some(v.1.1.0));
    lemma_lookup_insert(e0, "downfall"@, NbtValue::Float(v.0), "temperature_modifier"@);
    lemma_lookup_insert(e1, "has_precipitation"@, NbtValue::Byte(if v.1.0 { 1i8 } else { 0i8 }), "temperature_modifier"@);
    lemma_lookup_insert(e2, "temperature"@, NbtValue::Float(v.1.1.0), "temperature_modifier"@);
    if let Some(x) = v.1.1.1 { lemma_lookup_insert(e3, "temperature_modifier"@, NbtValue::Str(x), "temperature_modifier"@); }
    assert(spec_lookup(e0, "temperature_modifier"@) is None);
    assert(dec_opt_str(e4, "temperature_modifier"@) == Some(v.1.1.1));
    assert(e4 == Biome::spec_to_entries(v));
}

impl McSerialize for Biome {
    /// Sent as the compound that stands for it.
    open spec fn spec_serialize(v: Self::V) -> Seq<u8> {
        NbtCompound::spec_serialize((None::<Seq<char>>, Self::spec_to_entries(v)))
    }

    open spec fn spec_can_serialize(v: Self::V) -> bool {
        NbtCompound::spec_can_serialize((None::<Seq<char>>, Self::spec_to_entries(v)))
    }

    fn mc_serialize(&self, serializer: &mut McSerializer) -> (r: Result<(), SerializingErr>) {
        self.to_nbt().mc_serialize(serializer)
    }
}

impl McDeserialize for Biome {
    open spec fn spec_deserialize(s: Seq<u8>) -> ParseResult<Self::V> {
        match NbtCompound::spec_deserialize(s) {
            Ok((c, n)) => match Self::spec_from_entries(c.1) {
                Some(v) => Ok((v, n)),
                None => Err(ErrKind::NbtMissingField),
            },
            Err(e) => Err(e),
        }
    }

    proof fn lemma_deserialize_len(s: Seq<u8>) {
        NbtCompound::lemma_deserialize_len(s);
    }

    fn mc_deserialize(deserializer: &mut McDeserializer) -> (r: Result<Biome, SerializingErr>) {
        let nbt = NbtCompound::mc_deserialize(deserializer)?;
        Self::from_nbt(&nbt)
    }
}

impl McRoundTrip for Biome {
    open spec fn spec_well_formed(v: Self::V) -> bool {
        true
    }

    proof fn lemma_round_trip(v: Self::V, rest: Seq<u8>) {
        NbtCompound::lemma_round_trip((None::<Seq<char>>, Self::spec_to_entries(v)), rest);
        lemma_biome_nbt_round_trip(v);
    }
}
/// The view of the default CatVariant.
pub open spec fn spec_default_cat_variant() -> <CatVariant as DeepView>::V {
    "minecraft:entity/cat/black"@
}

/// The view of the default ChickenVariant.
pub open spec fn spec_default_chicken_variant() -> <ChickenVariant as DeepView>::V {
    ("minecraft:entity/chicken/warm_chicken"@, None::<Seq<char>>)
}

/// The view of the default CowVariant.
pub open spec fn spec_default_cow_variant() -> <CowVariant as DeepView>::V {
    ("minecraft:entity/cow/warm_cow"@, Some("warm"@))
}

/// The view of the default DimensionType.
pub open spec fn spec_default_dimension_type() -> <DimensionType as DeepView>::V {
    (None::<i64>, (1i8, (0i8, (0i8, (0i8, (0x3FF0000000000000u64, (0i8, (0i8, (-64i32, (384i32, (384i32, ("#minecraft:infiniburn_overworld"@, (Seq::<char>::empty(), (0u32, (0i8, (0i8, (7i32, 0i32)))))))))))))))))
}

/// The view of the default FrogVariant.
pub open spec fn spec_default_frog_variant() -> <FrogVariant as DeepView>::V {
    "minecraft:entity/frog/warm_frog"@
}

/// The view of the default PaintingVariant.
pub open spec fn spec_default_painting_variant() -> <PaintingVariant as DeepView>::V {
    ("minecraft:alban"@, ((Some("gray"@), "painting.minecraft.alban.author"@), (1i32, ((Some("yellow"@), "painting.minecraft.alban.title"@), 1i32))))
}

/// The view of the default PigVariant.
pub open spec fn spec_default_pig_variant() -> <PigVariant as DeepView>::V {
    ("minecraft:entity/pig/warm_pig"@, None::<Seq<char>>)
}

/// The view of the default WolfSoundVariant.
pub open spec fn spec_default_wolf_sound_variant() -> <WolfSoundVariant as DeepView>::V {
    ("minecraft:entity.wolf.pant"@, ("minecraft:entity.wolf.hurt"@, ("minecraft:entity.wolf.growl"@, ("minecraft:entity.wolf.whine"@, ("minecraft:entity.wolf.death"@, "minecraft:entity.wolf.ambient"@)))))
}

/// The view of the default WolfVariant.
pub open spec fn spec_default_wolf_variant() -> <WolfVariant as DeepView>::V {
    ("minecraft:entity/wolf/wolf_woods_angry"@, ("minecraft:entity/wolf/wolf_woods_tame"@, "minecraft:entity/wolf/wolf_woods"@))
}

/// The view of the default Biome.
pub open spec fn spec_default_biome() -> <Biome as DeepView>::V {
    (0x3ECCCCCDu32, (true, (0x3F4CCCCDu32, None::<Seq<char>>)))
}

impl Default for BannerPattern {
    /// The base pattern.
    fn default() -> (r: Self)
        ensures
            r.asset_id@ == "minecraft:base"@,
            r.translation_key@ == "block.minecraft.banner.base"@,
    {
        BannerPattern { asset_id: "minecraft:base".to_owned(), translation_key: "block.minecraft.banner.base".to_owned() }
    }
}

impl Default for CatVariant {
    /// The black cat.
    fn default() -> (r: Self)
        ensures
            r.deep_view() == spec_default_cat_variant(),
            r.asset_id@ == "minecraft:entity/cat/black"@,
    {
        CatVariant { asset_id: "minecraft:entity/cat/black".to_owned() }
    }
}

impl Default for ChickenVariant {
    /// The warm chicken.
    fn default() -> (r: Self)
        ensures
            r.deep_view() == spec_default_chicken_variant(),
            r.asset_id@ == "minecraft:entity/chicken/warm_chicken"@,
            r.model is None,
    {
        ChickenVariant { asset_id: "minecraft:entity/chicken/warm_chicken".to_owned(), model: None }
    }
}

impl Default for CowVariant {
    /// The warm cow.
    fn default() -> (r: Self)
        ensures
            r.deep_view() == spec_default_cow_variant(),
            r.asset_id@ == "minecraft:entity/cow/warm_cow"@,
            r.model matches Some(m) && m@ == "warm"@,
    {
        CowVariant { asset_id: "minecraft:entity/cow/warm_cow".to_owned(), model: Some("warm".to_owned()) }
    }
}

impl Default for DimensionType {
    /// The overworld: sky light, no ceiling, coordinate scale 1.0, heights from -64 over 384 blocks, ambient light 0.0,
    /// monsters spawning at light level 7 or below. The fields the overworld default does not name are 0 or empty.
    fn default() -> (r: Self)
        ensures
            r.deep_view() == spec_default_dimension_type(),
            r.infiniburn@ == "#minecraft:infiniburn_overworld"@,
            r.fixed_time is None,
            r.has_skylight == 1,
            r.has_ceiling == 0,
            r.coordinate_scale == 0x3FF0000000000000u64,
            r.min_y == -64,
            r.height == 384,
            r.logical_height == 384,
            r.ambient_light == 0,
            r.monster_spawn_light_level == 7,
            r.monster_spawn_block_light_limit == 0,
            r.ultrawarm == 0,
            r.natural == 0,
            r.bed_works == 0,
            r.respawn_anchor_works == 0,
            r.effects@ == Seq::<char>::empty(),
            r.piglin_safe == 0,
            r.has_raids == 0,
    {
        DimensionType { infiniburn: "#minecraft:infiniburn_overworld".to_owned(), fixed_time: None, has_skylight: 1, has_ceiling: 0, coordinate_scale: 0x3FF0000000000000u64, min_y: -64, height: 384, logical_height: 384, ambient_light: 0, monster_spawn_light_level: 7, monster_spawn_block_light_limit: 0, ultrawarm: 0, natural: 0, bed_works: 0, respawn_anchor_works: 0, effects: String::new(), piglin_safe: 0, has_raids: 0 }
    }
}

impl Default for FrogVariant {
    /// The warm frog.
    fn default() -> (r: Self)
        ensures
            r.deep_view() == spec_default_frog_variant(),
            r.asset_id@ == "minecraft:entity/frog/warm_frog"@,
    {
        FrogVariant { asset_id: "minecraft:entity/frog/warm_frog".to_owned() }
    }
}

impl Default for PaintingVariant {
    /// The Alban painting, one block square.
    fn default() -> (r: Self)
        ensures
            r.deep_view() == spec_default_painting_variant(),
            r.asset_id@ == "minecraft:alban"@,
            r.author.translate@ == "painting.minecraft.alban.author"@,
            r.author.color matches Some(c) && c@ == "gray"@,
            r.height == 1,
            r.title.translate@ == "painting.minecraft.alban.title"@,
            r.title.color matches Some(c) && c@ == "yellow"@,
            r.width == 1,
    {
        PaintingVariant { asset_id: "minecraft:alban".to_owned(), author: NbtTranslateColor { translate: "painting.minecraft.alban.author".to_owned(), color: Some("gray".to_owned()) }, height: 1, title: NbtTranslateColor { translate: "painting.minecraft.alban.title".to_owned(), color: Some("yellow".to_owned()) }, width: 1 }
    }
}

impl Default for PigVariant {
    /// The warm pig.
    fn default() -> (r: Self)
        ensures
            r.deep_view() == spec_default_pig_variant(),
            r.asset_id@ == "minecraft:entity/pig/warm_pig"@,
            r.model is None,
    {
        PigVariant { asset_id: "minecraft:entity/pig/warm_pig".to_owned(), model: None }
    }
}

impl Default for WolfSoundVariant {
    /// The classic wolf sounds.
    fn default() -> (r: Self)
        ensures
            r.deep_view() == spec_default_wolf_sound_variant(),
            r.pant_sound@ == "minecraft:entity.wolf.pant"@,
            r.hurt_sound@ == "minecraft:entity.wolf.hurt"@,
            r.growl_sound@ == "minecraft:entity.wolf.growl"@,
            r.whine_sound@ == "minecraft:entity.wolf.whine"@,
            r.death_sound@ == "minecraft:entity.wolf.death"@,
            r.ambient_sound@ == "minecraft:entity.wolf.ambient"@,
    {
        WolfSoundVariant { pant_sound: "minecraft:entity.wolf.pant".to_owned(), hurt_sound: "minecraft:entity.wolf.hurt".to_owned(), growl_sound: "minecraft:entity.wolf.growl".to_owned(), whine_sound: "minecraft:entity.wolf.whine".to_owned(), death_sound: "minecraft:entity.wolf.death".to_owned(), ambient_sound: "minecraft:entity.wolf.ambient".to_owned() }
    }
}

impl Default for WolfVariant {
    /// The woods wolf.
    fn default() -> (r: Self)
        ensures
            r.deep_view() == spec_default_wolf_variant(),
            r.angry@ == "minecraft:entity/wolf/wolf_woods_angry"@,
            r.tame@ == "minecraft:entity/wolf/wolf_woods_tame"@,
            r.wild@ == "minecraft:entity/wolf/wolf_woods"@,
    {
        WolfVariant { angry: "minecraft:entity/wolf/wolf_woods_angry".to_owned(), tame: "minecraft:entity/wolf/wolf_woods_tame".to_owned(), wild: "minecraft:entity/wolf/wolf_woods".to_owned() }
    }
}

impl Default for Biome {
    /// Plains: downfall 0.4, with precipitation, temperature 0.8 (the floats by their bits).
    fn default() -> (r: Self)
        ensures
            r.deep_view() == spec_default_biome(),
            r.temperature_modifier is None,
            r.downfall == 0x3ECCCCCDu32,
            r.has_precipitation,
            r.temperature == 0x3F4CCCCDu32,
    {
        Biome { temperature_modifier: None, downfall: 0x3ECCCCCDu32, has_precipitation: true, temperature: 0x3F4CCCCDu32 }
    }
}


/// The value of a registry entry, as contracts see it.
pub ghost enum RegistryModel {
    BannerPattern(<BannerPattern as DeepView>::V),
    CatVariant(<CatVariant as DeepView>::V),
    ChickenVariant(<ChickenVariant as DeepView>::V),
    CowVariant(<CowVariant as DeepView>::V),
    DimensionType(<DimensionType as DeepView>::V),
    FrogVariant(<FrogVariant as DeepView>::V),
    PaintingVariant(<PaintingVariant as DeepView>::V),
    PigVariant(<PigVariant as DeepView>::V),
    TrimPattern(<TrimPattern as DeepView>::V),
    WolfSoundVariant(<WolfSoundVariant as DeepView>::V),
    WolfVariant(<WolfVariant as DeepView>::V),
    Biome(<Biome as DeepView>::V),
}

/// The registry that a registry entry belongs to, by its name.
pub open spec fn spec_registry_name(m: RegistryModel) -> Seq<char> {
    match m {
        RegistryModel::BannerPattern(_) => "minecraft:banner_pattern"@,
        RegistryModel::CatVariant(_) => "minecraft:cat_variant"@,
        RegistryModel::ChickenVariant(_) => "minecraft:chicken_variant"@,
        RegistryModel::CowVariant(_) => "minecraft:cow_variant"@,
        RegistryModel::DimensionType(_) => "minecraft:dimension_type"@,
        RegistryModel::FrogVariant(_) => "minecraft:frog_variant"@,
        RegistryModel::PaintingVariant(_) => "minecraft:painting_variant"@,
        RegistryModel::PigVariant(_) => "minecraft:pig_variant"@,
        RegistryModel::TrimPattern(_) => "minecraft:trim_pattern"@,
        RegistryModel::WolfSoundVariant(_) => "minecraft:wolf_sound_variant"@,
        RegistryModel::WolfVariant(_) => "minecraft:wolf_variant"@,
        RegistryModel::Biome(_) => "minecraft:worldgen/biome"@,
    }
}

/// The value of a registry entry, of one of the known registries.
#[derive(Debug, Clone, PartialEq)]
pub enum RegistryType {
    BannerPattern(BannerPattern),
    CatVariant(CatVariant),
    ChickenVariant(ChickenVariant),
    CowVariant(CowVariant),
    DimensionType(DimensionType),
    FrogVariant(FrogVariant),
    PaintingVariant(PaintingVariant),
    PigVariant(PigVariant),
    TrimPattern(TrimPattern),
    WolfSoundVariant(WolfSoundVariant),
    WolfVariant(WolfVariant),
    Biome(Biome),
}

impl DeepView for RegistryType {
    type V = RegistryModel;

    open spec fn deep_view(&self) -> RegistryModel {
        match self {
            RegistryType::BannerPattern(x) => RegistryModel::BannerPattern(x.deep_view()),
            RegistryType::CatVariant(x) => RegistryModel::CatVariant(x.deep_view()),
            RegistryType::ChickenVariant(x) => RegistryModel::ChickenVariant(x.deep_view()),
            RegistryType::CowVariant(x) => RegistryModel::CowVariant(x.deep_view()),
            RegistryType::DimensionType(x) => RegistryModel::DimensionType(x.deep_view()),
            RegistryType::FrogVariant(x) => RegistryModel::FrogVariant(x.deep_view()),
            RegistryType::PaintingVariant(x) => RegistryModel::PaintingVariant(x.deep_view()),
            RegistryType::PigVariant(x) => RegistryModel::PigVariant(x.deep_view()),
            RegistryType::TrimPattern(x) => RegistryModel::TrimPattern(x.deep_view()),
            RegistryType::WolfSoundVariant(x) => RegistryModel::WolfSoundVariant(x.deep_view()),
            RegistryType::WolfVariant(x) => RegistryModel::WolfVariant(x.deep_view()),
            RegistryType::Biome(x) => RegistryModel::Biome(x.deep_view()),
        }
    }
}

impl McSerialize for RegistryType {
    open spec fn spec_serialize(v: RegistryModel) -> Seq<u8> {
        match v {
            RegistryModel::BannerPattern(x) => BannerPattern::spec_serialize(x),
            RegistryModel::CatVariant(x) => CatVariant::spec_serialize(x),
            RegistryModel::ChickenVariant(x) => ChickenVariant::spec_serialize(x),
            RegistryModel::CowVariant(x) => CowVariant::spec_serialize(x),
            RegistryModel::DimensionType(x) => DimensionType::spec_serialize(x),
            RegistryModel::FrogVariant(x) => FrogVariant::spec_serialize(x),
            RegistryModel::PaintingVariant(x) => PaintingVariant::spec_serialize(x),
            RegistryModel::PigVariant(x) => PigVariant::spec_serialize(x),
            RegistryModel::TrimPattern(x) => TrimPattern::spec_serialize(x),
            RegistryModel::WolfSoundVariant(x) => WolfSoundVariant::spec_serialize(x),
            RegistryModel::WolfVariant(x) => WolfVariant::spec_serialize(x),
            RegistryModel::Biome(x) => Biome::spec_serialize(x),
        }
    }

    open spec fn spec_can_serialize(v: RegistryModel) -> bool {
        match v {
            RegistryModel::BannerPattern(x) => BannerPattern::spec_can_serialize(x),
            RegistryModel::CatVariant(x) => CatVariant::spec_can_serialize(x),
            RegistryModel::ChickenVariant(x) => ChickenVariant::spec_can_serialize(x),
            RegistryModel::CowVariant(x) => CowVariant::spec_can_serialize(x),
            RegistryModel::DimensionType(x) => DimensionType::spec_can_serialize(x),
            RegistryModel::FrogVariant(x) => FrogVariant::spec_can_serialize(x),
            RegistryModel::PaintingVariant(x) => PaintingVariant::spec_can_serialize(x),
            RegistryModel::PigVariant(x) => PigVariant::spec_can_serialize(x),
            RegistryModel::TrimPattern(x) => TrimPattern::spec_can_serialize(x),
            RegistryModel::WolfSoundVariant(x) => WolfSoundVariant::spec_can_serialize(x),
            RegistryModel::WolfVariant(x) => WolfVariant::spec_can_serialize(x),
            RegistryModel::Biome(x) => Biome::spec_can_serialize(x),
        }
    }

    fn mc_serialize(&self, serializer: &mut McSerializer) -> (r: Result<(), SerializingErr>) {
        match self {
            RegistryType::BannerPattern(entry) => entry.mc_serialize(serializer),
            RegistryType::CatVariant(entry) => entry.mc_serialize(serializer),
            RegistryType::ChickenVariant(entry) => entry.mc_serialize(serializer),
            RegistryType::CowVariant(entry) => entry.mc_serialize(serializer),
            RegistryType::DimensionType(entry) => entry.mc_serialize(serializer),
            RegistryType::FrogVariant(entry) => entry.mc_serialize(serializer),
            RegistryType::PaintingVariant(entry) => entry.mc_serialize(serializer),
            RegistryType::PigVariant(entry) => entry.mc_serialize(serializer),
            RegistryType::TrimPattern(entry) => entry.mc_serialize(serializer),
            RegistryType::WolfSoundVariant(entry) => entry.mc_serialize(serializer),
            RegistryType::WolfVariant(entry) => entry.mc_serialize(serializer),
            RegistryType::Biome(entry) => entry.mc_serialize(serializer),
        }
    }
}

/// The parse of the value of an entry of the registry named `registry_type`; an unknown
/// registry is refused.
pub open spec fn spec_registry_parse(s: Seq<u8>, registry_type: Seq<char>) -> ParseResult<RegistryModel> {
    if registry_type == "minecraft:banner_pattern"@ {
        match BannerPattern::spec_deserialize(s) {
            Ok((x, n)) => Ok((RegistryModel::BannerPattern(x), n)),
            Err(e) => Err(e),
        }
    } else if registry_type == "minecraft:cat_variant"@ {
        match CatVariant::spec_deserialize(s) {
            Ok((x, n)) => Ok((RegistryModel::CatVariant(x), n)),
            Err(e) => Err(e),
        }
    } else if registry_type == "minecraft:chicken_variant"@ {
        match ChickenVariant::spec_deserialize(s) {
            Ok((x, n)) => Ok((RegistryModel::ChickenVariant(x), n)),
            Err(e) => Err(e),
        }
    } else if registry_type == "minecraft:cow_variant"@ {
        match CowVariant::spec_deserialize(s) {
            Ok((x, n)) => Ok((RegistryModel::CowVariant(x), n)),
            Err(e) => Err(e),
        }
    } else if registry_type == "minecraft:dimension_type"@ {
        match DimensionType::spec_deserialize(s) {
            Ok((x, n)) => Ok((RegistryModel::DimensionType(x), n)),
            Err(e) => Err(e),
        }
    } else if registry_type == "minecraft:frog_variant"@ {
        match FrogVariant::spec_deserialize(s) {
            Ok((x, n)) => Ok((RegistryModel::FrogVariant(x), n)),
            Err(e) => Err(e),
        }
    } else if registry_type == "minecraft:painting_variant"@ {
        match PaintingVariant::spec_deserialize(s) {
            Ok((x, n)) => Ok((RegistryModel::PaintingVariant(x), n)),
            Err(e) => Err(e),
        }
    } else if registry_type == "minecraft:pig_variant"@ {
        match PigVariant::spec_deserialize(s) {
            Ok((x, n)) => Ok((RegistryModel::PigVariant(x), n)),
            Err(e) => Err(e),
        }
    } else if registry_type == "minecraft:trim_pattern"@ {
        match TrimPattern::spec_deserialize(s) {
            Ok((x, n)) => Ok((RegistryModel::TrimPattern(x), n)),
            Err(e) => Err(e),
        }
    } else if registry_type == "minecraft:wolf_sound_variant"@ {
        match WolfSoundVariant::spec_deserialize(s) {
            Ok((x, n)) => Ok((RegistryModel::WolfSoundVariant(x), n)),
            Err(e) => Err(e),
        }
    } else if registry_type == "minecraft:wolf_variant"@ {
        match WolfVariant::spec_deserialize(s) {
            Ok((x, n)) => Ok((RegistryModel::WolfVariant(x), n)),
            Err(e) => Err(e),
        }
    } else if registry_type == "minecraft:worldgen/biome"@ {
        match Biome::spec_deserialize(s) {
            Ok((x, n)) => Ok((RegistryModel::Biome(x), n)),
            Err(e) => Err(e),
        }
    } else {
        Err(ErrKind::UniqueFailure)
    }
}

pub proof fn lemma_registry_parse_len(s: Seq<u8>, registry_type: Seq<char>)
    ensures
        spec_registry_parse(s, registry_type) matches Ok((v, n)) ==> n <= s.len(),
{
    NbtCompound::lemma_deserialize_len(s);
}

/// The message of the error, formatted by std's `format!`; nothing is claimed of its text.
#[verifier::external_body]
fn unknown_registry_message(registry_type: &String) -> String {
    format!("Unknown registry type: {}", registry_type)
}

impl RegistryType {
    /// Read the value of an entry of the registry named `registry_type`, such as
    /// "minecraft:dimension_type".
    pub fn deserialize(deserializer: &mut McDeserializer, registry_type: String) -> (r: Result<RegistryType, SerializingErr>)
        ensures
            final(deserializer).data@ == old(deserializer).data@,
            deserialized(spec_registry_parse(old(deserializer).remaining(), registry_type@), old(deserializer).index, final(deserializer).index, r),
    {
        if registry_type == "minecraft:banner_pattern".to_owned() {
            let entry = BannerPattern::mc_deserialize(deserializer)?;
            return Ok(RegistryType::BannerPattern(entry));
        }
        if registry_type == "minecraft:cat_variant".to_owned() {
            let entry = CatVariant::mc_deserialize(deserializer)?;
            return Ok(RegistryType::CatVariant(entry));
        }
        if registry_type == "minecraft:chicken_variant".to_owned() {
            let entry = ChickenVariant::mc_deserialize(deserializer)?;
            return Ok(RegistryType::ChickenVariant(entry));
        }
        if registry_type == "minecraft:cow_variant".to_owned() {
            let entry = CowVariant::mc_deserialize(deserializer)?;
            return Ok(RegistryType::CowVariant(entry));
        }
        if registry_type == "minecraft:dimension_type".to_owned() {
            let entry = DimensionType::mc_deserialize(deserializer)?;
            return Ok(RegistryType::DimensionType(entry));
        }
        if registry_type == "minecraft:frog_variant".to_owned() {
            let entry = FrogVariant::mc_deserialize(deserializer)?;
            return Ok(RegistryType::FrogVariant(entry));
        }
        if registry_type == "minecraft:painting_variant".to_owned() {
            let entry = PaintingVariant::mc_deserialize(deserializer)?;
            return Ok(RegistryType::PaintingVariant(entry));
        }
        if registry_type == "minecraft:pig_variant".to_owned() {
            let entry = PigVariant::mc_deserialize(deserializer)?;
            return Ok(RegistryType::PigVariant(entry));
        }
        if registry_type == "minecraft:trim_pattern".to_owned() {
            let entry = TrimPattern::mc_deserialize(deserializer)?;
            return Ok(RegistryType::TrimPattern(entry));
        }
        if registry_type == "minecraft:wolf_sound_variant".to_owned() {
            let entry = WolfSoundVariant::mc_deserialize(deserializer)?;
            return Ok(RegistryType::WolfSoundVariant(entry));
        }
        if registry_type == "minecraft:wolf_variant".to_owned() {
            let entry = WolfVariant::mc_deserialize(deserializer)?;
            return Ok(RegistryType::WolfVariant(entry));
        }
        if registry_type == "minecraft:worldgen/biome".to_owned() {
            let entry = Biome::mc_deserialize(deserializer)?;
            return Ok(RegistryType::Biome(entry));
        }
        Err(SerializingErr::UniqueFailure(unknown_registry_message(&registry_type)))
    }
}

/// The value of a registry entry can be read back from its registry's name, when it belongs
/// to that registry.
pub proof fn lemma_registry_round_trip(v: RegistryModel, rest: Seq<u8>)
    requires
        RegistryType::spec_can_serialize(v),
    ensures
        spec_registry_parse(RegistryType::spec_serialize(v) + rest, spec_registry_name(v))
            == Ok::<(RegistryModel, nat), ErrKind>((v, RegistryType::spec_serialize(v).len())),
{
    reveal_strlit("minecraft:banner_pattern");
    reveal_strlit("minecraft:cat_variant");
    reveal_strlit("minecraft:chicken_variant");
    reveal_strlit("minecraft:cow_variant");
    reveal_strlit("minecraft:dimension_type");
    reveal_strlit("minecraft:frog_variant");
    reveal_strlit("minecraft:painting_variant");
    reveal_strlit("minecraft:pig_variant");
    reveal_strlit("minecraft:trim_pattern");
    reveal_strlit("minecraft:wolf_sound_variant");
    reveal_strlit("minecraft:wolf_variant");
    reveal_strlit("minecraft:worldgen/biome");
    assert("minecraft:banner_pattern"@.len() == 24);
    assert("minecraft:cat_variant"@.len() == 21);
    assert("minecraft:chicken_variant"@.len() == 25);
    assert("minecraft:cow_variant"@.len() == 21);
    assert("minecraft:dimension_type"@.len() == 24);
    assert("minecraft:frog_variant"@.len() == 22);
    assert("minecraft:painting_variant"@.len() == 26);
    assert("minecraft:pig_variant"@.len() == 21);
    assert("minecraft:trim_pattern"@.len() == 22);
    assert("minecraft:wolf_sound_variant"@.len() == 28);
    assert("minecraft:wolf_variant"@.len() == 22);
    assert("minecraft:worldgen/biome"@.len() == 24);
    assert("minecraft:banner_pattern"@[10] != "minecraft:dimension_type"@[10]);
    assert("minecraft:banner_pattern"@[10] != "minecraft:worldgen/biome"@[10]);
    assert("minecraft:cat_variant"@[11] != "minecraft:cow_variant"@[11]);
    assert("minecraft:cat_variant"@[10] != "minecraft:pig_variant"@[10]);
    assert("minecraft:cow_variant"@[10] != "minecraft:pig_variant"@[10]);
    assert("minecraft:dimension_type"@[10] != "minecraft:worldgen/biome"@[10]);
    assert("minecraft:frog_variant"@[10] != "minecraft:trim_pattern"@[10]);
    assert("minecraft:frog_variant"@[10] != "minecraft:wolf_variant"@[10]);
    assert("minecraft:trim_pattern"@[10] != "minecraft:wolf_variant"@[10]);
    assert("minecraft:banner_pattern"@ != "minecraft:cat_variant"@);
    assert("minecraft:banner_pattern"@ != "minecraft:chicken_variant"@);
    assert("minecraft:banner_pattern"@ != "minecraft:cow_variant"@);
    assert("minecraft:banner_pattern"@ != "minecraft:dimension_type"@);
    assert("minecraft:banner_pattern"@ != "minecraft:frog_variant"@);
    assert("minecraft:banner_pattern"@ != "minecraft:painting_variant"@);
    assert("minecraft:banner_pattern"@ != "minecraft:pig_variant"@);
    assert("minecraft:banner_pattern"@ != "minecraft:trim_pattern"@);
    assert("minecraft:banner_pattern"@ != "minecraft:wolf_sound_variant"@);
    assert("minecraft:banner_pattern"@ != "minecraft:wolf_variant"@);
    assert("minecraft:banner_pattern"@ != "minecraft:worldgen/biome"@);
    assert("minecraft:cat_variant"@ != "minecraft:chicken_variant"@);
    assert("minecraft:cat_variant"@ != "minecraft:cow_variant"@);
    assert("minecraft:cat_variant"@ != "minecraft:dimension_type"@);
    assert("minecraft:cat_variant"@ != "minecraft:frog_variant"@);
    assert("minecraft:cat_variant"@ != "minecraft:painting_variant"@);
    assert("minecraft:cat_variant"@ != "minecraft:pig_variant"@);
    assert("minecraft:cat_variant"@ != "minecraft:trim_pattern"@);
    assert("minecraft:cat_variant"@ != "minecraft:wolf_sound_variant"@);
    assert("minecraft:cat_variant"@ != "minecraft:wolf_variant"@);
    assert("minecraft:cat_variant"@ != "minecraft:worldgen/biome"@);
    assert("minecraft:chicken_variant"@ != "minecraft:cow_variant"@);
    assert("minecraft:chicken_variant"@ != "minecraft:dimension_type"@);
    assert("minecraft:chicken_variant"@ != "minecraft:frog_variant"@);
    assert("minecraft:chicken_variant"@ != "minecraft:painting_variant"@);
    assert("minecraft:chicken_variant"@ != "minecraft:pig_variant"@);
    assert("minecraft:chicken_variant"@ != "minecraft:trim_pattern"@);
    assert("minecraft:chicken_variant"@ != "minecraft:wolf_sound_variant"@);
    assert("minecraft:chicken_variant"@ != "minecraft:wolf_variant"@);
    assert("minecraft:chicken_variant"@ != "minecraft:worldgen/biome"@);
    assert("minecraft:cow_variant"@ != "minecraft:dimension_type"@);
    assert("minecraft:cow_variant"@ != "minecraft:frog_variant"@);
    assert("minecraft:cow_variant"@ != "minecraft:painting_variant"@);
    assert("minecraft:cow_variant"@ != "minecraft:pig_variant"@);
    assert("minecraft:cow_variant"@ != "minecraft:trim_pattern"@);
    assert("minecraft:cow_variant"@ != "minecraft:wolf_sound_variant"@);
    assert("minecraft:cow_variant"@ != "minecraft:wolf_variant"@);
    assert("minecraft:cow_variant"@ != "minecraft:worldgen/biome"@);
    assert("minecraft:dimension_type"@ != "minecraft:frog_variant"@);
    assert("minecraft:dimension_type"@ != "minecraft:painting_variant"@);
    assert("minecraft:dimension_type"@ != "minecraft:pig_variant"@);
    assert("minecraft:dimension_type"@ != "minecraft:trim_pattern"@);
    assert("minecraft:dimension_type"@ != "minecraft:wolf_sound_variant"@);
    assert("minecraft:dimension_type"@ != "minecraft:wolf_variant"@);
    assert("minecraft:dimension_type"@ != "minecraft:worldgen/biome"@);
    assert("minecraft:frog_variant"@ != "minecraft:painting_variant"@);
    assert("minecraft:frog_variant"@ != "minecraft:pig_variant"@);
    assert("minecraft:frog_variant"@ != "minecraft:trim_pattern"@);
    assert("minecraft:frog_variant"@ != "minecraft:wolf_sound_variant"@);
    assert("minecraft:frog_variant"@ != "minecraft:wolf_variant"@);
    assert("minecraft:frog_variant"@ != "minecraft:worldgen/biome"@);
    assert("minecraft:painting_variant"@ != "minecraft:pig_variant"@);
    assert("minecraft:painting_variant"@ != "minecraft:trim_pattern"@);
    assert("minecraft:painting_variant"@ != "minecraft:wolf_sound_variant"@);
    assert("minecraft:painting_variant"@ != "minecraft:wolf_variant"@);
    assert("minecraft:painting_variant"@ != "minecraft:worldgen/biome"@);
    assert("minecraft:pig_variant"@ != "minecraft:trim_pattern"@);
    assert("minecraft:pig_variant"@ != "minecraft:wolf_sound_variant"@);
    assert("minecraft:pig_variant"@ != "minecraft:wolf_variant"@);
    assert("minecraft:pig_variant"@ != "minecraft:worldgen/biome"@);
    assert("minecraft:trim_pattern"@ != "minecraft:wolf_sound_variant"@);
    assert("minecraft:trim_pattern"@ != "minecraft:wolf_variant"@);
    assert("minecraft:trim_pattern"@ != "minecraft:worldgen/biome"@);
    assert("minecraft:wolf_sound_variant"@ != "minecraft:wolf_variant"@);
    assert("minecraft:wolf_sound_variant"@ != "minecraft:worldgen/biome"@);
    assert("minecraft:wolf_variant"@ != "minecraft:worldgen/biome"@);
    match v {
        RegistryModel::BannerPattern(x) => {
            BannerPattern::lemma_round_trip(x, rest);
        },
        RegistryModel::CatVariant(x) => {
            CatVariant::lemma_round_trip(x, rest);
        },
        RegistryModel::ChickenVariant(x) => {
            ChickenVariant::lemma_round_trip(x, rest);
        },
        RegistryModel::CowVariant(x) => {
            CowVariant::lemma_round_trip(x, rest);
        },
        RegistryModel::DimensionType(x) => {
            DimensionType::lemma_round_trip(x, rest);
        },
        RegistryModel::FrogVariant(x) => {
            FrogVariant::lemma_round_trip(x, rest);
        },
        RegistryModel::PaintingVariant(x) => {
            PaintingVariant::lemma_round_trip(x, rest);
        },
        RegistryModel::PigVariant(x) => {
            PigVariant::lemma_round_trip(x, rest);
        },
        RegistryModel::TrimPattern(x) => {
            TrimPattern::lemma_round_trip(x, rest);
        },
        RegistryModel::WolfSoundVariant(x) => {
            WolfSoundVariant::lemma_round_trip(x, rest);
        },
        RegistryModel::WolfVariant(x) => {
            WolfVariant::lemma_round_trip(x, rest);
        },
        RegistryModel::Biome(x) => {
            Biome::lemma_round_trip(x, rest);
        },
    }
}

/// An entry of a registry: its id, and its value if the entry carries one.
#[derive(Debug, Clone, PartialEq)]
pub struct RegistryEntry {
    /// The ID of the registry entry, e.g. "minecraft:overworld"
    pub id: String,
    /// Whether the entry is present in the registry, used for serializing the data field.
    pub is_present: bool,
    pub data: Option<RegistryType>,
}

impl DeepView for RegistryEntry {
    type V = (Seq<char>, (bool, Option<RegistryModel>));

    open spec fn deep_view(&self) -> Self::V {
        (self.id@, (self.is_present, self.data.deep_view()))
    }
}

/// The parse of an entry of the registry named `registry_type`: its id, its presence flag, and
/// its value when the flag is set.
pub open spec fn spec_registry_entry_parse(s: Seq<u8>, registry_type: Seq<char>) -> ParseResult<<RegistryEntry as DeepView>::V> {
    match String::spec_deserialize(s) {
        Err(e) => Err(e),
        Ok((id, n1)) => match bool::spec_deserialize(s.skip(n1 as int)) {
            Err(e) => Err(e),
            Ok((present, n2)) => if present {
                match spec_registry_parse(s.skip((n1 + n2) as int), registry_type) {
                    Ok((v, n3)) => Ok(((id, (present, Some(v))), n1 + n2 + n3)),
                    Err(e) => Err(e),
                }
            } else {
                Ok(((id, (present, None)), n1 + n2))
            },
        },
    }
}

pub proof fn lemma_registry_entry_parse_len(s: Seq<u8>, registry_type: Seq<char>)
    ensures
        spec_registry_entry_parse(s, registry_type) matches Ok((v, n)) ==> n <= s.len(),
{
    String::lemma_deserialize_len(s);
    if let Ok((id, n1)) = String::spec_deserialize(s) {
        if let Ok((present, n2)) = bool::spec_deserialize(s.skip(n1 as int)) {
            lemma_registry_parse_len(s.skip((n1 + n2) as int), registry_type);
        }
    }
}

impl RegistryEntry {
    /// An entry with the given id and value; it is present exactly when it has a value.
    pub fn new(id: String, data: Option<RegistryType>) -> (e: Self)
        ensures
            e.deep_view() == (id@, (data is Some, data.deep_view())),
    {
        let is_present = data.is_some();
        RegistryEntry { id, is_present, data }
    }

    /// Read an entry of the registry named `registry_type`.
    pub fn mc_deserialize(deserializer: &mut McDeserializer, registry_type: String) -> (r: Result<RegistryEntry, SerializingErr>)
        ensures
            final(deserializer).data@ == old(deserializer).data@,
            deserialized(spec_registry_entry_parse(old(deserializer).remaining(), registry_type@), old(deserializer).index, final(deserializer).index, r),
    {
        let ghost d0 = *deserializer;
        let id = String::mc_deserialize(deserializer)?;
        let ghost d1 = *deserializer;
        proof {
            String::lemma_deserialize_len(d0.remaining());
            lemma_remaining_advance(d0, d1, (d1.index - d0.index) as nat);
        }
        let is_present = bool::mc_deserialize(deserializer)?;
        proof {
            lemma_remaining_advance(d1, *deserializer, 1);
            assert(d1.remaining().skip(1) == d0.remaining().skip(deserializer.index - d0.index));
        }
        let data = if is_present {
            Some(RegistryType::deserialize(deserializer, registry_type)?)
        } else {
            None
        };
        Ok(RegistryEntry { id, is_present, data })
    }
}

impl McSerialize for RegistryEntry {
    /// The id, the presence flag, then the value if there is one.
    open spec fn spec_serialize(v: Self::V) -> Seq<u8> {
        String::spec_serialize(v.0) + bool::spec_serialize(v.1.0) + spec_option_bytes::<RegistryType>(v.1.1)
    }

    open spec fn spec_can_serialize(v: Self::V) -> bool {
        String::spec_can_serialize(v.0) && (v.1.1 matches Some(x) ==> RegistryType::spec_can_serialize(x))
    }

    fn mc_serialize(&self, serializer: &mut McSerializer) -> (r: Result<(), SerializingErr>) {
        let _ = self.id.mc_serialize(serializer);
        let _ = self.is_present.mc_serialize(serializer);
        serialize_option(&self.data, serializer);
        Ok(())
    }
}

/// Whether an entry reads back as it was written from the registry named `registry_type`: it
/// says it is present exactly when it has a value, and the value belongs to that registry.
pub open spec fn spec_registry_entry_wf(v: <RegistryEntry as DeepView>::V, registry_type: Seq<char>) -> bool {
    &&& v.1.0 == v.1.1 is Some
    &&& v.1.1 matches Some(m) ==> spec_registry_name(m) == registry_type
}

/// An entry that can be written reads back as it was, from the name of the registry its value
/// belongs to, whatever bytes follow.
#[verifier::spinoff_prover]
#[verifier::rlimit(40)]
pub proof fn lemma_registry_entry_round_trip(v: <RegistryEntry as DeepView>::V, registry_type: Seq<char>, rest: Seq<u8>)
    requires
        RegistryEntry::spec_can_serialize(v),
        spec_registry_entry_wf(v, registry_type),
    ensures
        spec_registry_entry_parse(RegistryEntry::spec_serialize(v) + rest, registry_type)
            == Ok::<(<RegistryEntry as DeepView>::V, nat), ErrKind>((v, RegistryEntry::spec_serialize(v).len())),
{
    let ib = String::spec_serialize(v.0);
    let pb = bool::spec_serialize(v.1.0);
    let db = spec_option_bytes::<RegistryType>(v.1.1);
    let s = RegistryEntry::spec_serialize(v) + rest;
    assert(s == ib + (pb + (db + rest)));
    String::lemma_round_trip(v.0, pb + (db + rest));
    assert(s.skip(ib.len() as int) == pb + (db + rest));
    bool::lemma_round_trip(v.1.0, db + rest);
    assert(s.skip((ib.len() + pb.len()) as int) == db + rest);
    if let Some(m) = v.1.1 {
        lemma_registry_round_trip(m, rest);
    } else {
        assert(db + rest == rest);
    }
}

/// The parse of `n` entries of the registry named `registry_type`, one after another.
pub open spec fn spec_registry_entries_parse(s: Seq<u8>, registry_type: Seq<char>, n: nat) -> ParseResult<Seq<<RegistryEntry as DeepView>::V>>
    decreases n,
{
    if n == 0 {
        Ok((Seq::empty(), 0nat))
    } else {
        match spec_registry_entries_parse(s, registry_type, (n - 1) as nat) {
            Ok((xs, k)) => match spec_registry_entry_parse(s.skip(k as int), registry_type) {
                Ok((x, m)) => Ok((xs.push(x), k + m)),
                Err(e) => Err(e),
            },
            Err(e) => Err(e),
        }
    }
}

pub proof fn lemma_registry_entries_parse_len(s: Seq<u8>, registry_type: Seq<char>, n: nat)
    ensures
        spec_registry_entries_parse(s, registry_type, n) matches Ok((xs, k)) ==> k <= s.len() && xs.len() == n,
    decreases n,
{
    if n > 0 {
        lemma_registry_entries_parse_len(s, registry_type, (n - 1) as nat);
        if let Ok((xs, k)) = spec_registry_entries_parse(s, registry_type, (n - 1) as nat) {
            lemma_registry_entry_parse_len(s.skip(k as int), registry_type);
        }
    }
}

pub proof fn lemma_registry_entries_parse_err(s: Seq<u8>, registry_type: Seq<char>, i: nat, n: nat)
    requires
        i <= n,
        spec_registry_entries_parse(s, registry_type, i) is Err,
    ensures
        spec_registry_entries_parse(s, registry_type, n) == spec_registry_entries_parse(s, registry_type, i),
    decreases n - i,
{
    if i < n {
        lemma_registry_entries_parse_err(s, registry_type, i, (n - 1) as nat);
    }
}

/// One more entry: the parse of `i + 1` entries is that of `i` entries followed by one more.
proof fn lemma_registry_entries_step(s: Seq<u8>, registry_type: Seq<char>, i: nat, xs: Seq<<RegistryEntry as DeepView>::V>, k: nat)
    requires
        spec_registry_entries_parse(s, registry_type, i) == Ok::<(Seq<<RegistryEntry as DeepView>::V>, nat), ErrKind>((xs, k)),
    ensures
        spec_registry_entries_parse(s, registry_type, i + 1) == match spec_registry_entry_parse(s.skip(k as int), registry_type) {
            Ok((x, m)) => Ok::<(Seq<<RegistryEntry as DeepView>::V>, nat), ErrKind>((xs.push(x), k + m)),
            Err(e) => Err(e),
        },
{
}

/// Read `count` entries of the registry named `registry_type`, one after another (none for a
/// negative count).
#[verifier::spinoff_prover]
#[verifier::rlimit(50)]
fn read_registry_entries(deserializer: &mut McDeserializer, registry_type: &String, count: i32) -> (r: Result<Vec<RegistryEntry>, SerializingErr>)
    ensures
        final(deserializer).data@ == old(deserializer).data@,
        deserialized(
            spec_registry_entries_parse(old(deserializer).remaining(), registry_type@, if count < 0 { 0nat } else { count as nat }),
            old(deserializer).index,
            final(deserializer).index,
            r,
        ),
{
    let ghost d0 = *deserializer;
    let ghost s = d0.remaining();
    let ghost n: nat = if count < 0 { 0nat } else { count as nat };
    let mut entries: Vec<RegistryEntry> = Vec::new();
    let mut i: i32 = 0;
    assert(entries.deep_view() =~= Seq::<<RegistryEntry as DeepView>::V>::empty());
    assert(s.skip(0) == s);
    while i < count
        invariant
            d0 == *old(deserializer),
            deserializer.data@ == d0.data@,
            s == d0.remaining(),
            n == (if count < 0 { 0nat } else { count as nat }),
            0 <= i,
            i as nat <= n,
            spec_registry_entries_parse(s, registry_type@, i as nat) == Ok::<(Seq<<RegistryEntry as DeepView>::V>, nat), ErrKind>((entries.deep_view(), (deserializer.index - d0.index) as nat)),
            d0.index <= deserializer.index,
            deserializer.remaining() == s.skip(deserializer.index - d0.index),
        decreases count - i,
    {
        let ghost k = (deserializer.index - d0.index) as nat;
        let ghost before = entries.deep_view();
        let ghost dk = *deserializer;
        proof {
            lemma_registry_entries_parse_len(s, registry_type@, i as nat);
            lemma_registry_entries_step(s, registry_type@, i as nat, before, k);
        }
        let entry = match RegistryEntry::mc_deserialize(deserializer, registry_type.clone()) {
            Ok(x) => x,
            Err(e) => {
                proof {
                    lemma_registry_entries_parse_err(s, registry_type@, (i + 1) as nat, n);
                }
                return Err(e);
            },
        };
        proof {
            lemma_registry_entry_parse_len(s.skip(k as int), registry_type@);
            lemma_remaining_advance(dk, *deserializer, (deserializer.index - dk.index) as nat);
            assert(s.skip(k as int).skip(deserializer.index - dk.index) == s.skip(deserializer.index - d0.index));
        }
        entries.push(entry);
        i = i + 1;
        proof {
            assert(entries.deep_view() == before.push(entry.deep_view()));
        }
    }
    Ok(entries)
}

/// The registry data packet: a registry's name, how many entries follow, and the entries.
#[derive(Debug, Clone, PartialEq)]
pub struct RegistryDataPacketInternal {
    /// The registry type this data is for, e.g. "minecraft:dimension_type"
    pub registry_id: String,
    pub num_entries: VarInt,
    pub entries: Vec<RegistryEntry>,
}

impl DeepView for RegistryDataPacketInternal {
    type V = (Seq<char>, (VarInt, Seq<<RegistryEntry as DeepView>::V>));

    open spec fn deep_view(&self) -> Self::V {
        (self.registry_id@, (self.num_entries, self.entries.deep_view()))
    }
}

impl McSerialize for RegistryDataPacketInternal {
    open spec fn spec_serialize(v: Self::V) -> Seq<u8> {
        String::spec_serialize(v.0) + VarInt::spec_serialize(v.1.0) + seq_serialize::<RegistryEntry>(v.1.1)
    }

    open spec fn spec_can_serialize(v: Self::V) -> bool {
        String::spec_can_serialize(v.0) && seq_can_serialize::<RegistryEntry>(v.1.1)
    }

    fn mc_serialize(&self, serializer: &mut McSerializer) -> (r: Result<(), SerializingErr>) {
        let _ = self.registry_id.mc_serialize(serializer);
        let _ = self.num_entries.mc_serialize(serializer);
        serialize_all(&self.entries, serializer);
        Ok(())
    }
}

impl McDeserialize for RegistryDataPacketInternal {
    /// The registry's name, the count, then that many entries of that registry (none for a
    /// negative count).
    open spec fn spec_deserialize(s: Seq<u8>) -> ParseResult<Self::V> {
        match String::spec_deserialize(s) {
            Err(e) => Err(e),
            Ok((id, n1)) => match spec_varint_parse(s.skip(n1 as int)) {
                Err(e) => Err(e),
                Ok((num, n2)) => match spec_registry_entries_parse(s.skip((n1 + n2) as int), id, if num.0 < 0 { 0nat } else { num.0 as nat }) {
                    Ok((es, n3)) => Ok(((id, (num, es)), n1 + n2 + n3)),
                    Err(e) => Err(e),
                },
            },
        }
    }

    proof fn lemma_deserialize_len(s: Seq<u8>) {
        String::lemma_deserialize_len(s);
        if let Ok((id, n1)) = String::spec_deserialize(s) {
            VarInt::lemma_deserialize_len(s.skip(n1 as int));
            if let Ok((num, n2)) = spec_varint_parse(s.skip(n1 as int)) {
                lemma_registry_entries_parse_len(s.skip((n1 + n2) as int), id, if num.0 < 0 { 0nat } else { num.0 as nat });
            }
        }
    }

    /// Deserialize the registry data packet according to the number of entries specified.
    #[verifier::spinoff_prover]
    #[verifier::rlimit(50)]
    fn mc_deserialize(deserializer: &mut McDeserializer) -> (r: Result<RegistryDataPacketInternal, SerializingErr>) {
        let ghost d0 = *deserializer;
        let id = String::mc_deserialize(deserializer)?;
        let ghost d1 = *deserializer;
        proof {
            String::lemma_deserialize_len(d0.remaining());
            lemma_remaining_advance(d0, d1, (d1.index - d0.index) as nat);
        }
        let num_entries = read_varint(deserializer)?;
        let ghost d2 = *deserializer;
        proof {
            VarInt::lemma_deserialize_len(d1.remaining());
            lemma_remaining_advance(d1, d2, (d2.index - d1.index) as nat);
            assert(d1.remaining().skip((d2.index - d1.index) as int) == d0.remaining().skip(d2.index - d0.index));
        }
        let entries = read_registry_entries(deserializer, &id, num_entries.0)?;
        Ok(RegistryDataPacketInternal { registry_id: id, num_entries, entries })
    }
}

/// Whether registry data reads back as it was written: the count is the number of entries, and
/// each entry reads back from the registry's name.
pub open spec fn spec_registry_data_wf(v: <RegistryDataPacketInternal as DeepView>::V) -> bool {
    &&& v.1.0.0 == v.1.1.len()
    &&& forall|i: int| 0 <= i < v.1.1.len() ==> #[trigger] spec_registry_entry_wf(v.1.1[i], v.0)
}

#[verifier::spinoff_prover]
#[verifier::rlimit(40)]
proof fn lemma_registry_entries_round_trip(xs: Seq<<RegistryEntry as DeepView>::V>, registry_type: Seq<char>, rest: Seq<u8>)
    requires
        seq_can_serialize::<RegistryEntry>(xs),
        forall|i: int| 0 <= i < xs.len() ==> #[trigger] spec_registry_entry_wf(xs[i], registry_type),
    ensures
        spec_registry_entries_parse(seq_serialize::<RegistryEntry>(xs) + rest, registry_type, xs.len())
            == Ok::<(Seq<<RegistryEntry as DeepView>::V>, nat), ErrKind>((xs, seq_serialize::<RegistryEntry>(xs).len())),
    decreases xs.len(),
{
    if xs.len() > 0 {
        let init = xs.drop_last();
        let last = xs.last();
        let tail = RegistryEntry::spec_serialize(last) + rest;
        assert(seq_can_serialize::<RegistryEntry>(init)) by {
            assert forall|i: int| 0 <= i < init.len() implies #[trigger] RegistryEntry::spec_can_serialize(init[i]) by {
                assert(init[i] == xs[i]);
            }
        }
        assert forall|i: int| 0 <= i < init.len() implies #[trigger] spec_registry_entry_wf(init[i], registry_type) by {
            assert(init[i] == xs[i]);
        }
        assert(RegistryEntry::spec_can_serialize(xs[xs.len() - 1]));
        assert(spec_registry_entry_wf(xs[xs.len() - 1], registry_type));
        lemma_registry_entries_round_trip(init, registry_type, tail);
        assert(seq_serialize::<RegistryEntry>(xs) + rest == seq_serialize::<RegistryEntry>(init) + tail);
        let k = seq_serialize::<RegistryEntry>(init).len();
        assert((seq_serialize::<RegistryEntry>(init) + tail).skip(k as int) == tail);
        lemma_registry_entry_round_trip(last, registry_type, rest);
        assert(init.push(last) == xs);
    } else {
        assert(xs =~= Seq::<<RegistryEntry as DeepView>::V>::empty());
    }
}

/// Registry data whose count is its number of entries, each belonging to the registry, reads
/// back as it was written, whatever bytes follow.
pub proof fn lemma_registry_data_round_trip(v: <RegistryDataPacketInternal as DeepView>::V, rest: Seq<u8>)
    requires
        RegistryDataPacketInternal::spec_can_serialize(v),
        spec_registry_data_wf(v),
    ensures
        RegistryDataPacketInternal::spec_deserialize(RegistryDataPacketInternal::spec_serialize(v) + rest)
            == Ok::<(<RegistryDataPacketInternal as DeepView>::V, nat), ErrKind>((v, RegistryDataPacketInternal::spec_serialize(v).len())),
{
    let ib = String::spec_serialize(v.0);
    let nb = VarInt::spec_serialize(v.1.0);
    let eb = seq_serialize::<RegistryEntry>(v.1.1);
    let s = RegistryDataPacketInternal::spec_serialize(v) + rest;
    assert(s == ib + (nb + (eb + rest)));
    String::lemma_round_trip(v.0, nb + (eb + rest));
    assert(s.skip(ib.len() as int) == nb + (eb + rest));
    VarInt::lemma_round_trip(v.1.0, eb + rest);
    assert(s.skip((ib.len() + nb.len()) as int) == eb + rest);
    lemma_registry_entries_round_trip(v.1.1, v.0, rest);
}

impl McRoundTrip for RegistryDataPacketInternal {
    /// The count is the number of entries, and each entry belongs to the registry.
    open spec fn spec_well_formed(v: Self::V) -> bool {
        spec_registry_data_wf(v)
    }

    proof fn lemma_round_trip(v: Self::V, rest: Seq<u8>) {
        lemma_registry_data_round_trip(v, rest);
    }
}

} // verus!
