//! Packet parts about items.

use crate::protocol::serialization::serializer_types::{serialize_option, spec_option_bytes, PrefixedArray, PrefixedOptional};
use crate::protocol::serialization::var_int::{
    lemma_varint_round_trip, read_varint, spec_varint_bytes, spec_varint_parse, write_varint, VarInt,
};
use crate::protocol::serialization::{
    lemma_remaining_advance, ErrKind, McDeserialize, McDeserializer, McRoundTrip, McSerialize, McSerializer, ParseResult,
    SerializingErr,
};
use vstd::prelude::*;

verus! {

/// The icon type displayed on a map for a Map Icon entry.
#[derive(Debug, Clone, Copy, PartialEq, Eq, Structural, Hash)]
pub enum MapIconType {
    WhiteArrow,
    GreenArrow,
    RedArrow,
    BlueArrow,
    WhiteCross,
    RedPointer,
    WhiteCircle,
    SmallWhiteCircle,
    Mansion,
    Monument,
    WhiteBanner,
    OrangeBanner,
    MagentaBanner,
    LightBlueBanner,
    YellowBanner,
    LimeBanner,
    PinkBanner,
    GrayBanner,
    LightGrayBanner,
    CyanBanner,
    PurpleBanner,
    BlueBanner,
    BrownBanner,
    GreenBanner,
    RedBanner,
    BlackBanner,
    TreasureMarker,
    DesertVillage,
    PlainsVillage,
    SavannaVillage,
    SnowyVillage,
    TaigaVillage,
    JungleTemple,
    SwampHut,
    TrialChambers,
}

impl MapIconType {
    /// The number that stands for this value on the wire.
    pub open spec fn spec_code(self) -> int {
        match self {
            MapIconType::WhiteArrow => 0,
            MapIconType::GreenArrow => 1,
            MapIconType::RedArrow => 2,
            MapIconType::BlueArrow => 3,
            MapIconType::WhiteCross => 4,
            MapIconType::RedPointer => 5,
            MapIconType::WhiteCircle => 6,
            MapIconType::SmallWhiteCircle => 7,
            MapIconType::Mansion => 8,
            MapIconType::Monument => 9,
            MapIconType::WhiteBanner => 10,
            MapIconType::OrangeBanner => 11,
            MapIconType::MagentaBanner => 12,
            MapIconType::LightBlueBanner => 13,
            MapIconType::YellowBanner => 14,
            MapIconType::LimeBanner => 15,
            MapIconType::PinkBanner => 16,
            MapIconType::GrayBanner => 17,
            MapIconType::LightGrayBanner => 18,
            MapIconType::CyanBanner => 19,
            MapIconType::PurpleBanner => 20,
            MapIconType::BlueBanner => 21,
            MapIconType::BrownBanner => 22,
            MapIconType::GreenBanner => 23,
            MapIconType::RedBanner => 24,
            MapIconType::BlackBanner => 25,
            MapIconType::TreasureMarker => 26,
            MapIconType::DesertVillage => 27,
            MapIconType::PlainsVillage => 28,
            MapIconType::SavannaVillage => 29,
            MapIconType::SnowyVillage => 30,
            MapIconType::TaigaVillage => 31,
            MapIconType::JungleTemple => 32,
            MapIconType::SwampHut => 33,
            MapIconType::TrialChambers => 34,
        }
    }

    /// The value that the number `code` stands for, if any.
    pub open spec fn spec_from_code(code: int) -> Option<MapIconType> {
        if code == 0 {
            Some(MapIconType::WhiteArrow)
        } else if code == 1 {
            Some(MapIconType::GreenArrow)
        } else if code == 2 {
            Some(MapIconType::RedArrow)
        } else if code == 3 {
            Some(MapIconType::BlueArrow)
        } else if code == 4 {
            Some(MapIconType::WhiteCross)
        } else if code == 5 {
            Some(MapIconType::RedPointer)
        } else if code == 6 {
            Some(MapIconType::WhiteCircle)
        } else if code == 7 {
            Some(MapIconType::SmallWhiteCircle)
        } else if code == 8 {
            Some(MapIconType::Mansion)
        } else if code == 9 {
            Some(MapIconType::Monument)
        } else if code == 10 {
            Some(MapIconType::WhiteBanner)
        } else if code == 11 {
            Some(MapIconType::OrangeBanner)
        } else if code == 12 {
            Some(MapIconType::MagentaBanner)
        } else if code == 13 {
            Some(MapIconType::LightBlueBanner)
        } else if code == 14 {
            Some(MapIconType::YellowBanner)
        } else if code == 15 {
            Some(MapIconType::LimeBanner)
        } else if code == 16 {
            Some(MapIconType::PinkBanner)
        } else if code == 17 {
            Some(MapIconType::GrayBanner)
        } else if code == 18 {
            Some(MapIconType::LightGrayBanner)
        } else if code == 19 {
            Some(MapIconType::CyanBanner)
        } else if code == 20 {
            Some(MapIconType::PurpleBanner)
        } else if code == 21 {
            Some(MapIconType::BlueBanner)
        } else if code == 22 {
            Some(MapIconType::BrownBanner)
        } else if code == 23 {
            Some(MapIconType::GreenBanner)
        } else if code == 24 {
            Some(MapIconType::RedBanner)
        } else if code == 25 {
            Some(MapIconType::BlackBanner)
        } else if code == 26 {
            Some(MapIconType::TreasureMarker)
        } else if code == 27 {
            Some(MapIconType::DesertVillage)
        } else if code == 28 {
            Some(MapIconType::PlainsVillage)
        } else if code == 29 {
            Some(MapIconType::SavannaVillage)
        } else if code == 30 {
            Some(MapIconType::SnowyVillage)
        } else if code == 31 {
            Some(MapIconType::TaigaVillage)
        } else if code == 32 {
            Some(MapIconType::JungleTemple)
        } else if code == 33 {
            Some(MapIconType::SwampHut)
        } else if code == 34 {
            Some(MapIconType::TrialChambers)
        } else {
            None
        }
    }

    /// The number that stands for this value on the wire.
    pub fn code(&self) -> (c: i32)
        ensures
            c == self.spec_code(),
    {
        match self {
            MapIconType::WhiteArrow => 0,
            MapIconType::GreenArrow => 1,
            MapIconType::RedArrow => 2,
            MapIconType::BlueArrow => 3,
            MapIconType::WhiteCross => 4,
            MapIconType::RedPointer => 5,
            MapIconType::WhiteCircle => 6,
            MapIconType::SmallWhiteCircle => 7,
            MapIconType::Mansion => 8,
            MapIconType::Monument => 9,
            MapIconType::WhiteBanner => 10,
            MapIconType::OrangeBanner => 11,
            MapIconType::MagentaBanner => 12,
            MapIconType::LightBlueBanner => 13,
            MapIconType::YellowBanner => 14,
            MapIconType::LimeBanner => 15,
            MapIconType::PinkBanner => 16,
            MapIconType::GrayBanner => 17,
            MapIconType::LightGrayBanner => 18,
            MapIconType::CyanBanner => 19,
            MapIconType::PurpleBanner => 20,
            MapIconType::BlueBanner => 21,
            MapIconType::BrownBanner => 22,
            MapIconType::GreenBanner => 23,
            MapIconType::RedBanner => 24,
            MapIconType::BlackBanner => 25,
            MapIconType::TreasureMarker => 26,
            MapIconType::DesertVillage => 27,
            MapIconType::PlainsVillage => 28,
            MapIconType::SavannaVillage => 29,
            MapIconType::SnowyVillage => 30,
            MapIconType::TaigaVillage => 31,
            MapIconType::JungleTemple => 32,
            MapIconType::SwampHut => 33,
            MapIconType::TrialChambers => 34,
        }
    }

    /// The value that the number `code` stands for, if any.
    pub fn from_code(code: i32) -> (r: Option<MapIconType>)
        ensures
            r == MapIconType::spec_from_code(code as int),
    {
        match code {
            0 => Some(MapIconType::WhiteArrow),
            1 => Some(MapIconType::GreenArrow),
            2 => Some(MapIconType::RedArrow),
            3 => Some(MapIconType::BlueArrow),
            4 => Some(MapIconType::WhiteCross),
            5 => Some(MapIconType::RedPointer),
            6 => Some(MapIconType::WhiteCircle),
            7 => Some(MapIconType::SmallWhiteCircle),
            8 => Some(MapIconType::Mansion),
            9 => Some(MapIconType::Monument),
            10 => Some(MapIconType::WhiteBanner),
            11 => Some(MapIconType::OrangeBanner),
            12 => Some(MapIconType::MagentaBanner),
            13 => Some(MapIconType::LightBlueBanner),
            14 => Some(MapIconType::YellowBanner),
            15 => Some(MapIconType::LimeBanner),
            16 => Some(MapIconType::PinkBanner),
            17 => Some(MapIconType::GrayBanner),
            18 => Some(MapIconType::LightGrayBanner),
            19 => Some(MapIconType::CyanBanner),
            20 => Some(MapIconType::PurpleBanner),
            21 => Some(MapIconType::BlueBanner),
            22 => Some(MapIconType::BrownBanner),
            23 => Some(MapIconType::GreenBanner),
            24 => Some(MapIconType::RedBanner),
            25 => Some(MapIconType::BlackBanner),
            26 => Some(MapIconType::TreasureMarker),
            27 => Some(MapIconType::DesertVillage),
            28 => Some(MapIconType::PlainsVillage),
            29 => Some(MapIconType::SavannaVillage),
            30 => Some(MapIconType::SnowyVillage),
            31 => Some(MapIconType::TaigaVillage),
            32 => Some(MapIconType::JungleTemple),
            33 => Some(MapIconType::SwampHut),
            34 => Some(MapIconType::TrialChambers),
            _ => None,
        }
    }
}

impl DeepView for MapIconType {
    type V = MapIconType;

    open spec fn deep_view(&self) -> MapIconType {
        *self
    }
}

impl McSerialize for MapIconType {
    open spec fn spec_serialize(v: MapIconType) -> Seq<u8> {
        spec_varint_bytes(v.spec_code() as i32)
    }

    open spec fn spec_can_serialize(v: MapIconType) -> bool {
        true
    }

    fn mc_serialize(&self, serializer: &mut McSerializer) -> (r: Result<(), SerializingErr>) {
        write_varint(&mut serializer.output, self.code());
        Ok(())
    }
}

impl McDeserialize for MapIconType {
    /// The number, then the value it stands for; an unknown number is refused.
    open spec fn spec_deserialize(s: Seq<u8>) -> ParseResult<MapIconType> {
        match spec_varint_parse(s) {
            Ok((x, n)) => match MapIconType::spec_from_code(x.0 as int) {
                Some(v) => Ok((v, n)),
                None => Err(ErrKind::InvalidEnumValue(x.0 as i8)),
            },
            Err(e) => Err(e),
        }
    }

    proof fn lemma_deserialize_len(s: Seq<u8>) {
        VarInt::lemma_deserialize_len(s);
    }

    fn mc_deserialize(deserializer: &mut McDeserializer) -> (r: Result<MapIconType, SerializingErr>) {
        let code = read_varint(deserializer)?.0;
        match MapIconType::from_code(code) {
            Some(v) => Ok(v),
            None => Err(SerializingErr::InvalidEnumValue(#[verifier::truncate] (code as i8))),
        }
    }
}

impl McRoundTrip for MapIconType {
    open spec fn spec_well_formed(v: MapIconType) -> bool {
        true
    }

    proof fn lemma_round_trip(v: MapIconType, rest: Seq<u8>) {
        lemma_varint_round_trip(v.spec_code() as i32, rest);
    }
}

/// The fields of [`TrimMaterialOverride`] as they are sent, in order.
pub type TrimMaterialOverrideFields = (String, String);

/// How a trim material looks on one armor material.
#[derive(Debug, Clone, PartialEq)]
pub struct TrimMaterialOverride {
    pub armor_material: String,
    pub asset_name: String,
}

impl DeepView for TrimMaterialOverride {
    type V = <TrimMaterialOverrideFields as DeepView>::V;

    open spec fn deep_view(&self) -> Self::V {
        (self.armor_material.deep_view(), self.asset_name.deep_view())
    }
}

impl McSerialize for TrimMaterialOverride {
    open spec fn spec_serialize(v: Self::V) -> Seq<u8> {
        TrimMaterialOverrideFields::spec_serialize(v)
    }

    open spec fn spec_can_serialize(v: Self::V) -> bool {
        TrimMaterialOverrideFields::spec_can_serialize(v)
    }

    fn mc_serialize(&self, serializer: &mut McSerializer) -> (r: Result<(), SerializingErr>) {
        let _ = self.armor_material.mc_serialize(serializer);
        let _ = self.asset_name.mc_serialize(serializer);
        assert(serializer.output@ == old(serializer).output@ + Self::spec_serialize(self.deep_view()));
        Ok(())
    }
}

impl McDeserialize for TrimMaterialOverride {
    open spec fn spec_deserialize(s: Seq<u8>) -> ParseResult<Self::V> {
        TrimMaterialOverrideFields::spec_deserialize(s)
    }

    proof fn lemma_deserialize_len(s: Seq<u8>) {
        TrimMaterialOverrideFields::lemma_deserialize_len(s);
    }

    fn mc_deserialize(deserializer: &mut McDeserializer) -> (r: Result<TrimMaterialOverride, SerializingErr>) {
        let (armor_material, asset_name) = TrimMaterialOverrideFields::mc_deserialize(deserializer)?;
        Ok(TrimMaterialOverride { armor_material, asset_name })
    }
}

impl McRoundTrip for TrimMaterialOverride {
    open spec fn spec_well_formed(v: Self::V) -> bool {
        TrimMaterialOverrideFields::spec_well_formed(v)
    }

    proof fn lemma_round_trip(v: Self::V, rest: Seq<u8>) {
        TrimMaterialOverrideFields::lemma_round_trip(v, rest);
    }
}

/// The fields of [`BannerPatternDef`] as they are sent, in order.
pub type BannerPatternDefFields = (String, String);

/// A banner pattern given inline.
#[derive(Debug, Clone, PartialEq)]
pub struct BannerPatternDef {
    pub asset_id: String,
    pub translation_key: String,
}

impl DeepView for BannerPatternDef {
    type V = <BannerPatternDefFields as DeepView>::V;

    open spec fn deep_view(&self) -> Self::V {
        (self.asset_id.deep_view(), self.translation_key.deep_view())
    }
}

impl McSerialize for BannerPatternDef {
    open spec fn spec_serialize(v: Self::V) -> Seq<u8> {
        BannerPatternDefFields::spec_serialize(v)
    }

    open spec fn spec_can_serialize(v: Self::V) -> bool {
        BannerPatternDefFields::spec_can_serialize(v)
    }

    fn mc_serialize(&self, serializer: &mut McSerializer) -> (r: Result<(), SerializingErr>) {
        let _ = self.asset_id.mc_serialize(serializer);
        let _ = self.translation_key.mc_serialize(serializer);
        assert(serializer.output@ == old(serializer).output@ + Self::spec_serialize(self.deep_view()));
        Ok(())
    }
}

impl McDeserialize for BannerPatternDef {
    open spec fn spec_deserialize(s: Seq<u8>) -> ParseResult<Self::V> {
        BannerPatternDefFields::spec_deserialize(s)
    }

    proof fn lemma_deserialize_len(s: Seq<u8>) {
        BannerPatternDefFields::lemma_deserialize_len(s);
    }

    fn mc_deserialize(deserializer: &mut McDeserializer) -> (r: Result<BannerPatternDef, SerializingErr>) {
        let (asset_id, translation_key) = BannerPatternDefFields::mc_deserialize(deserializer)?;
        Ok(BannerPatternDef { asset_id, translation_key })
    }
}

impl McRoundTrip for BannerPatternDef {
    open spec fn spec_well_formed(v: Self::V) -> bool {
        BannerPatternDefFields::spec_well_formed(v)
    }

    proof fn lemma_round_trip(v: Self::V, rest: Seq<u8>) {
        BannerPatternDefFields::lemma_round_trip(v, rest);
    }
}

/// An id in a registry, or a value given inline, as sent: 0 then the value for an inline one,
/// the id plus one for a registry one.
#[derive(Debug, Clone, PartialEq)]
pub enum IdOrBannerPattern {
    Registry(VarInt),
    Inline(BannerPatternDef),
}

/// The model of an id or an inline value.
pub enum IdOrModel<X> {
    Registry(i32),
    Inline(X),
}

impl DeepView for IdOrBannerPattern {
    type V = IdOrModel<<BannerPatternDef as DeepView>::V>;

    open spec fn deep_view(&self) -> Self::V {
        match self {
            IdOrBannerPattern::Registry(id) => IdOrModel::Registry(id.0),
            IdOrBannerPattern::Inline(x) => IdOrModel::Inline(x.deep_view()),
        }
    }
}

impl McSerialize for IdOrBannerPattern {
    open spec fn spec_serialize(v: Self::V) -> Seq<u8> {
        match v {
            IdOrModel::Registry(id) => spec_varint_bytes((id + 1) as i32),
            IdOrModel::Inline(x) => spec_varint_bytes(0) + BannerPatternDef::spec_serialize(x),
        }
    }

    /// A registry id must leave room to add one.
    open spec fn spec_can_serialize(v: Self::V) -> bool {
        match v {
            IdOrModel::Registry(id) => id < i32::MAX,
            IdOrModel::Inline(x) => BannerPatternDef::spec_can_serialize(x),
        }
    }

    fn mc_serialize(&self, serializer: &mut McSerializer) -> (r: Result<(), SerializingErr>) {
        match self {
            IdOrBannerPattern::Registry(id) => {
                write_varint(&mut serializer.output, id.0 + 1);
            },
            IdOrBannerPattern::Inline(pattern) => {
                write_varint(&mut serializer.output, 0);
                let _ = pattern.mc_serialize(serializer);
            },
        }
        Ok(())
    }
}

impl McDeserialize for IdOrBannerPattern {
    /// 0 is followed by an inline value; any other number is a registry id plus one (the number
    /// below the least one wraps around).
    open spec fn spec_deserialize(s: Seq<u8>) -> ParseResult<Self::V> {
        match spec_varint_parse(s) {
            Ok((typ, n)) => if typ.0 == 0 {
                match BannerPatternDef::spec_deserialize(s.skip(n as int)) {
                    Ok((x, m)) => Ok((IdOrModel::Inline(x), n + m)),
                    Err(e) => Err(e),
                }
            } else {
                Ok((IdOrModel::Registry(if typ.0 == i32::MIN { i32::MAX } else { (typ.0 - 1) as i32 }), n))
            },
            Err(e) => Err(e),
        }
    }

    proof fn lemma_deserialize_len(s: Seq<u8>) {
        VarInt::lemma_deserialize_len(s);
        if let Ok((typ, n)) = spec_varint_parse(s) {
            BannerPatternDef::lemma_deserialize_len(s.skip(n as int));
        }
    }

    fn mc_deserialize(deserializer: &mut McDeserializer) -> (r: Result<IdOrBannerPattern, SerializingErr>) {
        let ghost d0 = *deserializer;
        let typ = read_varint(deserializer)?.0;
        if typ == 0 {
            proof {
                VarInt::lemma_deserialize_len(d0.remaining());
                lemma_remaining_advance(d0, *deserializer, (deserializer.index - d0.index) as nat);
            }
            Ok(IdOrBannerPattern::Inline(BannerPatternDef::mc_deserialize(deserializer)?))
        } else {
            Ok(IdOrBannerPattern::Registry(VarInt(typ.wrapping_sub(1))))
        }
    }
}

impl McRoundTrip for IdOrBannerPattern {
    /// A registry id is not negative: the id -1 would be sent as 0 and read back as an inline
    /// value.
    open spec fn spec_well_formed(v: Self::V) -> bool {
        match v {
            IdOrModel::Registry(id) => 0 <= id,
            IdOrModel::Inline(x) => BannerPatternDef::spec_well_formed(x),
        }
    }

    proof fn lemma_round_trip(v: Self::V, rest: Seq<u8>) {
        match v {
            IdOrModel::Registry(id) => {
                lemma_varint_round_trip((id + 1) as i32, rest);
            },
            IdOrModel::Inline(x) => {
                let xb = BannerPatternDef::spec_serialize(x);
                lemma_varint_round_trip(0, xb + rest);
                let s = Self::spec_serialize(v) + rest;
                assert(s == spec_varint_bytes(0) + (xb + rest));
                assert(s.skip(spec_varint_bytes(0).len() as int) == xb + rest);
                BannerPatternDef::lemma_round_trip(x, rest);
            },
        }
    }
}

/// A patch of map colors: how many columns it has; for a patch whose column count is 0, the
/// rows, where it starts, and the colors follow.
#[derive(Debug, Clone, PartialEq)]
pub struct MapColorPatch {
    pub columns: u8,
    pub rows: Option<u8>,
    pub color_x: Option<u8>,
    pub color_z: Option<u8>,
    pub data: Option<PrefixedArray<u8>>,
}

/// The fields of a map color patch after the column count, in order.
pub type MapColorPatchRest = (u8, (u8, (u8, PrefixedArray<u8>)));

impl DeepView for MapColorPatch {
    type V = (u8, (Option<u8>, (Option<u8>, (Option<u8>, Option<Seq<u8>>))));

    open spec fn deep_view(&self) -> Self::V {
        (self.columns, (self.rows, (self.color_x, (self.color_z, self.data.deep_view()))))
    }
}

/// The bytes of the fields of a map color patch after the column count: those present, in order.
pub open spec fn spec_map_patch_rest_bytes(v: <MapColorPatch as DeepView>::V) -> Seq<u8> {
    spec_option_bytes::<u8>(v.1.0) + spec_option_bytes::<u8>(v.1.1.0) + spec_option_bytes::<u8>(v.1.1.1.0)
        + spec_option_bytes::<PrefixedArray<u8>>(v.1.1.1.1)
}

impl McSerialize for MapColorPatch {
    /// The column count, then each of the other fields that is present.
    open spec fn spec_serialize(v: Self::V) -> Seq<u8> {
        u8::spec_serialize(v.0) + spec_map_patch_rest_bytes(v)
    }

    open spec fn spec_can_serialize(v: Self::V) -> bool {
        v.1.1.1.1 matches Some(d) ==> PrefixedArray::<u8>::spec_can_serialize(d)
    }

    fn mc_serialize(&self, serializer: &mut McSerializer) -> (r: Result<(), SerializingErr>) {
        let ghost s0 = serializer.output@;
        let _ = self.columns.mc_serialize(serializer);
        serialize_option(&self.rows, serializer);
        serialize_option(&self.color_x, serializer);
        serialize_option(&self.color_z, serializer);
        serialize_option(&self.data, serializer);
        assert(serializer.output@ == s0 + Self::spec_serialize(self.deep_view()));
        Ok(())
    }
}

impl McDeserialize for MapColorPatch {
    /// The column count; when it is 0, the rows, the start and the colors follow.
    open spec fn spec_deserialize(s: Seq<u8>) -> ParseResult<Self::V> {
        match u8::spec_deserialize(s) {
            Err(e) => Err(e),
            Ok((columns, n1)) => if columns == 0 {
                match MapColorPatchRest::spec_deserialize(s.skip(n1 as int)) {
                    Err(e) => Err(e),
                    Ok(((r, (x, (z, d))), n2)) => Ok(((columns, (Some(r), (Some(x), (Some(z), Some(d))))), n1 + n2)),
                }
            } else {
                Ok(((columns, (None::<u8>, (None::<u8>, (None::<u8>, None::<Seq<u8>>)))), n1))
            },
        }
    }

    proof fn lemma_deserialize_len(s: Seq<u8>) {
        u8::lemma_deserialize_len(s);
        if let Ok((columns, n1)) = u8::spec_deserialize(s) {
            MapColorPatchRest::lemma_deserialize_len(s.skip(n1 as int));
        }
    }

    fn mc_deserialize(deserializer: &mut McDeserializer) -> (r: Result<MapColorPatch, SerializingErr>) {
        let ghost d0 = *deserializer;
        let columns = u8::mc_deserialize(deserializer)?;
        proof {
            u8::lemma_deserialize_len(d0.remaining());
            lemma_remaining_advance(d0, *deserializer, (deserializer.index - d0.index) as nat);
        }
        if columns == 0 {
            let (rows, (color_x, (color_z, data))) = MapColorPatchRest::mc_deserialize(deserializer)?;
            Ok(MapColorPatch { columns, rows: Some(rows), color_x: Some(color_x), color_z: Some(color_z), data: Some(data) })
        } else {
            Ok(MapColorPatch { columns, rows: None, color_x: None, color_z: None, data: None })
        }
    }
}

impl McRoundTrip for MapColorPatch {
    /// The other fields are present exactly when the column count is 0.
    open spec fn spec_well_formed(v: Self::V) -> bool {
        &&& (v.0 == 0) == v.1.0 is Some
        &&& (v.0 == 0) == v.1.1.0 is Some
        &&& (v.0 == 0) == v.1.1.1.0 is Some
        &&& (v.0 == 0) == v.1.1.1.1 is Some
    }

    proof fn lemma_round_trip(v: Self::V, rest: Seq<u8>) {
        let cb = u8::spec_serialize(v.0);
        let rb = spec_map_patch_rest_bytes(v);
        let s = Self::spec_serialize(v) + rest;
        assert(s == cb + (rb + rest));
        u8::lemma_round_trip(v.0, rb + rest);
        assert(s.skip(cb.len() as int) == rb + rest);
        if v.0 == 0 {
            let w = (v.1.0.unwrap(), (v.1.1.0.unwrap(), (v.1.1.1.0.unwrap(), v.1.1.1.1.unwrap())));
            assert(rb == MapColorPatchRest::spec_serialize(w));
            MapColorPatchRest::lemma_round_trip(w, rest);
        } else {
            assert(rb + rest == rest);
        }
    }
}

} // verus!
