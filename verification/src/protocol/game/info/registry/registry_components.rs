//! Nested registry components, sent as NBT compounds.

use crate::protocol::serialization::{
    ErrKind, McDeserialize, McDeserializer, McRoundTrip, McSerialize, McSerializer, ParseResult,
    SerializingErr,
};
use crate::protocol_types::datatypes::nbt::{
    lemma_lookup_insert, spec_insert, spec_lookup, tag_model, NbtCompound, NbtTag, NbtValue,
};
use crate::protocol_types::datatypes::nbt_fields::{
    dec_bool, dec_f32, dec_f64, dec_i32, dec_i64, dec_i8, dec_opt_i64, dec_opt_str, dec_str, get_bool,
    get_f32, get_f64, get_i32, get_i64, get_i8, get_opt_i64, get_opt_str, get_str,
};
use vstd::prelude::*;

verus! {

/// A translated text with an optional color, used by some registry entries such as
/// painting variants.
#[derive(Debug, Clone, PartialEq)]
pub struct NbtTranslateColor {
    pub color: Option<String>,
    pub translate: String,
}

impl DeepView for NbtTranslateColor {
    type V = (Option<Seq<char>>, Seq<char>);

    open spec fn deep_view(&self) -> Self::V {
        (self.color.deep_view(), self.translate@)
    }
}

impl NbtTranslateColor {
    /// The entries of the compound that stands for a value: one per field, in order, with absent
    /// optional fields left out.
    pub open spec fn spec_to_entries(v: <NbtTranslateColor as DeepView>::V) -> Seq<(Seq<char>, NbtValue)> {
        let e0 = Seq::<(Seq<char>, NbtValue)>::empty();
        let e1 = match v.0 { Some(x) => spec_insert(e0, "color"@, NbtValue::Str(x)), None => e0 };
        let e2 = spec_insert(e1, "translate"@, NbtValue::Str(v.1));
        e2
    }

    /// The value that compound entries stand for, if every field is there with its type.
    pub open spec fn spec_from_entries(es: Seq<(Seq<char>, NbtValue)>) -> Option<<NbtTranslateColor as DeepView>::V> {
        match dec_opt_str(es, "color"@) {
            Some(x0) =>
            match dec_str(es, "translate"@) {
                Some(x1) =>
                    Some((x0, x1)),
                None => None,
            },
            None => None,
        }
    }

    /// The compound that stands for this value. Useful for serializing.
    pub fn to_nbt(&self) -> (c: NbtCompound)
        ensures
            c.deep_view() == (None::<Seq<char>>, Self::spec_to_entries(self.deep_view())),
    {
        let mut nbt = NbtCompound::new(None);
        if let Some(x) = &self.color {
            nbt.add("color".to_owned(), NbtTag::Str(x.clone()));
        }
        nbt.add("translate".to_owned(), NbtTag::Str(self.translate.clone()));
        nbt
    }

    /// The value a compound stands for. Useful for deserializing. A field that is missing,
    /// or is not of its type, is refused.
    pub fn from_nbt(nbt: &NbtCompound) -> (r: Result<Self, SerializingErr>)
        ensures
            match Self::spec_from_entries(nbt.deep_view().1) {
                Some(v) => r matches Ok(x) && x.deep_view() == v,
                None => r matches Err(e) && e.kind() == ErrKind::NbtMissingField,
            },
    {
        let name = "color".to_owned();
        let color = match get_opt_str(nbt, &name) {
            Some(x) => x,
            None => return Err(SerializingErr::NbtMissingField(name)),
        };
        let name = "translate".to_owned();
        let translate = match get_str(nbt, &name) {
            Some(x) => x,
            None => return Err(SerializingErr::NbtMissingField(name)),
        };
        Ok(NbtTranslateColor { color, translate })
    }
}

/// A NbtTranslateColor turned into a compound and back is the same value.
pub proof fn lemma_nbt_translate_color_nbt_round_trip(v: <NbtTranslateColor as DeepView>::V)
    ensures
        NbtTranslateColor::spec_from_entries(NbtTranslateColor::spec_to_entries(v)) == Some(v),
{
    reveal_strlit("color");
    reveal_strlit("translate");
    assert("color"@.len() == 5);
    assert("translate"@.len() == 9);
    assert("color"@ != "translate"@);
    let e0 = Seq::<(Seq<char>, NbtValue)>::empty();
    let e1 = match v.0 { Some(x) => spec_insert(e0, "color"@, NbtValue::Str(x)), None => e0 };
    let e2 = spec_insert(e1, "translate"@, NbtValue::Str(v.1));
    if let Some(x) = v.0 { lemma_lookup_insert(e0, "color"@, NbtValue::Str(x), "color"@); }
    lemma_lookup_insert(e1, "translate"@, NbtValue::Str(v.1), "color"@);
    assert(spec_lookup(e0, "color"@) is None);
    assert(dec_opt_str(e2, "color"@) == Some(v.0));
    if let Some(x) = v.0 { lemma_lookup_insert(e0, "color"@, NbtValue::Str(x), "translate"@); }
    lemma_lookup_insert(e1, "translate"@, NbtValue::Str(v.1), "translate"@);
    assert(dec_str(e2, "translate"@) == Some(v.1));
    assert(e2 == NbtTranslateColor::spec_to_entries(v));
}

/// The text with color stored as the entry `name`, if it is there and is a compound that stands
/// for one.
pub open spec fn dec_color(es: Seq<(Seq<char>, NbtValue)>, name: Seq<char>) -> Option<<NbtTranslateColor as DeepView>::V> {
    match spec_lookup(es, name) {
        Some(NbtValue::Compound(ces)) => NbtTranslateColor::spec_from_entries(ces),
        _ => None,
    }
}

pub fn get_color(nbt: &NbtCompound, name: &String) -> (r: Option<NbtTranslateColor>)
    ensures
        r.deep_view() == dec_color(nbt.deep_view().1, name@),
{
    match nbt.get(name) {
        Some(NbtTag::Compound(c)) => match NbtTranslateColor::from_nbt(c) {
            Ok(x) => Some(x),
            Err(_) => None,
        },
        _ => None,
    }
}

/// Music that plays in a biome: the sound, the delays between plays, and whether it replaces the music playing.
#[derive(Debug, Clone, PartialEq)]
pub struct BiomeMusic {
    pub max_delay: i32,
    pub min_delay: i32,
    pub replace_current_music: bool,
    pub sound: String,
}

impl DeepView for BiomeMusic {
    type V = (i32, (i32, (bool, Seq<char>)));

    open spec fn deep_view(&self) -> Self::V {
        (self.max_delay, (self.min_delay, (self.replace_current_music, self.sound@)))
    }
}

impl BiomeMusic {
    /// The entries of the compound that stands for a value: one per field, in order, with absent
    /// optional fields left out.
    pub open spec fn spec_to_entries(v: <BiomeMusic as DeepView>::V) -> Seq<(Seq<char>, NbtValue)> {
        let e0 = Seq::<(Seq<char>, NbtValue)>::empty();
        let e1 = spec_insert(e0, "max_delay"@, NbtValue::Int(v.0));
        let e2 = spec_insert(e1, "min_delay"@, NbtValue::Int(v.1.0));
        let e3 = spec_insert(e2, "replace_current_music"@, NbtValue::Byte(if v.1.1.0 { 1i8 } else { 0i8 }));
        let e4 = spec_insert(e3, "sound"@, NbtValue::Str(v.1.1.1));
        e4
    }

    /// The value that compound entries stand for, if every field is there with its type.
    pub open spec fn spec_from_entries(es: Seq<(Seq<char>, NbtValue)>) -> Option<<BiomeMusic as DeepView>::V> {
        match dec_i32(es, "max_delay"@) {
            Some(x0) =>
            match dec_i32(es, "min_delay"@) {
                Some(x1) =>
                match dec_bool(es, "replace_current_music"@) {
                    Some(x2) =>
                    match dec_str(es, "sound"@) {
                        Some(x3) =>
                            Some((x0, (x1, (x2, x3)))),
                        None => None,
                    },
                    None => None,
                },
                None => None,
            },
            None => None,
        }
    }

    pub fn new(max_delay: i32, min_delay: i32, replace_current_music: bool, sound: String) -> (r: Self)
        ensures
            r == (BiomeMusic { max_delay, min_delay, replace_current_music, sound }),
    {
        BiomeMusic { max_delay, min_delay, replace_current_music, sound }
    }

    /// The compound that stands for this value. Useful for serializing.
    pub fn to_nbt(&self) -> (c: NbtCompound)
        ensures
            c.deep_view() == (None::<Seq<char>>, Self::spec_to_entries(self.deep_view())),
    {
        let mut nbt = NbtCompound::new(None);
        nbt.add("max_delay".to_owned(), NbtTag::Int(self.max_delay));
        nbt.add("min_delay".to_owned(), NbtTag::Int(self.min_delay));
        nbt.add("replace_current_music".to_owned(), NbtTag::Byte(if self.replace_current_music { 1 } else { 0 }));
        nbt.add("sound".to_owned(), NbtTag::Str(self.sound.clone()));
        nbt
    }

    /// The value a compound stands for. Useful for deserializing. A field that is missing,
    /// or is not of its type, is refused.
    pub fn from_nbt(nbt: &NbtCompound) -> (r: Result<Self, SerializingErr>)
        ensures
            match Self::spec_from_entries(nbt.deep_view().1) {
                Some(v) => r matches Ok(x) && x.deep_view() == v,
                None => r matches Err(e) && e.kind() == ErrKind::NbtMissingField,
            },
    {
        let name = "max_delay".to_owned();
        let max_delay = match get_i32(nbt, &name) {
            Some(x) => x,
            None => return Err(SerializingErr::NbtMissingField(name)),
        };
        let name = "min_delay".to_owned();
        let min_delay = match get_i32(nbt, &name) {
            Some(x) => x,
            None => return Err(SerializingErr::NbtMissingField(name)),
        };
        let name = "replace_current_music".to_owned();
        let replace_current_music = match get_bool(nbt, &name) {
            Some(x) => x,
            None => return Err(SerializingErr::NbtMissingField(name)),
        };
        let name = "sound".to_owned();
        let sound = match get_str(nbt, &name) {
            Some(x) => x,
            None => return Err(SerializingErr::NbtMissingField(name)),
        };
        Ok(BiomeMusic { max_delay, min_delay, replace_current_music, sound })
    }
}

/// A BiomeMusic turned into a compound and back is the same value.
pub proof fn lemma_biome_music_nbt_round_trip(v: <BiomeMusic as DeepView>::V)
    ensures
        BiomeMusic::spec_from_entries(BiomeMusic::spec_to_entries(v)) == Some(v),
{
    reveal_strlit("max_delay");
    reveal_strlit("min_delay");
    reveal_strlit("replace_current_music");
    reveal_strlit("sound");
    assert("max_delay"@.len() == 9);
    assert("min_delay"@.len() == 9);
    assert("replace_current_music"@.len() == 21);
    assert("sound"@.len() == 5);
    assert("max_delay"@[1] != "min_delay"@[1]);
    assert("max_delay"@ != "min_delay"@);
    assert("max_delay"@ != "replace_current_music"@);
    assert("max_delay"@ != "sound"@);
    assert("min_delay"@ != "replace_current_music"@);
    assert("min_delay"@ != "sound"@);
    assert("replace_current_music"@ != "sound"@);
    let e0 = Seq::<(Seq<char>, NbtValue)>::empty();
    let e1 = spec_insert(e0, "max_delay"@, NbtValue::Int(v.0));
    let e2 = spec_insert(e1, "min_delay"@, NbtValue::Int(v.1.0));
    let e3 = spec_insert(e2, "replace_current_music"@, NbtValue::Byte(if v.1.1.0 { 1i8 } else { 0i8 }));
    let e4 = spec_insert(e3, "sound"@, NbtValue::Str(v.1.1.1));
    lemma_lookup_insert(e0, "max_delay"@, NbtValue::Int(v.0), "max_delay"@);
    lemma_lookup_insert(e1, "min_delay"@, NbtValue::Int(v.1.0), "max_delay"@);
    lemma_lookup_insert(e2, "replace_current_music"@, NbtValue::Byte(if v.1.1.0 { 1i8 } else { 0i8 }), "max_delay"@);
    lemma_lookup_insert(e3, "sound"@, NbtValue::Str(v.1.1.1), "max_delay"@);
    assert(dec_i32(e4, "max_delay"@) == Some(v.0));
    lemma_lookup_insert(e0, "max_delay"@, NbtValue::Int(v.0), "min_delay"@);
    lemma_lookup_insert(e1, "min_delay"@, NbtValue::Int(v.1.0), "min_delay"@);
    lemma_lookup_insert(e2, "replace_current_music"@, NbtValue::Byte(if v.1.1.0 { 1i8 } else { 0i8 }), "min_delay"@);
    lemma_lookup_insert(e3, "sound"@, NbtValue::Str(v.1.1.1), "min_delay"@);
    assert(dec_i32(e4, "min_delay"@) == Some(v.1.0));
    lemma_lookup_insert(e0, "max_delay"@, NbtValue::Int(v.0), "replace_current_music"@);
    lemma_lookup_insert(e1, "min_delay"@, NbtValue::Int(v.1.0), "replace_current_music"@);
    lemma_lookup_insert(e2, "replace_current_music"@, NbtValue::Byte(if v.1.1.0 { 1i8 } else { 0i8 }), "replace_current_music"@);
    lemma_lookup_insert(e3, "sound"@, NbtValue::Str(v.1.1.1), "replace_current_music"@);
    assert(dec_bool(e4, "replace_current_music"@) == Some(v.1.1.0));
    lemma_lookup_insert(e0, "max_delay"@, NbtValue::Int(v.0), "sound"@);
    lemma_lookup_insert(e1, "min_delay"@, NbtValue::Int(v.1.0), "sound"@);
    lemma_lookup_insert(e2, "replace_current_music"@, NbtValue::Byte(if v.1.1.0 { 1i8 } else { 0i8 }), "sound"@);
    lemma_lookup_insert(e3, "sound"@, NbtValue::Str(v.1.1.1), "sound"@);
    assert(dec_str(e4, "sound"@) == Some(v.1.1.1));
    assert(e4 == BiomeMusic::spec_to_entries(v));
}

impl McSerialize for BiomeMusic {
    /// Sent as the compound that stands for it.
    open spec fn spec_serialize(v: Self::V) -> Seq<u8> {
        NbtCompound::spec_serialize((None::<Seq<char>>, Self::spec_to_entries(v)))
    }

    open spec fn spec_can_serialize(v: Self::V) -> bool {
        NbtCompound::spec_can_serialize((None::<Seq<char>>, Self::spec_to_entries(v)))
    }

    fn mc_serialize(&self, serializer: &mut McSerializer) -> (r: Result<(), SerializingErr>) {
        self.to_nbt().mc_serialize(serializer)
    }
}

impl McDeserialize for BiomeMusic {
    open spec fn spec_deserialize(s: Seq<u8>) -> ParseResult<Self::V> {
        match NbtCompound::spec_deserialize(s) {
            Ok((c, n)) => match Self::spec_from_entries(c.1) {
                Some(v) => Ok((v, n)),
                None => Err(ErrKind::NbtMissingField),
            },
            Err(e) => Err(e),
        }
    }

    proof fn lemma_deserialize_len(s: Seq<u8>) {
        NbtCompound::lemma_deserialize_len(s);
    }

    fn mc_deserialize(deserializer: &mut McDeserializer) -> (r: Result<BiomeMusic, SerializingErr>) {
        let nbt = NbtCompound::mc_deserialize(deserializer)?;
        Self::from_nbt(&nbt)
    }
}

impl McRoundTrip for BiomeMusic {
    open spec fn spec_well_formed(v: Self::V) -> bool {
        true
    }

    proof fn lemma_round_trip(v: Self::V, rest: Seq<u8>) {
        NbtCompound::lemma_round_trip((None::<Seq<char>>, Self::spec_to_entries(v)), rest);
        lemma_biome_music_nbt_round_trip(v);
    }
}

/// The BiomeMusic stored as the entry `name`, if it is there and is a compound that stands for one.
pub open spec fn dec_biome_music(es: Seq<(Seq<char>, NbtValue)>, name: Seq<char>) -> Option<<BiomeMusic as DeepView>::V> {
    match spec_lookup(es, name) {
        Some(NbtValue::Compound(ces)) => BiomeMusic::spec_from_entries(ces),
        _ => None,
    }
}

pub fn get_biome_music(nbt: &NbtCompound, name: &String) -> (r: Option<BiomeMusic>)
    ensures
        r.deep_view() == dec_biome_music(nbt.deep_view().1, name@),
{
    match nbt.get(name) {
        Some(NbtTag::Compound(c)) => match BiomeMusic::from_nbt(c) {
            Ok(x) => Some(x),
            Err(_) => None,
        },
        _ => None,
    }
}

/// A piece of biome music and how likely it is chosen.
#[derive(Debug, Clone, PartialEq)]
pub struct BiomeMusicData {
    pub data: BiomeMusic,
    pub weight: i32,
}

impl DeepView for BiomeMusicData {
    type V = (<BiomeMusic as DeepView>::V, i32);

    open spec fn deep_view(&self) -> Self::V {
        (self.data.deep_view(), self.weight)
    }
}

impl BiomeMusicData {
    /// The entries of the compound that stands for a value: one per field, in order, with absent
    /// optional fields left out.
    pub open spec fn spec_to_entries(v: <BiomeMusicData as DeepView>::V) -> Seq<(Seq<char>, NbtValue)> {
        let e0 = Seq::<(Seq<char>, NbtValue)>::empty();
        let e1 = spec_insert(e0, "data"@, NbtValue::Compound(BiomeMusic::spec_to_entries(v.0)));
        let e2 = spec_insert(e1, "weight"@, NbtValue::Int(v.1));
        e2
    }

    /// The value that compound entries stand for, if every field is there with its type.
    pub open spec fn spec_from_entries(es: Seq<(Seq<char>, NbtValue)>) -> Option<<BiomeMusicData as DeepView>::V> {
        match dec_biome_music(es, "data"@) {
            Some(x0) =>
            match dec_i32(es, "weight"@) {
                Some(x1) =>
                    Some((x0, x1)),
                None => None,
            },
            None => None,
        }
    }

    pub fn new(data: BiomeMusic, weight: i32) -> (r: Self)
        ensures
            r == (BiomeMusicData { data, weight }),
    {
        BiomeMusicData { data, weight }
    }

    /// The compound that stands for this value. Useful for serializing.
    pub fn to_nbt(&self) -> (c: NbtCompound)
        ensures
            c.deep_view() == (None::<Seq<char>>, Self::spec_to_entries(self.deep_view())),
    {
        let mut nbt = NbtCompound::new(None);
        nbt.add("data".to_owned(), NbtTag::Compound(self.data.to_nbt()));
        nbt.add("weight".to_owned(), NbtTag::Int(self.weight));
        nbt
    }

    /// The value a compound stands for. Useful for deserializing. A field that is missing,
    /// or is not of its type, is refused.
    pub fn from_nbt(nbt: &NbtCompound) -> (r: Result<Self, SerializingErr>)
        ensures
            match Self::spec_from_entries(nbt.deep_view().1) {
                Some(v) => r matches Ok(x) && x.deep_view() == v,
                None => r matches Err(e) && e.kind() == ErrKind::NbtMissingField,
            },
    {
        let name = "data".to_owned();
        let data = match get_biome_music(nbt, &name) {
            Some(x) => x,
            None => return Err(SerializingErr::NbtMissingField(name)),
        };
        let name = "weight".to_owned();
        let weight = match get_i32(nbt, &name) {
            Some(x) => x,
            None => return Err(SerializingErr::NbtMissingField(name)),
        };
        Ok(BiomeMusicData { data, weight })
    }
}

/// A BiomeMusicData turned into a compound and back is the same value.
pub proof fn lemma_biome_music_data_nbt_round_trip(v: <BiomeMusicData as DeepView>::V)
    ensures
        BiomeMusicData::spec_from_entries(BiomeMusicData::spec_to_entries(v)) == Some(v),
{
    reveal_strlit("data");
    reveal_strlit("weight");
    assert("data"@.len() == 4);
    assert("weight"@.len() == 6);
    assert("data"@ != "weight"@);
    let e0 = Seq::<(Seq<char>, NbtValue)>::empty();
    let e1 = spec_insert(e0, "data"@, NbtValue::Compound(BiomeMusic::spec_to_entries(v.0)));
    let e2 = spec_insert(e1, "weight"@, NbtValue::Int(v.1));
    lemma_lookup_insert(e0, "data"@, NbtValue::Compound(BiomeMusic::spec_to_entries(v.0)), "data"@);
    lemma_lookup_insert(e1, "weight"@, NbtValue::Int(v.1), "data"@);
    lemma_biome_music_nbt_round_trip(v.0);
    assert(dec_biome_music(e2, "data"@) == Some(v.0));
    lemma_lookup_insert(e0, "data"@, NbtValue::Compound(BiomeMusic::spec_to_entries(v.0)), "weight"@);
    lemma_lookup_insert(e1, "weight"@, NbtValue::Int(v.1), "weight"@);
    assert(dec_i32(e2, "weight"@) == Some(v.1));
    assert(e2 == BiomeMusicData::spec_to_entries(v));
}

impl McSerialize for BiomeMusicData {
    /// Sent as the compound that stands for it.
    open spec fn spec_serialize(v: Self::V) -> Seq<u8> {
        NbtCompound::spec_serialize((None::<Seq<char>>, Self::spec_to_entries(v)))
    }

    open spec fn spec_can_serialize(v: Self::V) -> bool {
        NbtCompound::spec_can_serialize((None::<Seq<char>>, Self::spec_to_entries(v)))
    }

    fn mc_serialize(&self, serializer: &mut McSerializer) -> (r: Result<(), SerializingErr>) {
        self.to_nbt().mc_serialize(serializer)
    }
}

impl McDeserialize for BiomeMusicData {
    open spec fn spec_deserialize(s: Seq<u8>) -> ParseResult<Self::V> {
        match NbtCompound::spec_deserialize(s) {
            Ok((c, n)) => match Self::spec_from_entries(c.1) {
                Some(v) => Ok((v, n)),
                None => Err(ErrKind::NbtMissingField),
            },
            Err(e) => Err(e),
        }
    }

    proof fn lemma_deserialize_len(s: Seq<u8>) {
        NbtCompound::lemma_deserialize_len(s);
    }

    fn mc_deserialize(deserializer: &mut McDeserializer) -> (r: Result<BiomeMusicData, SerializingErr>) {
        let nbt = NbtCompound::mc_deserialize(deserializer)?;
        Self::from_nbt(&nbt)
    }
}

impl McRoundTrip for BiomeMusicData {
    open spec fn spec_well_formed(v: Self::V) -> bool {
        true
    }

    proof fn lemma_round_trip(v: Self::V, rest: Seq<u8>) {
        NbtCompound::lemma_round_trip((None::<Seq<char>>, Self::spec_to_entries(v)), rest);
        lemma_biome_music_data_nbt_round_trip(v);
    }
}

/// The exit action of a dialog: its width and its label.
#[derive(Debug, Clone, PartialEq)]
pub struct ExitAction {
    pub width: i32,
    pub level: NbtTranslateColor,
}

impl DeepView for ExitAction {
    type V = (i32, <NbtTranslateColor as DeepView>::V);

    open spec fn deep_view(&self) -> Self::V {
        (self.width, self.level.deep_view())
    }
}

impl ExitAction {
    /// The entries of the compound that stands for a value: one per field, in order, with absent
    /// optional fields left out.
    pub open spec fn spec_to_entries(v: <ExitAction as DeepView>::V) -> Seq<(Seq<char>, NbtValue)> {
        let e0 = Seq::<(Seq<char>, NbtValue)>::empty();
        let e1 = spec_insert(e0, "width"@, NbtValue::Int(v.0));
        let e2 = spec_insert(e1, "level"@, NbtValue::Compound(NbtTranslateColor::spec_to_entries(v.1)));
        e2
    }

    /// The value that compound entries stand for, if every field is there with its type.
    pub open spec fn spec_from_entries(es: Seq<(Seq<char>, NbtValue)>) -> Option<<ExitAction as DeepView>::V> {
        match dec_i32(es, "width"@) {
            Some(x0) =>
            match dec_color(es, "level"@) {
                Some(x1) =>
                    Some((x0, x1)),
                None => None,
            },
            None => None,
        }
    }

    pub fn new(width: i32, level: NbtTranslateColor) -> (r: Self)
        ensures
            r == (ExitAction { width, level }),
    {
        ExitAction { width, level }
    }

    /// The compound that stands for this value. Useful for serializing.
    pub fn to_nbt(&self) -> (c: NbtCompound)
        ensures
            c.deep_view() == (None::<Seq<char>>, Self::spec_to_entries(self.deep_view())),
    {
        let mut nbt = NbtCompound::new(None);
        nbt.add("width".to_owned(), NbtTag::Int(self.width));
        nbt.add("level".to_owned(), NbtTag::Compound(self.level.to_nbt()));
        nbt
    }

    /// The value a compound stands for. Useful for deserializing. A field that is missing,
    /// or is not of its type, is refused.
    pub fn from_nbt(nbt: &NbtCompound) -> (r: Result<Self, SerializingErr>)
        ensures
            match Self::spec_from_entries(nbt.deep_view().1) {
                Some(v) => r matches Ok(x) && x.deep_view() == v,
                None => r matches Err(e) && e.kind() == ErrKind::NbtMissingField,
            },
    {
        let name = "width".to_owned();
        let width = match get_i32(nbt, &name) {
            Some(x) => x,
            None => return Err(SerializingErr::NbtMissingField(name)),
        };
        let name = "level".to_owned();
        let level = match get_color(nbt, &name) {
            Some(x) => x,
            None => return Err(SerializingErr::NbtMissingField(name)),
        };
        Ok(ExitAction { width, level })
    }
}

/// A ExitAction turned into a compound and back is the same value.
pub proof fn lemma_exit_action_nbt_round_trip(v: <ExitAction as DeepView>::V)
    ensures
        ExitAction::spec_from_entries(ExitAction::spec_to_entries(v)) == Some(v),
{
    reveal_strlit("width");
    reveal_strlit("level");
    assert("width"@.len() == 5);
    assert("level"@.len() == 5);
    assert("width"@[0] != "level"@[0]);
    assert("width"@ != "level"@);
    let e0 = Seq::<(Seq<char>, NbtValue)>::empty();
    let e1 = spec_insert(e0, "width"@, NbtValue::Int(v.0));
    let e2 = spec_insert(e1, "level"@, NbtValue::Compound(NbtTranslateColor::spec_to_entries(v.1)));
    lemma_lookup_insert(e0, "width"@, NbtValue::Int(v.0), "width"@);
    lemma_lookup_insert(e1, "level"@, NbtValue::Compound(NbtTranslateColor::spec_to_entries(v.1)), "width"@);
    assert(dec_i32(e2, "width"@) == Some(v.0));
    lemma_lookup_insert(e0, "width"@, NbtValue::Int(v.0), "level"@);
    lemma_lookup_insert(e1, "level"@, NbtValue::Compound(NbtTranslateColor::spec_to_entries(v.1)), "level"@);
    lemma_nbt_translate_color_nbt_round_trip(v.1);
    assert(dec_color(e2, "level"@) == Some(v.1));
    assert(e2 == ExitAction::spec_to_entries(v));
}

impl McSerialize for ExitAction {
    /// Sent as the compound that stands for it.
    open spec fn spec_serialize(v: Self::V) -> Seq<u8> {
        NbtCompound::spec_serialize((None::<Seq<char>>, Self::spec_to_entries(v)))
    }

    open spec fn spec_can_serialize(v: Self::V) -> bool {
        NbtCompound::spec_can_serialize((None::<Seq<char>>, Self::spec_to_entries(v)))
    }

    fn mc_serialize(&self, serializer: &mut McSerializer) -> (r: Result<(), SerializingErr>) {
        self.to_nbt().mc_serialize(serializer)
    }
}

impl McDeserialize for ExitAction {
    open spec fn spec_deserialize(s: Seq<u8>) -> ParseResult<Self::V> {
        match NbtCompound::spec_deserialize(s) {
            Ok((c, n)) => match Self::spec_from_entries(c.1) {
                Some(v) => Ok((v, n)),
                None => Err(ErrKind::NbtMissingField),
            },
            Err(e) => Err(e),
        }
    }

    proof fn lemma_deserialize_len(s: Seq<u8>) {
        NbtCompound::lemma_deserialize_len(s);
    }

    fn mc_deserialize(deserializer: &mut McDeserializer) -> (r: Result<ExitAction, SerializingErr>) {
        let nbt = NbtCompound::mc_deserialize(deserializer)?;
        Self::from_nbt(&nbt)
    }
}

impl McRoundTrip for ExitAction {
    open spec fn spec_well_formed(v: Self::V) -> bool {
        true
    }

    proof fn lemma_round_trip(v: Self::V, rest: Seq<u8>) {
        NbtCompound::lemma_round_trip((None::<Seq<char>>, Self::spec_to_entries(v)), rest);
        lemma_exit_action_nbt_round_trip(v);
    }
}

/// The cost of an enchantment: a base, and what each level above the first adds.
#[derive(Debug, Clone, PartialEq)]
pub struct EnchantmentCost {
    pub per_level_above_first: i32,
    pub base: i32,
}

impl DeepView for EnchantmentCost {
    type V = (i32, i32);

    open spec fn deep_view(&self) -> Self::V {
        (self.per_level_above_first, self.base)
    }
}

impl EnchantmentCost {
    /// The entries of the compound that stands for a value: one per field, in order, with absent
    /// optional fields left out.
    pub open spec fn spec_to_entries(v: <EnchantmentCost as DeepView>::V) -> Seq<(Seq<char>, NbtValue)> {
        let e0 = Seq::<(Seq<char>, NbtValue)>::empty();
        let e1 = spec_insert(e0, "per_level_above_first"@, NbtValue::Int(v.0));
        let e2 = spec_insert(e1, "base"@, NbtValue::Int(v.1));
        e2
    }

    /// The value that compound entries stand for, if every field is there with its type.
    pub open spec fn spec_from_entries(es: Seq<(Seq<char>, NbtValue)>) -> Option<<EnchantmentCost as DeepView>::V> {
        match dec_i32(es, "per_level_above_first"@) {
            Some(x0) =>
            match dec_i32(es, "base"@) {
                Some(x1) =>
                    Some((x0, x1)),
                None => None,
            },
            None => None,
        }
    }

    pub fn new(per_level_above_first: i32, base: i32) -> (r: Self)
        ensures
            r == (EnchantmentCost { per_level_above_first, base }),
    {
        EnchantmentCost { per_level_above_first, base }
    }

    /// The compound that stands for this value. Useful for serializing.
    pub fn to_nbt(&self) -> (c: NbtCompound)
        ensures
            c.deep_view() == (None::<Seq<char>>, Self::spec_to_entries(self.deep_view())),
    {
        let mut nbt = NbtCompound::new(None);
        nbt.add("per_level_above_first".to_owned(), NbtTag::Int(self.per_level_above_first));
        nbt.add("base".to_owned(), NbtTag::Int(self.base));
        nbt
    }

    /// The value a compound stands for. Useful for deserializing. A field that is missing,
    /// or is not of its type, is refused.
    pub fn from_nbt(nbt: &NbtCompound) -> (r: Result<Self, SerializingErr>)
        ensures
            match Self::spec_from_entries(nbt.deep_view().1) {
                Some(v) => r matches Ok(x) && x.deep_view() == v,
                None => r matches Err(e) && e.kind() == ErrKind::NbtMissingField,
            },
    {
        let name = "per_level_above_first".to_owned();
        let per_level_above_first = match get_i32(nbt, &name) {
            Some(x) => x,
            None => return Err(SerializingErr::NbtMissingField(name)),
        };
        let name = "base".to_owned();
        let base = match get_i32(nbt, &name) {
            Some(x) => x,
            None => return Err(SerializingErr::NbtMissingField(name)),
        };
        Ok(EnchantmentCost { per_level_above_first, base })
    }
}

/// A EnchantmentCost turned into a compound and back is the same value.
pub proof fn lemma_enchantment_cost_nbt_round_trip(v: <EnchantmentCost as DeepView>::V)
    ensures
        EnchantmentCost::spec_from_entries(EnchantmentCost::spec_to_entries(v)) == Some(v),
{
    reveal_strlit("per_level_above_first");
    reveal_strlit("base");
    assert("per_level_above_first"@.len() == 21);
    assert("base"@.len() == 4);
    assert("per_level_above_first"@ != "base"@);
    let e0 = Seq::<(Seq<char>, NbtValue)>::empty();
    let e1 = spec_insert(e0, "per_level_above_first"@, NbtValue::Int(v.0));
    let e2 = spec_insert(e1, "base"@, NbtValue::Int(v.1));
    lemma_lookup_insert(e0, "per_level_above_first"@, NbtValue::Int(v.0), "per_level_above_first"@);
    lemma_lookup_insert(e1, "base"@, NbtValue::Int(v.1), "per_level_above_first"@);
    assert(dec_i32(e2, "per_level_above_first"@) == Some(v.0));
    lemma_lookup_insert(e0, "per_level_above_first"@, NbtValue::Int(v.0), "base"@);
    lemma_lookup_insert(e1, "base"@, NbtValue::Int(v.1), "base"@);
    assert(dec_i32(e2, "base"@) == Some(v.1));
    assert(e2 == EnchantmentCost::spec_to_entries(v));
}

impl McSerialize for EnchantmentCost {
    /// Sent as the compound that stands for it.
    open spec fn spec_serialize(v: Self::V) -> Seq<u8> {
        NbtCompound::spec_serialize((None::<Seq<char>>, Self::spec_to_entries(v)))
    }

    open spec fn spec_can_serialize(v: Self::V) -> bool {
        NbtCompound::spec_can_serialize((None::<Seq<char>>, Self::spec_to_entries(v)))
    }

    fn mc_serialize(&self, serializer: &mut McSerializer) -> (r: Result<(), SerializingErr>) {
        self.to_nbt().mc_serialize(serializer)
    }
}

impl McDeserialize for EnchantmentCost {
    open spec fn spec_deserialize(s: Seq<u8>) -> ParseResult<Self::V> {
        match NbtCompound::spec_deserialize(s) {
            Ok((c, n)) => match Self::spec_from_entries(c.1) {
                Some(v) => Ok((v, n)),
                None => Err(ErrKind::NbtMissingField),
            },
            Err(e) => Err(e),
        }
    }

    proof fn lemma_deserialize_len(s: Seq<u8>) {
        NbtCompound::lemma_deserialize_len(s);
    }

    fn mc_deserialize(deserializer: &mut McDeserializer) -> (r: Result<EnchantmentCost, SerializingErr>) {
        let nbt = NbtCompound::mc_deserialize(deserializer)?;
        Self::from_nbt(&nbt)
    }
}

impl McRoundTrip for EnchantmentCost {
    open spec fn spec_well_formed(v: Self::V) -> bool {
        true
    }

    proof fn lemma_round_trip(v: Self::V, rest: Seq<u8>) {
        NbtCompound::lemma_round_trip((None::<Seq<char>>, Self::spec_to_entries(v)), rest);
        lemma_enchantment_cost_nbt_round_trip(v);
    }
}

/// A damage type tag, and whether the damage is expected to have it.
#[derive(Debug, Clone, PartialEq)]
pub struct DamageTag {
    pub expected: bool,
    pub id: String,
}

impl DeepView for DamageTag {
    type V = (bool, Seq<char>);

    open spec fn deep_view(&self) -> Self::V {
        (self.expected, self.id@)
    }
}

impl DamageTag {
    /// The entries of the compound that stands for a value: one per field, in order, with absent
    /// optional fields left out.
    pub open spec fn spec_to_entries(v: <DamageTag as DeepView>::V) -> Seq<(Seq<char>, NbtValue)> {
        let e0 = Seq::<(Seq<char>, NbtValue)>::empty();
        let e1 = spec_insert(e0, "expected"@, NbtValue::Byte(if v.0 { 1i8 } else { 0i8 }));
        let e2 = spec_insert(e1, "id"@, NbtValue::Str(v.1));
        e2
    }

    /// The value that compound entries stand for, if every field is there with its type.
    pub open spec fn spec_from_entries(es: Seq<(Seq<char>, NbtValue)>) -> Option<<DamageTag as DeepView>::V> {
        match dec_bool(es, "expected"@) {
            Some(x0) =>
            match dec_str(es, "id"@) {
                Some(x1) =>
                    Some((x0, x1)),
                None => None,
            },
            None => None,
        }
    }

    pub fn new(expected: bool, id: String) -> (r: Self)
        ensures
            r == (DamageTag { expected, id }),
    {
        DamageTag { expected, id }
    }

    /// The compound that stands for this value. Useful for serializing.
    pub fn to_nbt(&self) -> (c: NbtCompound)
        ensures
            c.deep_view() == (None::<Seq<char>>, Self::spec_to_entries(self.deep_view())),
    {
        let mut nbt = NbtCompound::new(None);
        nbt.add("expected".to_owned(), NbtTag::Byte(if self.expected { 1 } else { 0 }));
        nbt.add("id".to_owned(), NbtTag::Str(self.id.clone()));
        nbt
    }

    /// The value a compound stands for. Useful for deserializing. A field that is missing,
    /// or is not of its type, is refused.
    pub fn from_nbt(nbt: &NbtCompound) -> (r: Result<Self, SerializingErr>)
        ensures
            match Self::spec_from_entries(nbt.deep_view().1) {
                Some(v) => r matches Ok(x) && x.deep_view() == v,
                None => r matches Err(e) && e.kind() == ErrKind::NbtMissingField,
            },
    {
        let name = "expected".to_owned();
        let expected = match get_bool(nbt, &name) {
            Some(x) => x,
            None => return Err(SerializingErr::NbtMissingField(name)),
        };
        let name = "id".to_owned();
        let id = match get_str(nbt, &name) {
            Some(x) => x,
            None => return Err(SerializingErr::NbtMissingField(name)),
        };
        Ok(DamageTag { expected, id })
    }
}

/// A DamageTag turned into a compound and back is the same value.
pub proof fn lemma_damage_tag_nbt_round_trip(v: <DamageTag as DeepView>::V)
    ensures
        DamageTag::spec_from_entries(DamageTag::spec_to_entries(v)) == Some(v),
{
    reveal_strlit("expected");
    reveal_strlit("id");
    assert("expected"@.len() == 8);
    assert("id"@.len() == 2);
    assert("expected"@ != "id"@);
    let e0 = Seq::<(Seq<char>, NbtValue)>::empty();
    let e1 = spec_insert(e0, "expected"@, NbtValue::Byte(if v.0 { 1i8 } else { 0i8 }));
    let e2 = spec_insert(e1, "id"@, NbtValue::Str(v.1));
    lemma_lookup_insert(e0, "expected"@, NbtValue::Byte(if v.0 { 1i8 } else { 0i8 }), "expected"@);
    lemma_lookup_insert(e1, "id"@, NbtValue::Str(v.1), "expected"@);
    assert(dec_bool(e2, "expected"@) == Some(v.0));
    lemma_lookup_insert(e0, "expected"@, NbtValue::Byte(if v.0 { 1i8 } else { 0i8 }), "id"@);
    lemma_lookup_insert(e1, "id"@, NbtValue::Str(v.1), "id"@);
    assert(dec_str(e2, "id"@) == Some(v.1));
    assert(e2 == DamageTag::spec_to_entries(v));
}

impl McSerialize for DamageTag {
    /// Sent as the compound that stands for it.
    open spec fn spec_serialize(v: Self::V) -> Seq<u8> {
        NbtCompound::spec_serialize((None::<Seq<char>>, Self::spec_to_entries(v)))
    }

    open spec fn spec_can_serialize(v: Self::V) -> bool {
        NbtCompound::spec_can_serialize((None::<Seq<char>>, Self::spec_to_entries(v)))
    }

    fn mc_serialize(&self, serializer: &mut McSerializer) -> (r: Result<(), SerializingErr>) {
        self.to_nbt().mc_serialize(serializer)
    }
}

impl McDeserialize for DamageTag {
    open spec fn spec_deserialize(s: Seq<u8>) -> ParseResult<Self::V> {
        match NbtCompound::spec_deserialize(s) {
            Ok((c, n)) => match Self::spec_from_entries(c.1) {
                Some(v) => Ok((v, n)),
                None => Err(ErrKind::NbtMissingField),
            },
            Err(e) => Err(e),
        }
    }

    proof fn lemma_deserialize_len(s: Seq<u8>) {
        NbtCompound::lemma_deserialize_len(s);
    }

    fn mc_deserialize(deserializer: &mut McDeserializer) -> (r: Result<DamageTag, SerializingErr>) {
        let nbt = NbtCompound::mc_deserialize(deserializer)?;
        Self::from_nbt(&nbt)
    }
}

impl McRoundTrip for DamageTag {
    open spec fn spec_well_formed(v: Self::V) -> bool {
        true
    }

    proof fn lemma_round_trip(v: Self::V, rest: Seq<u8>) {
        NbtCompound::lemma_round_trip((None::<Seq<char>>, Self::spec_to_entries(v)), rest);
        lemma_damage_tag_nbt_round_trip(v);
    }
}

/// A range of light levels, both ends included; its `type` says how it is drawn from.
#[derive(Debug, Clone, PartialEq)]
pub struct MonsterSpawnLightLevelRange {
    pub min_inclusive: i32,
    pub max_inclusive: i32,
    pub typ: String,
}

impl DeepView for MonsterSpawnLightLevelRange {
    type V = (i32, (i32, Seq<char>));

    open spec fn deep_view(&self) -> Self::V {
        (self.min_inclusive, (self.max_inclusive, self.typ@))
    }
}

impl MonsterSpawnLightLevelRange {
    /// The entries of the compound that stands for a value: one per field, in order, with absent
    /// optional fields left out.
    pub open spec fn spec_to_entries(v: <MonsterSpawnLightLevelRange as DeepView>::V) -> Seq<(Seq<char>, NbtValue)> {
        let e0 = Seq::<(Seq<char>, NbtValue)>::empty();
        let e1 = spec_insert(e0, "min_inclusive"@, NbtValue::Int(v.0));
        let e2 = spec_insert(e1, "max_inclusive"@, NbtValue::Int(v.1.0));
        let e3 = spec_insert(e2, "type"@, NbtValue::Str(v.1.1));
        e3
    }

    /// The value that compound entries stand for, if every field is there with its type.
    pub open spec fn spec_from_entries(es: Seq<(Seq<char>, NbtValue)>) -> Option<<MonsterSpawnLightLevelRange as DeepView>::V> {
        match dec_i32(es, "min_inclusive"@) {
            Some(x0) =>
            match dec_i32(es, "max_inclusive"@) {
                Some(x1) =>
                match dec_str(es, "type"@) {
                    Some(x2) =>
                        Some((x0, (x1, x2))),
                    None => None,
                },
                None => None,
            },
            None => None,
        }
    }

    pub fn new(min_inclusive: i32, max_inclusive: i32, typ: String) -> (r: Self)
        ensures
            r == (MonsterSpawnLightLevelRange { min_inclusive, max_inclusive, typ }),
    {
        MonsterSpawnLightLevelRange { min_inclusive, max_inclusive, typ }
    }

    /// The compound that stands for this value. Useful for serializing.
    pub fn to_nbt(&self) -> (c: NbtCompound)
        ensures
            c.deep_view() == (None::<Seq<char>>, Self::spec_to_entries(self.deep_view())),
    {
        let mut nbt = NbtCompound::new(None);
        nbt.add("min_inclusive".to_owned(), NbtTag::Int(self.min_inclusive));
        nbt.add("max_inclusive".to_owned(), NbtTag::Int(self.max_inclusive));
        nbt.add("type".to_owned(), NbtTag::Str(self.typ.clone()));
        nbt
    }

    /// The value a compound stands for. Useful for deserializing. A field that is missing,
    /// or is not of its type, is refused.
    pub fn from_nbt(nbt: &NbtCompound) -> (r: Result<Self, SerializingErr>)
        ensures
            match Self::spec_from_entries(nbt.deep_view().1) {
                Some(v) => r matches Ok(x) && x.deep_view() == v,
                None => r matches Err(e) && e.kind() == ErrKind::NbtMissingField,
            },
    {
        let name = "min_inclusive".to_owned();
        let min_inclusive = match get_i32(nbt, &name) {
            Some(x) => x,
            None => return Err(SerializingErr::NbtMissingField(name)),
        };
        let name = "max_inclusive".to_owned();
        let max_inclusive = match get_i32(nbt, &name) {
            Some(x) => x,
            None => return Err(SerializingErr::NbtMissingField(name)),
        };
        let name = "type".to_owned();
        let typ = match get_str(nbt, &name) {
            Some(x) => x,
            None => return Err(SerializingErr::NbtMissingField(name)),
        };
        Ok(MonsterSpawnLightLevelRange { min_inclusive, max_inclusive, typ })
    }
}

/// A MonsterSpawnLightLevelRange turned into a compound and back is the same value.
pub proof fn lemma_monster_spawn_light_level_range_nbt_round_trip(v: <MonsterSpawnLightLevelRange as DeepView>::V)
    ensures
        MonsterSpawnLightLevelRange::spec_from_entries(MonsterSpawnLightLevelRange::spec_to_entries(v)) == Some(v),
{
    reveal_strlit("min_inclusive");
    reveal_strlit("max_inclusive");
    reveal_strlit("type");
    assert("min_inclusive"@.len() == 13);
    assert("max_inclusive"@.len() == 13);
    assert("type"@.len() == 4);
    assert("min_inclusive"@[1] != "max_inclusive"@[1]);
    assert("min_inclusive"@ != "max_inclusive"@);
    assert("min_inclusive"@ != "type"@);
    assert("max_inclusive"@ != "type"@);
    let e0 = Seq::<(Seq<char>, NbtValue)>::empty();
    let e1 = spec_insert(e0, "min_inclusive"@, NbtValue::Int(v.0));
    let e2 = spec_insert(e1, "max_inclusive"@, NbtValue::Int(v.1.0));
    let e3 = spec_insert(e2, "type"@, NbtValue::Str(v.1.1));
    lemma_lookup_insert(e0, "min_inclusive"@, NbtValue::Int(v.0), "min_inclusive"@);
    lemma_lookup_insert(e1, "max_inclusive"@, NbtValue::Int(v.1.0), "min_inclusive"@);
    lemma_lookup_insert(e2, "type"@, NbtValue::Str(v.1.1), "min_inclusive"@);
    assert(dec_i32(e3, "min_inclusive"@) == Some(v.0));
    lemma_lookup_insert(e0, "min_inclusive"@, NbtValue::Int(v.0), "max_inclusive"@);
    lemma_lookup_insert(e1, "max_inclusive"@, NbtValue::Int(v.1.0), "max_inclusive"@);
    lemma_lookup_insert(e2, "type"@, NbtValue::Str(v.1.1), "max_inclusive"@);
    assert(dec_i32(e3, "max_inclusive"@) == Some(v.1.0));
    lemma_lookup_insert(e0, "min_inclusive"@, NbtValue::Int(v.0), "type"@);
    lemma_lookup_insert(e1, "max_inclusive"@, NbtValue::Int(v.1.0), "type"@);
    lemma_lookup_insert(e2, "type"@, NbtValue::Str(v.1.1), "type"@);
    assert(dec_str(e3, "type"@) == Some(v.1.1));
    assert(e3 == MonsterSpawnLightLevelRange::spec_to_entries(v));
}

impl McSerialize for MonsterSpawnLightLevelRange {
    /// Sent as the compound that stands for it.
    open spec fn spec_serialize(v: Self::V) -> Seq<u8> {
        NbtCompound::spec_serialize((None::<Seq<char>>, Self::spec_to_entries(v)))
    }

    open spec fn spec_can_serialize(v: Self::V) -> bool {
        NbtCompound::spec_can_serialize((None::<Seq<char>>, Self::spec_to_entries(v)))
    }

    fn mc_serialize(&self, serializer: &mut McSerializer) -> (r: Result<(), SerializingErr>) {
        self.to_nbt().mc_serialize(serializer)
    }
}

impl McDeserialize for MonsterSpawnLightLevelRange {
    open spec fn spec_deserialize(s: Seq<u8>) -> ParseResult<Self::V> {
        match NbtCompound::spec_deserialize(s) {
            Ok((c, n)) => match Self::spec_from_entries(c.1) {
                Some(v) => Ok((v, n)),
                None => Err(ErrKind::NbtMissingField),
            },
            Err(e) => Err(e),
        }
    }

    proof fn lemma_deserialize_len(s: Seq<u8>) {
        NbtCompound::lemma_deserialize_len(s);
    }

    fn mc_deserialize(deserializer: &mut McDeserializer) -> (r: Result<MonsterSpawnLightLevelRange, SerializingErr>) {
        let nbt = NbtCompound::mc_deserialize(deserializer)?;
        Self::from_nbt(&nbt)
    }
}

impl McRoundTrip for MonsterSpawnLightLevelRange {
    open spec fn spec_well_formed(v: Self::V) -> bool {
        true
    }

    proof fn lemma_round_trip(v: Self::V, rest: Seq<u8>) {
        NbtCompound::lemma_round_trip((None::<Seq<char>>, Self::spec_to_entries(v)), rest);
        lemma_monster_spawn_light_level_range_nbt_round_trip(v);
    }
}

/// The textures of a wolf variant, angry, tame and wild.
#[derive(Debug, Clone, PartialEq)]
pub struct WolfVariantAssets {
    pub angry: String,
    pub tame: String,
    pub wild: String,
}

impl DeepView for WolfVariantAssets {
    type V = (Seq<char>, (Seq<char>, Seq<char>));

    open spec fn deep_view(&self) -> Self::V {
        (self.angry@, (self.tame@, self.wild@))
    }
}

impl WolfVariantAssets {
    /// The entries of the compound that stands for a value: one per field, in order, with absent
    /// optional fields left out.
    pub open spec fn spec_to_entries(v: <WolfVariantAssets as DeepView>::V) -> Seq<(Seq<char>, NbtValue)> {
        let e0 = Seq::<(Seq<char>, NbtValue)>::empty();
        let e1 = spec_insert(e0, "angry"@, NbtValue::Str(v.0));
        let e2 = spec_insert(e1, "tame"@, NbtValue::Str(v.1.0));
        let e3 = spec_insert(e2, "wild"@, NbtValue::Str(v.1.1));
        e3
    }

    /// The value that compound entries stand for, if every field is there with its type.
    pub open spec fn spec_from_entries(es: Seq<(Seq<char>, NbtValue)>) -> Option<<WolfVariantAssets as DeepView>::V> {
        match dec_str(es, "angry"@) {
            Some(x0) =>
            match dec_str(es, "tame"@) {
                Some(x1) =>
                match dec_str(es, "wild"@) {
                    Some(x2) =>
                        Some((x0, (x1, x2))),
                    None => None,
                },
                None => None,
            },
            None => None,
        }
    }

    pub fn new(angry: String, tame: String, wild: String) -> (r: Self)
        ensures
            r == (WolfVariantAssets { angry, tame, wild }),
    {
        WolfVariantAssets { angry, tame, wild }
    }

    /// The compound that stands for this value. Useful for serializing.
    pub fn to_nbt(&self) -> (c: NbtCompound)
        ensures
            c.deep_view() == (None::<Seq<char>>, Self::spec_to_entries(self.deep_view())),
    {
        let mut nbt = NbtCompound::new(None);
        nbt.add("angry".to_owned(), NbtTag::Str(self.angry.clone()));
        nbt.add("tame".to_owned(), NbtTag::Str(self.tame.clone()));
        nbt.add("wild".to_owned(), NbtTag::Str(self.wild.clone()));
        nbt
    }

    /// The value a compound stands for. Useful for deserializing. A field that is missing,
    /// or is not of its type, is refused.
    pub fn from_nbt(nbt: &NbtCompound) -> (r: Result<Self, SerializingErr>)
        ensures
            match Self::spec_from_entries(nbt.deep_view().1) {
                Some(v) => r matches Ok(x) && x.deep_view() == v,
                None => r matches Err(e) && e.kind() == ErrKind::NbtMissingField,
            },
    {
        let name = "angry".to_owned();
        let angry = match get_str(nbt, &name) {
            Some(x) => x,
            None => return Err(SerializingErr::NbtMissingField(name)),
        };
        let name = "tame".to_owned();
        let tame = match get_str(nbt, &name) {
            Some(x) => x,
            None => return Err(SerializingErr::NbtMissingField(name)),
        };
        let name = "wild".to_owned();
        let wild = match get_str(nbt, &name) {
            Some(x) => x,
            None => return Err(SerializingErr::NbtMissingField(name)),
        };
        Ok(WolfVariantAssets { angry, tame, wild })
    }
}

/// A WolfVariantAssets turned into a compound and back is the same value.
pub proof fn lemma_wolf_variant_assets_nbt_round_trip(v: <WolfVariantAssets as DeepView>::V)
    ensures
        WolfVariantAssets::spec_from_entries(WolfVariantAssets::spec_to_entries(v)) == Some(v),
{
    reveal_strlit("angry");
    reveal_strlit("tame");
    reveal_strlit("wild");
    assert("angry"@.len() == 5);
    assert("tame"@.len() == 4);
    assert("wild"@.len() == 4);
    assert("tame"@[0] != "wild"@[0]);
    assert("angry"@ != "tame"@);
    assert("angry"@ != "wild"@);
    assert("tame"@ != "wild"@);
    let e0 = Seq::<(Seq<char>, NbtValue)>::empty();
    let e1 = spec_insert(e0, "angry"@, NbtValue::Str(v.0));
    let e2 = spec_insert(e1, "tame"@, NbtValue::Str(v.1.0));
    let e3 = spec_insert(e2, "wild"@, NbtValue::Str(v.1.1));
    lemma_lookup_insert(e0, "angry"@, NbtValue::Str(v.0), "angry"@);
    lemma_lookup_insert(e1, "tame"@, NbtValue::Str(v.1.0), "angry"@);
    lemma_lookup_insert(e2, "wild"@, NbtValue::Str(v.1.1), "angry"@);
    assert(dec_str(e3, "angry"@) == Some(v.0));
    lemma_lookup_insert(e0, "angry"@, NbtValue::Str(v.0), "tame"@);
    lemma_lookup_insert(e1, "tame"@, NbtValue::Str(v.1.0), "tame"@);
    lemma_lookup_insert(e2, "wild"@, NbtValue::Str(v.1.1), "tame"@);
    assert(dec_str(e3, "tame"@) == Some(v.1.0));
    lemma_lookup_insert(e0, "angry"@, NbtValue::Str(v.0), "wild"@);
    lemma_lookup_insert(e1, "tame"@, NbtValue::Str(v.1.0), "wild"@);
    lemma_lookup_insert(e2, "wild"@, NbtValue::Str(v.1.1), "wild"@);
    assert(dec_str(e3, "wild"@) == Some(v.1.1));
    assert(e3 == WolfVariantAssets::spec_to_entries(v));
}

impl McSerialize for WolfVariantAssets {
    /// Sent as the compound that stands for it.
    open spec fn spec_serialize(v: Self::V) -> Seq<u8> {
        NbtCompound::spec_serialize((None::<Seq<char>>, Self::spec_to_entries(v)))
    }

    open spec fn spec_can_serialize(v: Self::V) -> bool {
        NbtCompound::spec_can_serialize((None::<Seq<char>>, Self::spec_to_entries(v)))
    }

    fn mc_serialize(&self, serializer: &mut McSerializer) -> (r: Result<(), SerializingErr>) {
        self.to_nbt().mc_serialize(serializer)
    }
}

impl McDeserialize for WolfVariantAssets {
    open spec fn spec_deserialize(s: Seq<u8>) -> ParseResult<Self::V> {
        match NbtCompound::spec_deserialize(s) {
            Ok((c, n)) => match Self::spec_from_entries(c.1) {
                Some(v) => Ok((v, n)),
                None => Err(ErrKind::NbtMissingField),
            },
            Err(e) => Err(e),
        }
    }

    proof fn lemma_deserialize_len(s: Seq<u8>) {
        NbtCompound::lemma_deserialize_len(s);
    }

    fn mc_deserialize(deserializer: &mut McDeserializer) -> (r: Result<WolfVariantAssets, SerializingErr>) {
        let nbt = NbtCompound::mc_deserialize(deserializer)?;
        Self::from_nbt(&nbt)
    }
}

impl McRoundTrip for WolfVariantAssets {
    open spec fn spec_well_formed(v: Self::V) -> bool {
        true
    }

    proof fn lemma_round_trip(v: Self::V, rest: Seq<u8>) {
        NbtCompound::lemma_round_trip((None::<Seq<char>>, Self::spec_to_entries(v)), rest);
        lemma_wolf_variant_assets_nbt_round_trip(v);
    }
}

/// The light level monsters spawn at: one level, or a range of levels. It stands for either an int
/// tag or a compound, as a union of the two would.
#[derive(Debug, Clone, PartialEq)]
pub struct MonsterSpawnLightLevel {
    pub isRange: bool,
    pub level: Option<i32>,
    pub range: Option<MonsterSpawnLightLevelRange>,
}

impl DeepView for MonsterSpawnLightLevel {
    type V = (bool, (Option<i32>, Option<<MonsterSpawnLightLevelRange as DeepView>::V>));

    open spec fn deep_view(&self) -> Self::V {
        (self.isRange, (self.level, self.range.deep_view()))
    }
}

/// The tag that a light level stands for: the compound of its range for a range, and the int of
/// its level, 0 when it has none, otherwise.
pub open spec fn spec_light_level_tag(v: <MonsterSpawnLightLevel as DeepView>::V) -> NbtValue {
    if v.0 {
        NbtValue::Compound(MonsterSpawnLightLevelRange::spec_to_entries(v.1.1.unwrap()))
    } else {
        NbtValue::Int(match v.1.0 { Some(l) => l, None => 0 })
    }
}

/// The light level a tag stands for: a level for an int, a range for a compound that stands for
/// one; nothing for any other tag.
pub open spec fn spec_light_level_of_tag(t: NbtValue) -> Option<<MonsterSpawnLightLevel as DeepView>::V> {
    match t {
        NbtValue::Int(l) => Some((false, (Some(l), None))),
        NbtValue::Compound(es) => match MonsterSpawnLightLevelRange::spec_from_entries(es) {
            Some(r) => Some((true, (None, Some(r)))),
            None => None,
        },
        _ => None,
    }
}

impl Default for MonsterSpawnLightLevel {
    /// A single level, 7.
    fn default() -> (r: Self)
        ensures
            r.deep_view() == (false, (Some(7i32), None::<<MonsterSpawnLightLevelRange as DeepView>::V>)),
    {
        MonsterSpawnLightLevel { isRange: false, level: Some(7), range: None }
    }
}

impl MonsterSpawnLightLevel {
    /// The tag this light level stands for. A level that says it is a range must have one.
    pub fn to_nbt_tag(&self) -> (t: NbtTag)
        requires
            self.isRange ==> self.range is Some,
        ensures
            tag_model(t) == spec_light_level_tag(self.deep_view()),
    {
        if self.isRange {
            match &self.range {
                Some(r) => NbtTag::Compound(r.to_nbt()),
                None => NbtTag::Int(0),
            }
        } else {
            NbtTag::Int(match self.level { Some(l) => l, None => 0 })
        }
    }

    /// The light level a tag stands for. A tag that is neither an int nor a compound is refused,
    /// and so is a compound that is not a range.
    pub fn try_from_tag(tag: NbtTag) -> (r: Result<MonsterSpawnLightLevel, SerializingErr>)
        ensures
            match spec_light_level_of_tag(tag_model(tag)) {
                Some(v) => r matches Ok(x) && x.deep_view() == v,
                None => r matches Err(e) && e.kind() == (if tag_model(tag) is Compound {
                    ErrKind::NbtMissingField
                } else {
                    ErrKind::DeserializationError
                }),
            },
    {
        match tag {
            NbtTag::Int(level) => Ok(MonsterSpawnLightLevel { isRange: false, level: Some(level), range: None }),
            NbtTag::Compound(compound) => {
                let range = MonsterSpawnLightLevelRange::from_nbt(&compound)?;
                Ok(MonsterSpawnLightLevel { isRange: true, level: None, range: Some(range) })
            },
            _ => Err(SerializingErr::DeserializationError("Invalid NBT type for a monster spawn light level".to_owned())),
        }
    }
}

/// A light level that holds exactly one of a level and a range, and says which, turned into a
/// tag and back is the same light level.
pub proof fn lemma_light_level_tag_round_trip(v: <MonsterSpawnLightLevel as DeepView>::V)
    requires
        v.0 == v.1.1 is Some,
        v.0 == v.1.0 is None,
    ensures
        spec_light_level_of_tag(spec_light_level_tag(v)) == Some(v),
{
    if v.0 {
        lemma_monster_spawn_light_level_range_nbt_round_trip(v.1.1.unwrap());
    }
}

} // verus!
