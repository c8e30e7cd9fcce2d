//! Packet parts of effects.

use crate::protocol::serialization::serializer_types::PrefixedArray;
use crate::protocol::serialization::var_int::VarInt;
use crate::protocol::serialization::{
    deserialized, lemma_remaining_advance, ErrKind, McDeserialize, McDeserializer, McRoundTrip, McSerialize, McSerializer, ParseResult, SerializingErr,
};
use vstd::prelude::*;

verus! {

/// The fields of [`FireworkExplosion`] as they are sent, in order.
pub type FireworkExplosionFields = (VarInt, (PrefixedArray<i32>, (PrefixedArray<i32>, (bool, bool))));

/// A firework explosion: its shape, its colors and fade colors, and whether it trails and twinkles.
#[derive(Debug, Clone, PartialEq)]
pub struct FireworkExplosion {
    pub shape: VarInt,
    pub colors: PrefixedArray<i32>,
    pub fade_colors: PrefixedArray<i32>,
    pub has_trail: bool,
    pub has_twinkle: bool,
}

impl DeepView for FireworkExplosion {
    type V = <FireworkExplosionFields as DeepView>::V;

    open spec fn deep_view(&self) -> Self::V {
        (self.shape.deep_view(), (self.colors.deep_view(), (self.fade_colors.deep_view(), (self.has_trail.deep_view(), self.has_twinkle.deep_view()))))
    }
}

impl McSerialize for FireworkExplosion {
    open spec fn spec_serialize(v: Self::V) -> Seq<u8> {
        FireworkExplosionFields::spec_serialize(v)
    }

    open spec fn spec_can_serialize(v: Self::V) -> bool {
        FireworkExplosionFields::spec_can_serialize(v)
    }

    fn mc_serialize(&self, serializer: &mut McSerializer) -> (r: Result<(), SerializingErr>) {
        let _ = self.shape.mc_serialize(serializer);
        let _ = self.colors.mc_serialize(serializer);
        let _ = self.fade_colors.mc_serialize(serializer);
        let _ = self.has_trail.mc_serialize(serializer);
        let _ = self.has_twinkle.mc_serialize(serializer);
        assert(serializer.output@ == old(serializer).output@ + Self::spec_serialize(self.deep_view()));
        Ok(())
    }
}

impl McDeserialize for FireworkExplosion {
    open spec fn spec_deserialize(s: Seq<u8>) -> ParseResult<Self::V> {
        FireworkExplosionFields::spec_deserialize(s)
    }

    proof fn lemma_deserialize_len(s: Seq<u8>) {
        FireworkExplosionFields::lemma_deserialize_len(s);
    }

    fn mc_deserialize(deserializer: &mut McDeserializer) -> (r: Result<FireworkExplosion, SerializingErr>) {
        let (shape, (colors, (fade_colors, (has_trail, has_twinkle)))) = FireworkExplosionFields::mc_deserialize(deserializer)?;
        Ok(FireworkExplosion { shape, colors, fade_colors, has_trail, has_twinkle })
    }
}

impl McRoundTrip for FireworkExplosion {
    open spec fn spec_well_formed(v: Self::V) -> bool {
        FireworkExplosionFields::spec_well_formed(v)
    }

    proof fn lemma_round_trip(v: Self::V, rest: Seq<u8>) {
        FireworkExplosionFields::lemma_round_trip(v, rest);
    }
}

/// The fields of a potion effect before its hidden effect: amplifier, duration, and whether it is
/// ambient, shows particles and shows its icon.
pub type PotionDetailHead = (VarInt, (VarInt, (bool, (bool, bool))));

/// The details of a potion effect, with the weaker effect hidden behind it, if any.
#[derive(Debug, PartialEq)]
pub struct PotionEffectDetail {
    pub amplifier: VarInt,
    pub duration: VarInt,
    pub ambient: bool,
    pub show_particles: bool,
    pub show_icon: bool,
    /// Sent after a presence flag, as a prefixed optional value is.
    pub hidden_effect: Option<Box<PotionEffectDetail>>,
}

/// The details of a potion effect, as contracts see them.
pub ghost struct PotionDetailModel {
    pub head: <PotionDetailHead as DeepView>::V,
    pub hidden: Option<Box<PotionDetailModel>>,
}

/// The model of a potion effect's details.
pub open spec fn potion_detail_model(d: PotionEffectDetail) -> PotionDetailModel
    decreases d,
{
    PotionDetailModel {
        head: (d.amplifier, (d.duration, (d.ambient, (d.show_particles, d.show_icon)))),
        hidden: match d.hidden_effect {
            Some(b) => Some(Box::new(potion_detail_model(*b))),
            None => None,
        },
    }
}

impl DeepView for PotionEffectDetail {
    type V = PotionDetailModel;

    open spec fn deep_view(&self) -> PotionDetailModel {
        potion_detail_model(*self)
    }
}

/// The bytes of a potion effect's details: its fields, then its hidden effect with a presence flag.
pub open spec fn spec_potion_detail_bytes(m: PotionDetailModel) -> Seq<u8>
    decreases m,
{
    PotionDetailHead::spec_serialize(m.head) + match m.hidden {
        Some(h) => seq![1u8] + spec_potion_detail_bytes(*h),
        None => seq![0u8],
    }
}

/// The parse of a potion effect's details: its fields, then a flag, and after a flag other than 0
/// the hidden effect.
pub open spec fn spec_potion_detail_parse(s: Seq<u8>) -> ParseResult<PotionDetailModel>
    decreases s.len(),
{
    match PotionDetailHead::spec_deserialize(s) {
        Err(e) => Err(e),
        Ok((h, n)) => {
            let t = s.skip(n as int);
            if t.len() == 0 {
                Err(ErrKind::InputEnded)
            } else if t[0] == 0 {
                Ok((PotionDetailModel { head: h, hidden: None }, n + 1))
            } else {
                proof {
                    PotionDetailHead::lemma_deserialize_len(s);
                }
                match spec_potion_detail_parse(t.drop_first()) {
                    Ok((x, m)) => Ok((PotionDetailModel { head: h, hidden: Some(Box::new(x)) }, n + 1 + m)),
                    Err(e) => Err(e),
                }
            }
        },
    }
}

/// Reading a potion effect's details never takes more bytes than there are.
#[verifier::spinoff_prover]
#[verifier::rlimit(40)]
pub proof fn lemma_potion_detail_parse_len(s: Seq<u8>)
    ensures
        spec_potion_detail_parse(s) matches Ok((x, n)) ==> n <= s.len(),
    decreases s.len(),
{
    PotionDetailHead::lemma_deserialize_len(s);
    if let Ok((h, n)) = PotionDetailHead::spec_deserialize(s) {
        let t = s.skip(n as int);
        if t.len() > 0 && t[0] != 0 {
            lemma_potion_detail_parse_len(t.drop_first());
        }
    }
}

/// Potion effect details read back as they were written, whatever bytes follow.
#[verifier::spinoff_prover]
#[verifier::rlimit(40)]
pub proof fn lemma_potion_detail_round_trip(m: PotionDetailModel, rest: Seq<u8>)
    ensures
        spec_potion_detail_parse(spec_potion_detail_bytes(m) + rest)
            == Ok::<(PotionDetailModel, nat), ErrKind>((m, spec_potion_detail_bytes(m).len())),
    decreases m,
{
    let hb = PotionDetailHead::spec_serialize(m.head);
    let s = spec_potion_detail_bytes(m) + rest;
    match m.hidden {
        Some(h) => {
            let tail = seq![1u8] + spec_potion_detail_bytes(*h) + rest;
            assert(s == hb + tail);
            PotionDetailHead::lemma_round_trip(m.head, tail);
            assert(s.skip(hb.len() as int) == tail);
            assert(tail.drop_first() == spec_potion_detail_bytes(*h) + rest);
            lemma_potion_detail_round_trip(*h, rest);
            assert(Box::new(*h) == h);
        },
        None => {
            let tail = seq![0u8] + rest;
            assert(s == hb + tail);
            PotionDetailHead::lemma_round_trip(m.head, tail);
            assert(s.skip(hb.len() as int) == tail);
        },
    }
}

/// Write a potion effect's details.
fn write_potion_detail(d: &PotionEffectDetail, serializer: &mut McSerializer)
    ensures
        final(serializer).output@ == old(serializer).output@ + spec_potion_detail_bytes(d.deep_view()),
    decreases d,
{
    let ghost s0 = serializer.output@;
    let _ = d.amplifier.mc_serialize(serializer);
    let _ = d.duration.mc_serialize(serializer);
    let _ = d.ambient.mc_serialize(serializer);
    let _ = d.show_particles.mc_serialize(serializer);
    let _ = d.show_icon.mc_serialize(serializer);
    assert(serializer.output@ == s0 + PotionDetailHead::spec_serialize(d.deep_view().head));
    match &d.hidden_effect {
        Some(h) => {
            serializer.output.push(1u8);
            write_potion_detail(&**h, serializer);
        },
        None => {
            serializer.output.push(0u8);
        },
    }
}

/// Read a potion effect's details from at most `budget` bytes.
#[verifier::spinoff_prover]
#[verifier::rlimit(40)]
fn read_potion_detail(deserializer: &mut McDeserializer, Ghost(budget): Ghost<nat>) -> (r: Result<PotionEffectDetail, SerializingErr>)
    requires
        old(deserializer).remaining().len() <= budget,
    ensures
        final(deserializer).data@ == old(deserializer).data@,
        deserialized(spec_potion_detail_parse(old(deserializer).remaining()), old(deserializer).index, final(deserializer).index, r),
    decreases budget,
{
    let ghost d0 = *deserializer;
    let (amplifier, (duration, (ambient, (show_particles, show_icon)))) = PotionDetailHead::mc_deserialize(deserializer)?;
    let ghost d1 = *deserializer;
    proof {
        PotionDetailHead::lemma_deserialize_len(d0.remaining());
        lemma_remaining_advance(d0, d1, (d1.index - d0.index) as nat);
    }
    let flag = deserializer.pop_u8()?;
    if flag == 0 {
        return Ok(PotionEffectDetail { amplifier, duration, ambient, show_particles, show_icon, hidden_effect: None });
    }
    assert(deserializer.remaining() == d1.remaining().drop_first());
    let hidden = read_potion_detail(deserializer, Ghost((budget - 1) as nat))?;
    let r = PotionEffectDetail {
        amplifier,
        duration,
        ambient,
        show_particles,
        show_icon,
        hidden_effect: Some(Box::new(hidden)),
    };
    assert(r.deep_view().hidden == Some(Box::new(hidden.deep_view())));
    Ok(r)
}

impl McSerialize for PotionEffectDetail {
    open spec fn spec_serialize(v: PotionDetailModel) -> Seq<u8> {
        spec_potion_detail_bytes(v)
    }

    open spec fn spec_can_serialize(v: PotionDetailModel) -> bool {
        true
    }

    fn mc_serialize(&self, serializer: &mut McSerializer) -> (r: Result<(), SerializingErr>) {
        write_potion_detail(self, serializer);
        Ok(())
    }
}

impl McDeserialize for PotionEffectDetail {
    open spec fn spec_deserialize(s: Seq<u8>) -> ParseResult<PotionDetailModel> {
        spec_potion_detail_parse(s)
    }

    proof fn lemma_deserialize_len(s: Seq<u8>) {
        lemma_potion_detail_parse_len(s);
    }

    fn mc_deserialize(deserializer: &mut McDeserializer) -> (r: Result<PotionEffectDetail, SerializingErr>) {
        read_potion_detail(deserializer, Ghost(deserializer.remaining().len()))
    }
}

impl McRoundTrip for PotionEffectDetail {
    open spec fn spec_well_formed(v: PotionDetailModel) -> bool {
        true
    }

    proof fn lemma_round_trip(v: PotionDetailModel, rest: Seq<u8>) {
        lemma_potion_detail_round_trip(v, rest);
    }
}

/// The fields of [`PotionEffect`] as they are sent, in order.
pub type PotionEffectFields = (VarInt, PotionEffectDetail);

/// A potion effect: its type and its details.
#[derive(Debug, PartialEq)]
pub struct PotionEffect {
    pub type_id: VarInt,
    pub detail: PotionEffectDetail,
}

impl DeepView for PotionEffect {
    type V = <PotionEffectFields as DeepView>::V;

    open spec fn deep_view(&self) -> Self::V {
        (self.type_id.deep_view(), self.detail.deep_view())
    }
}

impl McSerialize for PotionEffect {
    open spec fn spec_serialize(v: Self::V) -> Seq<u8> {
        PotionEffectFields::spec_serialize(v)
    }

    open spec fn spec_can_serialize(v: Self::V) -> bool {
        PotionEffectFields::spec_can_serialize(v)
    }

    fn mc_serialize(&self, serializer: &mut McSerializer) -> (r: Result<(), SerializingErr>) {
        let _ = self.type_id.mc_serialize(serializer);
        let _ = self.detail.mc_serialize(serializer);
        assert(serializer.output@ == old(serializer).output@ + Self::spec_serialize(self.deep_view()));
        Ok(())
    }
}

impl McDeserialize for PotionEffect {
    open spec fn spec_deserialize(s: Seq<u8>) -> ParseResult<Self::V> {
        PotionEffectFields::spec_deserialize(s)
    }

    proof fn lemma_deserialize_len(s: Seq<u8>) {
        PotionEffectFields::lemma_deserialize_len(s);
    }

    fn mc_deserialize(deserializer: &mut McDeserializer) -> (r: Result<PotionEffect, SerializingErr>) {
        let (type_id, detail) = PotionEffectFields::mc_deserialize(deserializer)?;
        Ok(PotionEffect { type_id, detail })
    }
}

impl McRoundTrip for PotionEffect {
    open spec fn spec_well_formed(v: Self::V) -> bool {
        PotionEffectFields::spec_well_formed(v)
    }

    proof fn lemma_round_trip(v: Self::V, rest: Seq<u8>) {
        PotionEffectFields::lemma_round_trip(v, rest);
    }
}

} // verus!
