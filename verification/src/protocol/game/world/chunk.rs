//! The data formats used to send chunk columns: paletted containers of block states and biomes,
//! the sections built from them, and light data.
//!
//! https://minecraft.wiki/w/Java_Edition_protocol/Chunk_format

use crate::game::world::chunk::{
    lemma_entry_of_zero, lemma_entry_write_frame, lemma_entry_write_read, spec_entry_at,
    spec_low_bits, spec_with_entry_at, deserialize_words, lemma_words_parse_len, spec_entries_per_i64,
    spec_word_count, spec_words_parse, word_count, PackedEntries, PaletteModel,
};
use crate::protocol::serialization::primitives::u64_bytes;
use crate::protocol::serialization::serializer_types::{
    deserialize_all, lemma_parse_all_len, lemma_parse_all_round_trip, lemma_parse_n_round_trip,
    parse_all, parse_n, seq_can_serialize, seq_serialize, seq_well_formed, serialize_all,
    spec_prefixed_parse, PrefixedArray,
};
use crate::protocol::serialization::var_int::{read_varint, spec_varint_parse, VarInt};
use crate::util::bitset::BitSet;
use crate::protocol_types::datatypes::nbt::NbtCompound;
use crate::protocol::serialization::{
    deserialized, lemma_remaining_advance, ErrKind, McDeserialize, McDeserializer, McRoundTrip,
    McSerialize, McSerializer, ParseResult, SerializingErr,
};
use vstd::prelude::*;

verus! {

/// Which kind of entries a container holds; it decides the palette formats allowed.
#[derive(Debug, Clone, Copy, Hash, PartialEq, Eq)]
pub enum PaletteFormatType {
    BLOCKS,
    BIOMES,
}

/// Whether entries of `bpe` bits holding `typ` index an indirect palette: 4 to 8 bits for block
/// states, 1 to 3 bits for biomes.
pub open spec fn spec_indirect_bpe(bpe: u8, typ: PaletteFormatType) -> bool {
    match typ {
        PaletteFormatType::BLOCKS => 4 <= bpe <= 8,
        PaletteFormatType::BIOMES => 1 <= bpe <= 3,
    }
}

/// The width of entries that are values themselves, with no palette: 15 bits for block states,
/// 7 bits for biomes.
pub open spec fn spec_direct_bpe(typ: PaletteFormatType) -> u8 {
    match typ {
        PaletteFormatType::BLOCKS => 15,
        PaletteFormatType::BIOMES => 7,
    }
}

/// The list of values that the entries of a container index.
#[derive(Debug, Clone, PartialEq)]
pub struct IndirectFormat {
    pub palette: PrefixedArray<VarInt>,
}

impl DeepView for IndirectFormat {
    type V = Seq<VarInt>;

    open spec fn deep_view(&self) -> Seq<VarInt> {
        self.palette.deep_view()
    }
}

impl McSerialize for IndirectFormat {
    open spec fn spec_serialize(v: Seq<VarInt>) -> Seq<u8> {
        PrefixedArray::<VarInt>::spec_serialize(v)
    }

    open spec fn spec_can_serialize(v: Seq<VarInt>) -> bool {
        PrefixedArray::<VarInt>::spec_can_serialize(v)
    }

    fn mc_serialize(&self, serializer: &mut McSerializer) -> (r: Result<(), SerializingErr>) {
        self.palette.mc_serialize(serializer)
    }
}

impl McDeserialize for IndirectFormat {
    open spec fn spec_deserialize(s: Seq<u8>) -> ParseResult<Seq<VarInt>> {
        PrefixedArray::<VarInt>::spec_deserialize(s)
    }

    proof fn lemma_deserialize_len(s: Seq<u8>) {
        PrefixedArray::<VarInt>::lemma_deserialize_len(s);
    }

    fn mc_deserialize(deserializer: &mut McDeserializer) -> (r: Result<IndirectFormat, SerializingErr>) {
        let palette = PrefixedArray::<VarInt>::mc_deserialize(deserializer)?;
        Ok(IndirectFormat { palette })
    }
}

impl McRoundTrip for IndirectFormat {
    open spec fn spec_well_formed(v: Seq<VarInt>) -> bool {
        true
    }

    proof fn lemma_round_trip(v: Seq<VarInt>, rest: Seq<u8>) {
        assert(seq_well_formed::<VarInt>(v));
        PrefixedArray::<VarInt>::lemma_round_trip(v, rest);
    }
}

/// The palette of a container.
#[derive(Debug, Clone, PartialEq)]
pub enum PalleteFormat {
    SingleValued(VarInt),
    Indirect(IndirectFormat),
    Direct,
}

impl DeepView for PalleteFormat {
    type V = PaletteModel<Seq<VarInt>>;

    open spec fn deep_view(&self) -> PaletteModel<Seq<VarInt>> {
        match self {
            PalleteFormat::SingleValued(v) => PaletteModel::SingleValued(*v),
            PalleteFormat::Indirect(f) => PaletteModel::Indirect(f.deep_view()),
            PalleteFormat::Direct => PaletteModel::Direct,
        }
    }
}

impl McSerialize for PalleteFormat {
    open spec fn spec_serialize(v: PaletteModel<Seq<VarInt>>) -> Seq<u8> {
        match v {
            PaletteModel::SingleValued(x) => VarInt::spec_serialize(x),
            PaletteModel::Indirect(f) => IndirectFormat::spec_serialize(f),
            PaletteModel::Direct => Seq::<u8>::empty(),
        }
    }

    open spec fn spec_can_serialize(v: PaletteModel<Seq<VarInt>>) -> bool {
        v matches PaletteModel::Indirect(f) ==> IndirectFormat::spec_can_serialize(f)
    }

    fn mc_serialize(&self, serializer: &mut McSerializer) -> (r: Result<(), SerializingErr>) {
        match self {
            PalleteFormat::SingleValued(value) => {
                let _ = value.mc_serialize(serializer);
            },
            PalleteFormat::Indirect(format) => {
                let _ = format.mc_serialize(serializer);
            },
            PalleteFormat::Direct => {
                assert(old(serializer).output@ + Seq::<u8>::empty() == old(serializer).output@);
            },
        }
        Ok(())
    }
}

/// The parse of the palette for entries of `bpe` bits holding `typ`: a single value at width 0,
/// a list in the indirect range, nothing at the direct width, and an error at any other width.
pub open spec fn spec_palette_parse(s: Seq<u8>, bpe: u8, typ: PaletteFormatType) -> ParseResult<PaletteModel<Seq<VarInt>>> {
    if bpe == 0 {
        match spec_varint_parse(s) {
            Ok((v, n)) => Ok((PaletteModel::SingleValued(v), n)),
            Err(e) => Err(e),
        }
    } else if spec_indirect_bpe(bpe, typ) {
        match IndirectFormat::spec_deserialize(s) {
            Ok((f, n)) => Ok((PaletteModel::Indirect(f), n)),
            Err(e) => Err(e),
        }
    } else if bpe == spec_direct_bpe(typ) {
        Ok((PaletteModel::Direct, 0nat))
    } else {
        Err(ErrKind::InvalidBitsPerEntry)
    }
}

pub proof fn lemma_palette_parse_len(s: Seq<u8>, bpe: u8, typ: PaletteFormatType)
    ensures
        spec_palette_parse(s, bpe, typ) matches Ok((p, n)) ==> n <= s.len(),
{
    VarInt::lemma_deserialize_len(s);
    IndirectFormat::lemma_deserialize_len(s);
}

impl PalleteFormat {
    /// Read the palette for entries of `bits_per_entry` bits holding `typ`. A width that is
    /// refused leaves the reader where it was.
    pub fn mc_deserialize(deserializer: &mut McDeserializer, bits_per_entry: u8, typ: PaletteFormatType) -> (r: Result<PalleteFormat, SerializingErr>)
        ensures
            final(deserializer).data@ == old(deserializer).data@,
            deserialized(spec_palette_parse(old(deserializer).remaining(), bits_per_entry, typ), old(deserializer).index, final(deserializer).index, r),
            (bits_per_entry != 0 && !spec_indirect_bpe(bits_per_entry, typ) && bits_per_entry != spec_direct_bpe(typ))
                ==> final(deserializer).index == old(deserializer).index,
    {
        if bits_per_entry == 0 {
            return Ok(PalleteFormat::SingleValued(read_varint(deserializer)?));
        }
        match typ {
            PaletteFormatType::BLOCKS => {
                if bits_per_entry >= 4 && bits_per_entry <= 8 {
                    Ok(PalleteFormat::Indirect(IndirectFormat::mc_deserialize(deserializer)?))
                } else if bits_per_entry == 15 {
                    Ok(PalleteFormat::Direct)
                } else {
                    Err(SerializingErr::InvalidBitsPerEntry)
                }
            },
            PaletteFormatType::BIOMES => {
                if bits_per_entry >= 1 && bits_per_entry <= 3 {
                    Ok(PalleteFormat::Indirect(IndirectFormat::mc_deserialize(deserializer)?))
                } else if bits_per_entry == 7 {
                    Ok(PalleteFormat::Direct)
                } else {
                    Err(SerializingErr::InvalidBitsPerEntry)
                }
            },
        }
    }
}

/// A container of entries: their width, the palette they index, and the packed words.
#[derive(Debug, Clone, PartialEq)]
pub struct PalletedContainer {
    pub bits_per_entry: u8,
    pub palette: PalleteFormat,
    pub data: Vec<PackedEntries>,
}

impl DeepView for PalletedContainer {
    type V = (u8, PaletteModel<Seq<VarInt>>, Seq<PackedEntries>);

    open spec fn deep_view(&self) -> Self::V {
        (self.bits_per_entry, self.palette.deep_view(), self.data.deep_view())
    }
}

impl McSerialize for PalletedContainer {
    open spec fn spec_serialize(v: Self::V) -> Seq<u8> {
        seq![v.0] + PalleteFormat::spec_serialize(v.1) + seq_serialize::<PackedEntries>(v.2)
    }

    open spec fn spec_can_serialize(v: Self::V) -> bool {
        PalleteFormat::spec_can_serialize(v.1)
    }

    fn mc_serialize(&self, serializer: &mut McSerializer) -> (r: Result<(), SerializingErr>) {
        serializer.output.push(self.bits_per_entry);
        let _ = self.palette.mc_serialize(serializer);
        serialize_all(&self.data, serializer);
        Ok(())
    }
}

/// The parse of a container of `num_entries` entries holding `typ`: the width, the palette, and,
/// unless the width is 0, as many words as the entries need.
pub open spec fn spec_container_parse(s: Seq<u8>, num_entries: u16, typ: PaletteFormatType) -> ParseResult<<PalletedContainer as DeepView>::V> {
    if s.len() == 0 {
        Err(ErrKind::InputEnded)
    } else {
        let bpe = s[0];
        match spec_palette_parse(s.skip(1), bpe, typ) {
            Ok((p, n)) => if bpe == 0 {
                Ok(((bpe, p, Seq::<PackedEntries>::empty()), 1 + n))
            } else {
                match spec_words_parse(s.skip((1 + n) as int), spec_word_count(num_entries, bpe) as nat, bpe) {
                    Ok((w, k)) => Ok(((bpe, p, w), 1 + n + k)),
                    Err(e) => Err(e),
                }
            },
            Err(e) => Err(e),
        }
    }
}

pub proof fn lemma_container_parse_len(s: Seq<u8>, num_entries: u16, typ: PaletteFormatType)
    ensures
        spec_container_parse(s, num_entries, typ) matches Ok((c, n)) ==> 1 <= n <= s.len(),
{
    if s.len() > 0 {
        lemma_palette_parse_len(s.skip(1), s[0], typ);
        if let Ok((p, n)) = spec_palette_parse(s.skip(1), s[0], typ) {
            lemma_words_parse_len(s.skip((1 + n) as int), spec_word_count(num_entries, s[0]) as nat, s[0]);
        }
    }
}

/// Whether a container of `num_entries` entries holding `typ` is laid out as its width says:
/// the palette format matches the width, and there are exactly as many words, all of that width,
/// as the entries need (none at width 0).
pub open spec fn spec_container_well_formed(v: <PalletedContainer as DeepView>::V, num_entries: u16, typ: PaletteFormatType) -> bool {
    let bpe = v.0;
    &&& match v.1 {
        PaletteModel::SingleValued(_) => bpe == 0,
        PaletteModel::Indirect(_) => spec_indirect_bpe(bpe, typ),
        PaletteModel::Direct => bpe == spec_direct_bpe(typ),
    }
    &&& if bpe == 0 {
        v.2.len() == 0
    } else {
        v.2.len() == spec_word_count(num_entries, bpe) && forall|i: int| 0 <= i < v.2.len() ==> (#[trigger] v.2[i]).bpe == bpe
    }
}

/// The bytes of packed words are the bytes of their 64-bit values.
pub proof fn lemma_words_bytes(ws: Seq<PackedEntries>)
    ensures
        seq_serialize::<PackedEntries>(ws) == seq_serialize::<i64>(ws.map_values(|w: PackedEntries| w.data)),
    decreases ws.len(),
{
    if ws.len() > 0 {
        lemma_words_bytes(ws.drop_last());
        assert(ws.drop_last().map_values(|w: PackedEntries| w.data) == ws.map_values(|w: PackedEntries| w.data).drop_last());
    } else {
        assert(ws.map_values(|w: PackedEntries| w.data) =~= Seq::<i64>::empty());
    }
}

/// A well-formed container reads back as it was written, whatever bytes follow it.
pub proof fn lemma_container_round_trip(v: <PalletedContainer as DeepView>::V, num_entries: u16, typ: PaletteFormatType, rest: Seq<u8>)
    requires
        spec_container_well_formed(v, num_entries, typ),
        PalletedContainer::spec_can_serialize(v),
    ensures
        spec_container_parse(PalletedContainer::spec_serialize(v) + rest, num_entries, typ)
            == Ok::<(<PalletedContainer as DeepView>::V, nat), ErrKind>((v, PalletedContainer::spec_serialize(v).len())),
{
    let bpe = v.0;
    let pb = PalleteFormat::spec_serialize(v.1);
    let wb = seq_serialize::<PackedEntries>(v.2);
    let s = PalletedContainer::spec_serialize(v) + rest;
    assert(s == seq![bpe] + (pb + (wb + rest)));
    assert(s[0] == bpe);
    assert(s.skip(1) == pb + (wb + rest));
    match v.1 {
        PaletteModel::SingleValued(x) => {
            VarInt::lemma_round_trip(x, wb + rest);
        },
        PaletteModel::Indirect(f) => {
            IndirectFormat::lemma_round_trip(f, wb + rest);
        },
        PaletteModel::Direct => {
            assert(pb + (wb + rest) == wb + rest);
        },
    }
    assert(spec_palette_parse(s.skip(1), bpe, typ) == Ok::<(PaletteModel<Seq<VarInt>>, nat), ErrKind>((v.1, pb.len())));
    assert(s.skip((1 + pb.len()) as int) == wb + rest);
    if bpe == 0 {
        assert(v.2 =~= Seq::<PackedEntries>::empty());
    } else {
        let raw = v.2.map_values(|w: PackedEntries| w.data);
        lemma_words_bytes(v.2);
        assert(seq_can_serialize::<i64>(raw));
        assert(seq_well_formed::<i64>(raw));
        lemma_parse_n_round_trip::<i64>(raw, rest);
        assert(raw.len() == spec_word_count(num_entries, bpe));
        assert(raw.map_values(|x: i64| PackedEntries { data: x, bpe }) =~= v.2);
    }
}

/// The number of bits needed to write `n`; none for 0.
pub open spec fn spec_bit_length(n: nat) -> nat
    decreases n,
{
    if n == 0 {
        0
    } else {
        1 + spec_bit_length(n / 2)
    }
}

/// The fewest bits that index a palette of `len` values, and at least 1.
pub open spec fn spec_palette_bits(len: nat) -> nat {
    let b = spec_bit_length((len - 1) as nat);
    if b == 0 { 1 } else { b }
}

/// The narrowest width of an indirect container holding `typ`.
pub open spec fn spec_min_indirect_bpe(typ: PaletteFormatType) -> u8 {
    match typ {
        PaletteFormatType::BLOCKS => 4,
        PaletteFormatType::BIOMES => 1,
    }
}

/// The widest width of an indirect container holding `typ`.
pub open spec fn spec_max_indirect_bpe(typ: PaletteFormatType) -> u8 {
    match typ {
        PaletteFormatType::BLOCKS => 8,
        PaletteFormatType::BIOMES => 3,
    }
}

/// The width of an indirect container holding `typ` with a palette of `len` values: the bits
/// that index the palette, raised to the narrowest width allowed.
pub open spec fn spec_indirect_width(len: nat, typ: PaletteFormatType) -> nat {
    let b = spec_palette_bits(len);
    if b < spec_min_indirect_bpe(typ) { spec_min_indirect_bpe(typ) as nat } else { b }
}

/// The entry in slot `s` of word `w` when a word holds `per` entries.
pub open spec fn spec_slot_entry(word: i64, bpe: u8, s: int) -> u64 {
    spec_entry_at(word, bpe, (s * bpe) as u8)
}

/// What slot `s` of word `w` holds when `indices` are packed `bpe` bits to an entry: entry
/// number `w * per + s`, cut to its low `bpe` bits, or 0 past the last entry.
pub open spec fn spec_packed_slot(indices: Seq<u16>, bpe: u8, w: int, s: int) -> u64 {
    let j = w * spec_entries_per_i64(bpe) + s;
    if j < indices.len() { spec_low_bits(indices[j] as u64, bpe) } else { 0 }
}

/// The bits of `word` from `used` up are clear.
pub open spec fn spec_padding_clear(word: i64, used: u8) -> bool {
    used >= 64 || word >> used == 0i64
}

/// Whether `words` pack `indices`, `bpe` bits to an entry and as many entries to a word as fit
/// whole: one word for each started run of entries, every word of width `bpe`, each slot holding
/// its entry (0 past the last), and the bits past the last slot of a word clear.
pub open spec fn spec_packs(words: Seq<PackedEntries>, indices: Seq<u16>, bpe: u8) -> bool {
    let per = spec_entries_per_i64(bpe);
    &&& words.len() == (indices.len() + per - 1) / per as int
    &&& forall|w: int| 0 <= w < words.len() ==> (#[trigger] words[w]).bpe == bpe
    &&& forall|w: int, s: int| 0 <= w < words.len() && 0 <= s < per
        ==> #[trigger] spec_slot_entry(words[w].data, bpe, s) == spec_packed_slot(indices, bpe, w, s)
    &&& forall|w: int| 0 <= w < words.len() ==> spec_padding_clear(#[trigger] words[w].data, (per * bpe) as u8)
}

proof fn lemma_per_word(bpe: u8)
    requires
        1 <= bpe <= 8,
    ensures
        8 <= spec_entries_per_i64(bpe),
        spec_entries_per_i64(bpe) * bpe <= 64,
        64 < spec_entries_per_i64(bpe) * bpe + bpe,
{
    let per = spec_entries_per_i64(bpe);
    if bpe == 1 {
        vstd::arithmetic::div_mod::lemma_fundamental_div_mod_converse(64, 1, 64, 0);
        assert(per == 64);
    } else if bpe == 2 {
        vstd::arithmetic::div_mod::lemma_fundamental_div_mod_converse(64, 2, 32, 0);
        assert(per == 32);
    } else if bpe == 3 {
        vstd::arithmetic::div_mod::lemma_fundamental_div_mod_converse(64, 3, 21, 1);
        assert(per == 21);
    } else if bpe == 4 {
        vstd::arithmetic::div_mod::lemma_fundamental_div_mod_converse(64, 4, 16, 0);
        assert(per == 16);
    } else if bpe == 5 {
        vstd::arithmetic::div_mod::lemma_fundamental_div_mod_converse(64, 5, 12, 4);
        assert(per == 12);
    } else if bpe == 6 {
        vstd::arithmetic::div_mod::lemma_fundamental_div_mod_converse(64, 6, 10, 4);
        assert(per == 10);
    } else if bpe == 7 {
        vstd::arithmetic::div_mod::lemma_fundamental_div_mod_converse(64, 7, 9, 1);
        assert(per == 9);
    } else {
        vstd::arithmetic::div_mod::lemma_fundamental_div_mod_converse(64, 8, 8, 0);
        assert(per == 8);
    }
}

proof fn lemma_slot_in_word(s: int, per: int, bpe: int)
    by (nonlinear_arith)
    requires
        0 <= s < per,
        per * bpe <= 64,
        0 < bpe,
    ensures
        0 <= s * bpe,
        s * bpe + bpe <= per * bpe,
{
}

proof fn lemma_slots_apart(s1: int, s2: int, bpe: int)
    by (nonlinear_arith)
    requires
        0 <= s1 < s2,
        0 < bpe,
    ensures
        s1 * bpe + bpe <= s2 * bpe,
{
}

proof fn lemma_earlier_word(w1: int, w2: int, s: int, per: int)
    by (nonlinear_arith)
    requires
        0 <= w1 < w2,
        0 <= s < per,
    ensures
        w1 * per + s < w2 * per,
{
}

proof fn lemma_next_word(w: int, per: int)
    by (nonlinear_arith)
    ensures
        w * per + per == (w + 1) * per,
{
}

proof fn lemma_word_count(w: int, s: int, per: int)
    requires
        0 <= w,
        0 <= s < per,
    ensures
        (w * per + s + per - 1) / per == w + if s > 0 { 1int } else { 0int },
{
    if s > 0 {
        lemma_next_word(w, per);
        vstd::arithmetic::div_mod::lemma_fundamental_div_mod_converse(w * per + s + per - 1, per, w + 1, s - 1);
    } else {
        vstd::arithmetic::div_mod::lemma_fundamental_div_mod_converse(w * per + s + per - 1, per, w, per - 1);
    }
}

/// Writing an entry below the padding of a word keeps the padding clear.
proof fn lemma_write_keeps_padding(data: i64, bpe: u8, shift: u8, value: u64, used: u8)
    requires
        1 <= bpe <= 30,
        shift + bpe <= used,
        spec_padding_clear(data, used),
    ensures
        spec_padding_clear(spec_with_entry_at(data, bpe, shift, value), used),
{
    if used < 64 {
        assert(((data & !((((1i64 << bpe) - 1) as i64) << shift)) | ((((value & ((((1i64 << bpe) - 1) as i64) as u64)) << shift) as i64))) as i64 >> used == 0i64) by (bit_vector)
            requires
                1 <= bpe <= 30,
                shift + bpe <= used,
                used < 64,
                data >> used == 0i64,
        ;
    }
}

proof fn lemma_zero_padding(used: u8)
    ensures
        spec_padding_clear(0i64, used),
{
    if used < 64 {
        assert(0i64 >> used == 0i64) by (bit_vector);
    }
}

impl PalletedContainer {
    /// A container in which every entry is `value`: width 0, a single-valued palette, no words.
    /// All-air block sections and single-biome sections use it.
    pub fn single_valued(value: VarInt) -> (c: Self)
        ensures
            c.deep_view() == (0u8, PaletteModel::<Seq<VarInt>>::SingleValued(value), Seq::<PackedEntries>::empty()),
    {
        let c = PalletedContainer { bits_per_entry: 0, palette: PalleteFormat::SingleValued(value), data: Vec::new() };
        assert(c.data.deep_view() =~= Seq::<PackedEntries>::empty());
        c
    }

    /// A container that indexes `palette`, entry `i` being `indices[i]`. The entries take the
    /// fewest bits that index the palette, raised to the narrowest indirect width for `typ`, and
    /// are packed as [`spec_packs`] says. `indices.len()` is the number of entries in the section
    /// (4096 for blocks, 64 for biomes). An empty palette is refused, and so is one too large for
    /// the indirect widths of `typ` (the direct format holds such sections).
    pub fn indirect(palette: Vec<VarInt>, indices: &[u16], typ: PaletteFormatType) -> (r: Result<Self, SerializingErr>)
        ensures
            palette@.len() == 0 ==> (r matches Err(e) && e.kind() == ErrKind::OutOfBounds),
            palette@.len() > 0 && spec_palette_bits(palette@.len()) > spec_max_indirect_bpe(typ)
                ==> (r matches Err(e) && e.kind() == ErrKind::InvalidBitsPerEntry),
            palette@.len() > 0 && spec_palette_bits(palette@.len()) <= spec_max_indirect_bpe(typ) ==> (r matches Ok(c)
                && c.bits_per_entry == spec_indirect_width(palette@.len(), typ)
                && c.palette.deep_view() == PaletteModel::Indirect(palette.deep_view())
                && spec_packs(c.data.deep_view(), indices@, c.bits_per_entry)),
    {
        let len = palette.len();
        if len == 0 {
            return Err(SerializingErr::OutOfBounds("Indirect palette must contain at least one entry".to_string()));
        }
        // the bits needed to write the largest palette index; counting stops past any allowed width
        let mut m: usize = len - 1;
        let mut bits: u8 = 0;
        while m > 0 && bits < 9
            invariant
                bits <= 9,
                bits + spec_bit_length(m as nat) == spec_bit_length((len - 1) as nat),
            decreases m,
        {
            m = m / 2;
            bits = bits + 1;
        }
        let needed: u8 = if bits == 0 { 1 } else { bits };
        let (min_bpe, max_bpe): (u8, u8) = match typ {
            PaletteFormatType::BLOCKS => (4, 8),
            PaletteFormatType::BIOMES => (1, 3),
        };
        if needed > max_bpe {
            return Err(SerializingErr::InvalidBitsPerEntry);
        }
        let bpe: u8 = if needed < min_bpe { min_bpe } else { needed };
        let per: u8 = entries_per_i64(bpe);
        proof {
            lemma_per_word(bpe);
        }
        let mut data: Vec<PackedEntries> = Vec::new();
        let mut w: usize = 0;
        let mut s: u8 = 0;
        let mut i: usize = 0;
        while i < indices.len()
            invariant
                1 <= bpe <= 8,
                per == spec_entries_per_i64(bpe),
                8 <= per,
                per * bpe <= 64,
                i <= indices.len(),
                s < per,
                i == w * per + s,
                data.len() == w + if s > 0 { 1int } else { 0int },
                forall|x: int| 0 <= x < data.len() ==> (#[trigger] data@[x]).bpe == bpe,
                forall|x: int, y: int| 0 <= x < data.len() && 0 <= y < per ==> #[trigger] spec_slot_entry(data@[x].data, bpe, y)
                    == if x * per + y < i { spec_low_bits(indices@[x * per + y] as u64, bpe) } else { 0u64 },
                forall|x: int| 0 <= x < data.len() ==> spec_padding_clear(#[trigger] data@[x].data, (per * bpe) as u8),
            decreases indices.len() - i,
        {
            if s == 0 {
                data.push(PackedEntries::new(bpe));
                proof {
                    lemma_zero_padding((per * bpe) as u8);
                    assert forall|y: int| 0 <= y < per implies #[trigger] spec_slot_entry(0i64, bpe, y) == 0u64 by {
                        lemma_slot_in_word(y, per as int, bpe as int);
                        lemma_entry_of_zero(bpe, (y * bpe) as u8);
                    }
                }
            }
            let ghost before = data@;
            let mut word = data[w];
            proof {
                lemma_slot_in_word(s as int, per as int, bpe as int);
                assert(word.bpe == bpe);
            }
            word.set_entry(s, indices[i] as u64);
            data.set(w, word);
            proof {
                lemma_slot_in_word(s as int, per as int, bpe as int);
                lemma_write_keeps_padding(before[w as int].data, bpe, (s * bpe) as u8, indices@[i as int] as u64, (per * bpe) as u8);
                assert forall|x: int, y: int| 0 <= x < data.len() && 0 <= y < per implies #[trigger] spec_slot_entry(data@[x].data, bpe, y)
                    == if x * per + y < i + 1 { spec_low_bits(indices@[x * per + y] as u64, bpe) } else { 0u64 } by {
                    lemma_slot_in_word(y, per as int, bpe as int);
                    if x == w {
                        if y == s {
                            lemma_entry_write_read(before[x].data, bpe, (s * bpe) as u8, indices@[i as int] as u64);
                        } else {
                            if y < s {
                                lemma_slots_apart(y, s as int, bpe as int);
                            } else {
                                lemma_slots_apart(s as int, y, bpe as int);
                            }
                            lemma_entry_write_frame(before[x].data, bpe, (s * bpe) as u8, indices@[i as int] as u64, (y * bpe) as u8);
                            assert(spec_slot_entry(before[x].data, bpe, y) == if x * per + y < i { spec_low_bits(indices@[x * per + y] as u64, bpe) } else { 0u64 });
                        }
                    } else {
                        lemma_earlier_word(x, w as int, y, per as int);
                        assert(data@[x] == before[x]);
                        assert(spec_slot_entry(before[x].data, bpe, y) == if x * per + y < i { spec_low_bits(indices@[x * per + y] as u64, bpe) } else { 0u64 });
                    }
                }
                assert forall|x: int| 0 <= x < data.len() implies spec_padding_clear(#[trigger] data@[x].data, (per * bpe) as u8) by {
                    if x != w {
                        assert(data@[x] == before[x]);
                    }
                }
                assert forall|x: int| 0 <= x < data.len() implies (#[trigger] data@[x]).bpe == bpe by {
                    if x != w {
                        assert(data@[x] == before[x]);
                    }
                }
            }
            i = i + 1;
            if s + 1 == per {
                proof {
                    lemma_next_word(w as int, per as int);
                }
                s = 0;
                w = w + 1;
            } else {
                s = s + 1;
            }
        }
        proof {
            lemma_word_count(w as int, s as int, per as int);
            assert(data.deep_view() =~= data@);
        }
        Ok(PalletedContainer {
            bits_per_entry: bpe,
            palette: PalleteFormat::Indirect(IndirectFormat { palette: PrefixedArray::new(palette) }),
            data,
        })
    }

    /// Read a container of `num_entries` entries holding `typ`.
    pub fn mc_deserialize(deserializer: &mut McDeserializer, num_entries: u16, typ: PaletteFormatType) -> (r: Result<PalletedContainer, SerializingErr>)
        ensures
            final(deserializer).data@ == old(deserializer).data@,
            deserialized(spec_container_parse(old(deserializer).remaining(), num_entries, typ), old(deserializer).index, final(deserializer).index, r),
    {
        let ghost d0 = *deserializer;
        let bpe = deserializer.pop_u8()?;
        let ghost d1 = *deserializer;
        proof {
            lemma_remaining_advance(d0, d1, 1);
        }
        let palette = PalleteFormat::mc_deserialize(deserializer, bpe, typ)?;
        proof {
            lemma_palette_parse_len(d1.remaining(), bpe, typ);
            lemma_remaining_advance(d1, *deserializer, (deserializer.index - d1.index) as nat);
            assert(d1.remaining().skip((deserializer.index - d1.index) as int) == d0.remaining().skip(deserializer.index - d0.index));
        }
        if bpe == 0 {
            let data: Vec<PackedEntries> = Vec::new();
            assert(data.deep_view() =~= Seq::<PackedEntries>::empty());
            return Ok(PalletedContainer { bits_per_entry: bpe, palette, data });
        }
        let count = word_count(num_entries, bpe);
        let data = deserialize_words(deserializer, count as usize, bpe)?;
        Ok(PalletedContainer { bits_per_entry: bpe, palette, data })
    }
}

/// One 16-block-tall section of a chunk column.
#[derive(Debug, Clone, PartialEq)]
pub struct ChunkSection {
    /// Number of non-air blocks present in the chunk section. "Non-air" is defined as any fluid and block other than air, cave air, and void air
    pub block_count: i16,
    /// Consists of 4096 entries, representing all the blocks in the chunk section
    pub block_states: PalletedContainer,
    /// Consists of 64 entries, representing 4×4×4 biome regions in the chunk section
    pub biomes: PalletedContainer,
}

impl DeepView for ChunkSection {
    type V = (i16, <PalletedContainer as DeepView>::V, <PalletedContainer as DeepView>::V);

    open spec fn deep_view(&self) -> Self::V {
        (self.block_count, self.block_states.deep_view(), self.biomes.deep_view())
    }
}

impl McSerialize for ChunkSection {
    open spec fn spec_serialize(v: Self::V) -> Seq<u8> {
        i16::spec_serialize(v.0) + PalletedContainer::spec_serialize(v.1) + PalletedContainer::spec_serialize(v.2)
    }

    open spec fn spec_can_serialize(v: Self::V) -> bool {
        PalletedContainer::spec_can_serialize(v.1) && PalletedContainer::spec_can_serialize(v.2)
    }

    fn mc_serialize(&self, serializer: &mut McSerializer) -> (r: Result<(), SerializingErr>) {
        let _ = self.block_count.mc_serialize(serializer);
        let _ = self.block_states.mc_serialize(serializer);
        let _ = self.biomes.mc_serialize(serializer);
        Ok(())
    }
}

impl McDeserialize for ChunkSection {
    /// The block count, then a container of 4096 block states, then one of 64 biomes.
    open spec fn spec_deserialize(s: Seq<u8>) -> ParseResult<Self::V> {
        match i16::spec_deserialize(s) {
            Ok((count, n1)) => match spec_container_parse(s.skip(n1 as int), 4096, PaletteFormatType::BLOCKS) {
                Ok((blocks, n2)) => match spec_container_parse(s.skip((n1 + n2) as int), 64, PaletteFormatType::BIOMES) {
                    Ok((biomes, n3)) => Ok(((count, blocks, biomes), n1 + n2 + n3)),
                    Err(e) => Err(e),
                },
                Err(e) => Err(e),
            },
            Err(e) => Err(e),
        }
    }

    proof fn lemma_deserialize_len(s: Seq<u8>) {
        if let Ok((count, n1)) = i16::spec_deserialize(s) {
            lemma_container_parse_len(s.skip(n1 as int), 4096, PaletteFormatType::BLOCKS);
            if let Ok((blocks, n2)) = spec_container_parse(s.skip(n1 as int), 4096, PaletteFormatType::BLOCKS) {
                lemma_container_parse_len(s.skip((n1 + n2) as int), 64, PaletteFormatType::BIOMES);
            }
        }
    }

    fn mc_deserialize(deserializer: &mut McDeserializer) -> (r: Result<ChunkSection, SerializingErr>) {
        let ghost d0 = *deserializer;
        let block_count = i16::mc_deserialize(deserializer)?;
        let ghost d1 = *deserializer;
        proof {
            lemma_remaining_advance(d0, d1, 2);
        }
        let block_states = PalletedContainer::mc_deserialize(deserializer, 4096, PaletteFormatType::BLOCKS)?;
        proof {
            lemma_container_parse_len(d1.remaining(), 4096, PaletteFormatType::BLOCKS);
            lemma_remaining_advance(d1, *deserializer, (deserializer.index - d1.index) as nat);
            assert(d1.remaining().skip((deserializer.index - d1.index) as int) == d0.remaining().skip(deserializer.index - d0.index));
        }
        let biomes = PalletedContainer::mc_deserialize(deserializer, 64, PaletteFormatType::BIOMES)?;
        Ok(ChunkSection { block_count, block_states, biomes })
    }
}

impl McRoundTrip for ChunkSection {
    /// The block states are a well-formed container of 4096 entries, the biomes one of 64.
    open spec fn spec_well_formed(v: Self::V) -> bool {
        spec_container_well_formed(v.1, 4096, PaletteFormatType::BLOCKS)
            && spec_container_well_formed(v.2, 64, PaletteFormatType::BIOMES)
    }

    proof fn lemma_round_trip(v: Self::V, rest: Seq<u8>) {
        let cb = i16::spec_serialize(v.0);
        let bb = PalletedContainer::spec_serialize(v.1);
        let gb = PalletedContainer::spec_serialize(v.2);
        let s = Self::spec_serialize(v) + rest;
        assert(s == cb + (bb + (gb + rest)));
        i16::lemma_round_trip(v.0, bb + (gb + rest));
        assert(s.skip(cb.len() as int) == bb + (gb + rest));
        lemma_container_round_trip(v.1, 4096, PaletteFormatType::BLOCKS, gb + rest);
        assert(s.skip((cb.len() + bb.len()) as int) == gb + rest);
        lemma_container_round_trip(v.2, 64, PaletteFormatType::BIOMES, rest);
    }
}

proof fn lemma_word_count_fits(n: int, per: int)
    by (nonlinear_arith)
    requires
        0 <= n <= 65535,
        8 <= per,
    ensures
        0 <= (n + per - 1) / per <= 65535,
{
}

/// What `indirect` builds from a nonempty palette that its widths can index is a well-formed
/// container of as many entries as there were indices.
pub proof fn lemma_indirect_well_formed(v: <PalletedContainer as DeepView>::V, palette: Seq<VarInt>, indices: Seq<u16>, typ: PaletteFormatType)
    requires
        palette.len() > 0,
        spec_palette_bits(palette.len()) <= spec_max_indirect_bpe(typ),
        indices.len() <= 65535,
        v.0 == spec_indirect_width(palette.len(), typ),
        v.1 == PaletteModel::Indirect(palette),
        spec_packs(v.2, indices, v.0),
    ensures
        spec_container_well_formed(v, indices.len() as u16, typ),
{
    let bpe = v.0;
    assert(spec_indirect_bpe(bpe, typ));
    lemma_per_word(bpe);
    lemma_word_count_fits(indices.len() as int, spec_entries_per_i64(bpe) as int);
    assert(v.2.len() == spec_word_count(indices.len() as u16, bpe));
}

/// What `single_valued` builds is a well-formed container, whatever the number of entries.
pub proof fn lemma_single_valued_well_formed(value: VarInt, num_entries: u16, typ: PaletteFormatType)
    ensures
        spec_container_well_formed((0u8, PaletteModel::<Seq<VarInt>>::SingleValued(value), Seq::<PackedEntries>::empty()), num_entries, typ),
{
}

/// A section whose block states `indirect` built from 4096 indices and a palette of at most
/// `i32::MAX` values, and whose biomes `single_valued` built, reads back exactly as it was
/// written, whatever bytes follow it.
pub proof fn lemma_built_section_round_trip(
    count: i16,
    blocks: <PalletedContainer as DeepView>::V,
    palette: Seq<VarInt>,
    indices: Seq<u16>,
    biome: VarInt,
    rest: Seq<u8>,
)
    requires
        0 < palette.len() <= i32::MAX,
        spec_palette_bits(palette.len()) <= spec_max_indirect_bpe(PaletteFormatType::BLOCKS),
        indices.len() == 4096,
        blocks.0 == spec_indirect_width(palette.len(), PaletteFormatType::BLOCKS),
        blocks.1 == PaletteModel::Indirect(palette),
        spec_packs(blocks.2, indices, blocks.0),
    ensures
        ({
            let v = (count, blocks, (0u8, PaletteModel::<Seq<VarInt>>::SingleValued(biome), Seq::<PackedEntries>::empty()));
            ChunkSection::spec_deserialize(ChunkSection::spec_serialize(v) + rest)
                == Ok::<(<ChunkSection as DeepView>::V, nat), ErrKind>((v, ChunkSection::spec_serialize(v).len()))
        }),
{
    let v = (count, blocks, (0u8, PaletteModel::<Seq<VarInt>>::SingleValued(biome), Seq::<PackedEntries>::empty()));
    lemma_indirect_well_formed(blocks, palette, indices, PaletteFormatType::BLOCKS);
    lemma_single_valued_well_formed(biome, 64, PaletteFormatType::BIOMES);
    ChunkSection::lemma_round_trip(v, rest);
}

/// A section that carries only its biomes, as the chunk biomes packet sends it.
#[derive(Debug, Clone, PartialEq)]
pub struct BiomeSection {
    /// Consists of 64 entries, representing 4×4×4 biome regions in the chunk section
    pub biomes: PalletedContainer,
}

impl DeepView for BiomeSection {
    type V = <PalletedContainer as DeepView>::V;

    open spec fn deep_view(&self) -> Self::V {
        self.biomes.deep_view()
    }
}

impl McSerialize for BiomeSection {
    open spec fn spec_serialize(v: Self::V) -> Seq<u8> {
        PalletedContainer::spec_serialize(v)
    }

    open spec fn spec_can_serialize(v: Self::V) -> bool {
        PalletedContainer::spec_can_serialize(v)
    }

    fn mc_serialize(&self, serializer: &mut McSerializer) -> (r: Result<(), SerializingErr>) {
        self.biomes.mc_serialize(serializer)
    }
}

impl McDeserialize for BiomeSection {
    /// A container of 64 biomes.
    open spec fn spec_deserialize(s: Seq<u8>) -> ParseResult<Self::V> {
        spec_container_parse(s, 64, PaletteFormatType::BIOMES)
    }

    proof fn lemma_deserialize_len(s: Seq<u8>) {
        lemma_container_parse_len(s, 64, PaletteFormatType::BIOMES);
    }

    fn mc_deserialize(deserializer: &mut McDeserializer) -> (r: Result<BiomeSection, SerializingErr>) {
        let biomes = PalletedContainer::mc_deserialize(deserializer, 64, PaletteFormatType::BIOMES)?;
        Ok(BiomeSection { biomes })
    }
}

impl McRoundTrip for BiomeSection {
    open spec fn spec_well_formed(v: Self::V) -> bool {
        spec_container_well_formed(v, 64, PaletteFormatType::BIOMES)
    }

    proof fn lemma_round_trip(v: Self::V, rest: Seq<u8>) {
        lemma_container_round_trip(v, 64, PaletteFormatType::BIOMES, rest);
    }
}

/// The bytes of values sent inside a length-prefixed byte array: the count of bytes, then the
/// values one after another.
pub open spec fn spec_wrapped_bytes<T: McSerialize>(v: Seq<T::V>) -> Seq<u8> {
    PrefixedArray::<u8>::spec_serialize(seq_serialize::<T>(v))
}

/// Whether values can be sent inside a length-prefixed byte array: each can be written and the
/// count of their bytes fits the length field.
pub open spec fn spec_wrapped_can_serialize<T: McSerialize>(v: Seq<T::V>) -> bool {
    seq_can_serialize::<T>(v) && seq_serialize::<T>(v).len() <= i32::MAX
}

/// The parse of values sent inside a length-prefixed byte array: the array, then values read
/// from its bytes until they are used up.
pub open spec fn spec_wrapped_parse<T: McDeserialize>(s: Seq<u8>) -> ParseResult<Seq<T::V>> {
    match PrefixedArray::<u8>::spec_deserialize(s) {
        Ok((bytes, n)) => match parse_all::<T>(bytes) {
            Ok((xs, k)) => Ok((xs, n)),
            Err(e) => Err(e),
        },
        Err(e) => Err(e),
    }
}

pub proof fn lemma_wrapped_parse_len<T: McDeserialize>(s: Seq<u8>)
    ensures
        spec_wrapped_parse::<T>(s) matches Ok((xs, n)) ==> n <= s.len(),
{
    PrefixedArray::<u8>::lemma_deserialize_len(s);
}

/// Values that each take at least one byte, sent inside a length-prefixed byte array, read back
/// as they were, whatever bytes follow.
pub proof fn lemma_wrapped_round_trip<T: McRoundTrip>(v: Seq<T::V>, rest: Seq<u8>)
    requires
        spec_wrapped_can_serialize::<T>(v),
        seq_well_formed::<T>(v),
        forall|i: int| 0 <= i < v.len() ==> T::spec_serialize(#[trigger] v[i]).len() > 0,
    ensures
        spec_wrapped_parse::<T>(spec_wrapped_bytes::<T>(v) + rest) == Ok::<(Seq<T::V>, nat), ErrKind>((v, spec_wrapped_bytes::<T>(v).len())),
{
    let bytes = seq_serialize::<T>(v);
    assert(seq_can_serialize::<u8>(bytes));
    assert(seq_well_formed::<u8>(bytes));
    PrefixedArray::<u8>::lemma_round_trip(bytes, rest);
    lemma_parse_all_round_trip::<T>(v);
}

/// Write values inside a length-prefixed byte array.
pub fn serialize_wrapped<T: McSerialize>(v: &Vec<T>, serializer: &mut McSerializer)
    requires
        spec_wrapped_can_serialize::<T>(v.deep_view()),
    ensures
        final(serializer).output@ == old(serializer).output@ + spec_wrapped_bytes::<T>(v.deep_view()),
{
    let mut small = McSerializer::new();
    serialize_all(v, &mut small);
    assert(small.output@ == seq_serialize::<T>(v.deep_view()));
    let array = PrefixedArray::new(small.output);
    assert(array.deep_view() =~= seq_serialize::<T>(v.deep_view()));
    let _ = array.mc_serialize(serializer);
}

/// Read values sent inside a length-prefixed byte array.
pub fn deserialize_wrapped<T: McDeserialize>(deserializer: &mut McDeserializer) -> (r: Result<Vec<T>, SerializingErr>)
    ensures
        final(deserializer).data@ == old(deserializer).data@,
        deserialized(spec_wrapped_parse::<T>(old(deserializer).remaining()), old(deserializer).index, final(deserializer).index, r),
{
    let array = PrefixedArray::<u8>::mc_deserialize(deserializer)?;
    let bytes = array.vec;
    assert(bytes@ =~= bytes.deep_view());
    let mut small = McDeserializer::new(bytes.as_slice());
    let data = deserialize_all::<T>(&mut small)?;
    Ok(data)
}

/// The sections of a chunk column, bottom to top, sent inside a length-prefixed byte array.
#[derive(Debug, Clone, PartialEq)]
pub struct ChunkByteData {
    /// This array is NOT length-prefixed. The number of elements in the array is calculated based on the world's height.
    /// Sections are sent bottom-to-top. The world height changes based on the dimension.
    /// The height of each dimension is assigned by the server in its corresponding registry data entry.
    /// For example, the vanilla overworld is 384 blocks tall, meaning 24 chunk sections will be included in this array
    pub data: Vec<ChunkSection>,
}

impl DeepView for ChunkByteData {
    type V = Seq<<ChunkSection as DeepView>::V>;

    open spec fn deep_view(&self) -> Self::V {
        self.data.deep_view()
    }
}

impl McSerialize for ChunkByteData {
    open spec fn spec_serialize(v: Self::V) -> Seq<u8> {
        spec_wrapped_bytes::<ChunkSection>(v)
    }

    open spec fn spec_can_serialize(v: Self::V) -> bool {
        spec_wrapped_can_serialize::<ChunkSection>(v)
    }

    fn mc_serialize(&self, serializer: &mut McSerializer) -> (r: Result<(), SerializingErr>) {
        serialize_wrapped(&self.data, serializer);
        Ok(())
    }
}

impl McDeserialize for ChunkByteData {
    open spec fn spec_deserialize(s: Seq<u8>) -> ParseResult<Self::V> {
        spec_wrapped_parse::<ChunkSection>(s)
    }

    proof fn lemma_deserialize_len(s: Seq<u8>) {
        lemma_wrapped_parse_len::<ChunkSection>(s);
    }

    fn mc_deserialize(deserializer: &mut McDeserializer) -> (r: Result<ChunkByteData, SerializingErr>) {
        let data = deserialize_wrapped::<ChunkSection>(deserializer)?;
        Ok(ChunkByteData { data })
    }
}

impl McRoundTrip for ChunkByteData {
    open spec fn spec_well_formed(v: Self::V) -> bool {
        seq_well_formed::<ChunkSection>(v)
    }

    proof fn lemma_round_trip(v: Self::V, rest: Seq<u8>) {
        assert forall|i: int| 0 <= i < v.len() implies ChunkSection::spec_serialize(#[trigger] v[i]).len() > 0 by {
            assert(i16::spec_serialize(v[i].0).len() == 2);
        }
        lemma_wrapped_round_trip::<ChunkSection>(v, rest);
    }
}

/// The biome sections of a chunk column, bottom to top, sent inside a length-prefixed byte
/// array, as the chunk biomes packet sends them.
#[derive(Debug, Clone, PartialEq)]
pub struct BiomeByteData {
    /// This array is NOT length-prefixed. The number of elements matches the number of chunk sections
    /// in the dimension. Sections are sent bottom-to-top.
    pub data: Vec<BiomeSection>,
}

impl DeepView for BiomeByteData {
    type V = Seq<<BiomeSection as DeepView>::V>;

    open spec fn deep_view(&self) -> Self::V {
        self.data.deep_view()
    }
}

impl McSerialize for BiomeByteData {
    open spec fn spec_serialize(v: Self::V) -> Seq<u8> {
        spec_wrapped_bytes::<BiomeSection>(v)
    }

    open spec fn spec_can_serialize(v: Self::V) -> bool {
        spec_wrapped_can_serialize::<BiomeSection>(v)
    }

    fn mc_serialize(&self, serializer: &mut McSerializer) -> (r: Result<(), SerializingErr>) {
        serialize_wrapped(&self.data, serializer);
        Ok(())
    }
}

impl McDeserialize for BiomeByteData {
    open spec fn spec_deserialize(s: Seq<u8>) -> ParseResult<Self::V> {
        spec_wrapped_parse::<BiomeSection>(s)
    }

    proof fn lemma_deserialize_len(s: Seq<u8>) {
        lemma_wrapped_parse_len::<BiomeSection>(s);
    }

    fn mc_deserialize(deserializer: &mut McDeserializer) -> (r: Result<BiomeByteData, SerializingErr>) {
        let data = deserialize_wrapped::<BiomeSection>(deserializer)?;
        Ok(BiomeByteData { data })
    }
}

impl McRoundTrip for BiomeByteData {
    open spec fn spec_well_formed(v: Self::V) -> bool {
        seq_well_formed::<BiomeSection>(v)
    }

    proof fn lemma_round_trip(v: Self::V, rest: Seq<u8>) {
        assert forall|i: int| 0 <= i < v.len() implies BiomeSection::spec_serialize(#[trigger] v[i]).len() > 0 by {
            assert(PalletedContainer::spec_serialize(v[i]).len() >= 1);
        }
        lemma_wrapped_round_trip::<BiomeSection>(v, rest);
    }
}

/// The light value at `index` of the packed bytes `bytes`: two values to a byte, the even index
/// in the low half.
pub open spec fn spec_light_at(bytes: Seq<u8>, index: int) -> u8 {
    if index % 2 == 1 {
        bytes[index / 2] >> 4u8
    } else {
        bytes[index / 2] & 0x0Fu8
    }
}

/// The packed bytes `bytes` with the light value at `index` replaced by `value`.
pub open spec fn spec_light_set(bytes: Seq<u8>, index: int, value: u8) -> Seq<u8> {
    let b = bytes[index / 2];
    bytes.update(index / 2, if index % 2 == 1 { (b & 0x0Fu8) | (value << 4u8) } else { (b & 0xF0u8) | (value & 0x0Fu8) })
}

/// After a light value is set, it reads back.
pub proof fn lemma_light_set_get(bytes: Seq<u8>, index: int, value: u8)
    requires
        0 <= index,
        index / 2 < bytes.len(),
        value <= 15,
    ensures
        spec_light_at(spec_light_set(bytes, index, value), index) == value,
{
    lemma_light_set_nibbles(bytes, index, value);
}

/// Setting a light value leaves every other light value as it was.
pub proof fn lemma_light_set_frame(bytes: Seq<u8>, index: int, other: int, value: u8)
    requires
        0 <= index,
        0 <= other,
        index / 2 < bytes.len(),
        other / 2 < bytes.len(),
        other != index,
    ensures
        spec_light_at(spec_light_set(bytes, index, value), other) == spec_light_at(bytes, other),
{
    lemma_light_set_nibbles(bytes, index, value);
}

/// Light values are packed two to a byte, the even index in the low four bits and the odd index
/// in the high four: the value at `index` is `bytes[index / 2] & 0x0F` for an even index and
/// `bytes[index / 2] >> 4` for an odd one.
pub proof fn lemma_light_nibble_layout(bytes: Seq<u8>, index: int)
    requires
        0 <= index,
        index / 2 < bytes.len(),
    ensures
        index % 2 == 0 ==> spec_light_at(bytes, index) == bytes[index / 2] & 0x0Fu8,
        index % 2 == 1 ==> spec_light_at(bytes, index) == bytes[index / 2] >> 4u8,
        spec_light_at(bytes, index) <= 15,
{
    let b = bytes[index / 2];
    assert(b & 0x0Fu8 <= 15u8 && b >> 4u8 <= 15u8) by (bit_vector);
}

/// Setting the light value at `index` to `value` writes it, when it is at most 15, into the low
/// four bits of byte `index / 2` for an even index and into the high four bits for an odd one; the
/// other four bits of that byte, and every other byte, stay as they were.
pub proof fn lemma_light_set_nibbles(bytes: Seq<u8>, index: int, value: u8)
    requires
        0 <= index,
        index / 2 < bytes.len(),
    ensures
        spec_light_set(bytes, index, value).len() == bytes.len(),
        forall|j: int| 0 <= j < bytes.len() && j != index / 2 ==> #[trigger] spec_light_set(bytes, index, value)[j] == bytes[j],
        index % 2 == 0 ==> spec_light_set(bytes, index, value)[index / 2] >> 4u8 == bytes[index / 2] >> 4u8,
        index % 2 == 1 ==> spec_light_set(bytes, index, value)[index / 2] & 0x0Fu8 == bytes[index / 2] & 0x0Fu8,
        value <= 15 && index % 2 == 0 ==> spec_light_set(bytes, index, value)[index / 2] & 0x0Fu8 == value,
        value <= 15 && index % 2 == 1 ==> spec_light_set(bytes, index, value)[index / 2] >> 4u8 == value,
{
    let b = bytes[index / 2];
    assert((value <= 15u8 ==> ((b & 0x0Fu8) | (value << 4u8)) >> 4u8 == value
            && ((b & 0xF0u8) | (value & 0x0Fu8)) & 0x0Fu8 == value)
        && ((b & 0x0Fu8) | (value << 4u8)) & 0x0Fu8 == b & 0x0Fu8
        && ((b & 0xF0u8) | (value & 0x0Fu8)) >> 4u8 == b >> 4u8) by (bit_vector);
}

/// The message of the error, formatted by std's `format!`; nothing is claimed of its text.
#[verifier::external_body]
fn light_value_message(value: u8) -> String {
    format!("Light value {} is out of bounds. Valid values are 0-15", value)
}

/// The message of the error, formatted by std's `format!`; nothing is claimed of its text.
#[verifier::external_body]
fn light_index_message(index: usize) -> String {
    format!("Light index {} is out of bounds. Valid indices are 0-4095", index)
}

/// The light values of one section: 4096 values of 4 bits each, two to a byte, sent as a
/// length-prefixed array of 2048 bytes. Acceptable light values are 0-15.
#[derive(Debug, Clone, PartialEq)]
pub struct LightArray {
    pub data: PrefixedArray<u8>,
}

impl DeepView for LightArray {
    type V = Seq<u8>;

    open spec fn deep_view(&self) -> Seq<u8> {
        self.data.deep_view()
    }
}

impl LightArray {
    /// A section with every light value 0.
    pub fn new() -> (a: Self)
        ensures
            a.deep_view() == Seq::new(2048, |i: int| 0u8),
    {
        let mut v: Vec<u8> = Vec::new();
        let mut i: usize = 0;
        while i < 2048
            invariant
                i <= 2048,
                v@ == Seq::new(i as nat, |j: int| 0u8),
            decreases 2048 - i,
        {
            v.push(0u8);
            i = i + 1;
        }
        let a = LightArray { data: PrefixedArray::new(v) };
        assert(a.deep_view() =~= Seq::new(2048, |i: int| 0u8));
        a
    }

    /// Set the light value at `index` to `value`. A value above 15 and an index past the array
    /// are refused, and nothing changes.
    pub fn set(&mut self, index: usize, value: u8) -> (r: Result<(), SerializingErr>)
        ensures
            value > 15 ==> (r matches Err(e) && e.kind() == ErrKind::OutOfBounds) && *final(self) == *old(self),
            value <= 15 && index / 2 >= old(self).deep_view().len() ==> (r matches Err(e) && e.kind() == ErrKind::OutOfBounds) && *final(self) == *old(self),
            value <= 15 && index / 2 < old(self).deep_view().len() ==> r is Ok
                && final(self).deep_view() == spec_light_set(old(self).deep_view(), index as int, value),
            // two values to a byte: an even index in the low four bits, an odd one in the high four
            value <= 15 && index / 2 < old(self).deep_view().len() ==> {
                let b = old(self).deep_view()[(index / 2) as int];
                let nb = final(self).deep_view()[(index / 2) as int];
                &&& final(self).deep_view().len() == old(self).deep_view().len()
                &&& forall|j: int| 0 <= j < old(self).deep_view().len() && j != index / 2
                    ==> #[trigger] final(self).deep_view()[j] == old(self).deep_view()[j]
                &&& index % 2 == 0 ==> nb & 0x0Fu8 == value && nb >> 4u8 == b >> 4u8
                &&& index % 2 == 1 ==> nb >> 4u8 == value && nb & 0x0Fu8 == b & 0x0Fu8
            },
    {
        if value > 0x0F {
            return Err(SerializingErr::OutOfBounds(light_value_message(value)));
        }
        let byte_index = index / 2;
        let is_high = index % 2 == 1;
        if byte_index >= self.data.vec.len() {
            return Err(SerializingErr::OutOfBounds(light_index_message(index)));
        }
        let byte = self.data.vec[byte_index];
        let new_byte = if is_high {
            (byte & 0x0F) | (value << 4)
        } else {
            (byte & 0xF0) | (value & 0x0F)
        };
        self.data.vec.set(byte_index, new_byte);
        assert(self.deep_view() =~= spec_light_set(old(self).deep_view(), index as int, value));
        proof {
            lemma_light_set_nibbles(old(self).deep_view(), index as int, value);
        }
        Ok(())
    }

    /// The light value at `index`; an index past the array is refused.
    pub fn get(&self, index: usize) -> (r: Result<u8, SerializingErr>)
        ensures
            index / 2 >= self.deep_view().len() ==> (r matches Err(e) && e.kind() == ErrKind::OutOfBounds),
            index / 2 < self.deep_view().len() ==> r == Ok::<u8, SerializingErr>(spec_light_at(self.deep_view(), index as int)),
            // an even index reads the low four bits of its byte, an odd one the high four
            index / 2 < self.deep_view().len() ==> r == Ok::<u8, SerializingErr>(
                if index % 2 == 0 { self.deep_view()[(index / 2) as int] & 0x0Fu8 } else { self.deep_view()[(index / 2) as int] >> 4u8 }),
    {
        let byte_index = index / 2;
        let is_high = index % 2 == 1;
        if byte_index >= self.data.vec.len() {
            return Err(SerializingErr::OutOfBounds(light_index_message(index)));
        }
        let byte = self.data.vec[byte_index];
        Ok(if is_high { byte >> 4 } else { byte & 0x0F })
    }
}

impl McSerialize for LightArray {
    open spec fn spec_serialize(v: Seq<u8>) -> Seq<u8> {
        PrefixedArray::<u8>::spec_serialize(v)
    }

    open spec fn spec_can_serialize(v: Seq<u8>) -> bool {
        PrefixedArray::<u8>::spec_can_serialize(v)
    }

    fn mc_serialize(&self, serializer: &mut McSerializer) -> (r: Result<(), SerializingErr>) {
        self.data.mc_serialize(serializer)
    }
}

impl McDeserialize for LightArray {
    open spec fn spec_deserialize(s: Seq<u8>) -> ParseResult<Seq<u8>> {
        PrefixedArray::<u8>::spec_deserialize(s)
    }

    proof fn lemma_deserialize_len(s: Seq<u8>) {
        PrefixedArray::<u8>::lemma_deserialize_len(s);
    }

    fn mc_deserialize(deserializer: &mut McDeserializer) -> (r: Result<LightArray, SerializingErr>) {
        let data = PrefixedArray::<u8>::mc_deserialize(deserializer)?;
        Ok(LightArray { data })
    }
}

impl McRoundTrip for LightArray {
    open spec fn spec_well_formed(v: Seq<u8>) -> bool {
        true
    }

    proof fn lemma_round_trip(v: Seq<u8>, rest: Seq<u8>) {
        assert(seq_well_formed::<u8>(v));
        PrefixedArray::<u8>::lemma_round_trip(v, rest);
    }
}

/// The fields of [`LightData`] as they are sent, in order.
pub type LightDataWire = (BitSet, (BitSet, (BitSet, (BitSet, (PrefixedArray<LightArray>, PrefixedArray<LightArray>)))));

/// The light of a chunk column: which sections have sky and block light, which have none, and
/// the light arrays of those that have some.
#[derive(Debug, Clone, PartialEq)]
pub struct LightData {
    pub sky_light_mask: BitSet,
    pub block_light_mask: BitSet,
    pub empty_light_mask: BitSet,
    pub empty_block_light_mask: BitSet,
    pub sky_light: PrefixedArray<LightArray>,
    pub block_light: PrefixedArray<LightArray>,
}

impl DeepView for LightData {
    type V = <LightDataWire as DeepView>::V;

    open spec fn deep_view(&self) -> Self::V {
        (self.sky_light_mask.deep_view(), (self.block_light_mask.deep_view(), (self.empty_light_mask.deep_view(),
            (self.empty_block_light_mask.deep_view(), (self.sky_light.deep_view(), self.block_light.deep_view())))))
    }
}

impl McSerialize for LightData {
    open spec fn spec_serialize(v: Self::V) -> Seq<u8> {
        LightDataWire::spec_serialize(v)
    }

    open spec fn spec_can_serialize(v: Self::V) -> bool {
        LightDataWire::spec_can_serialize(v)
    }

    fn mc_serialize(&self, serializer: &mut McSerializer) -> (r: Result<(), SerializingErr>) {
        let _ = self.sky_light_mask.mc_serialize(serializer);
        let _ = self.block_light_mask.mc_serialize(serializer);
        let _ = self.empty_light_mask.mc_serialize(serializer);
        let _ = self.empty_block_light_mask.mc_serialize(serializer);
        let _ = self.sky_light.mc_serialize(serializer);
        let _ = self.block_light.mc_serialize(serializer);
        assert(serializer.output@ == old(serializer).output@ + Self::spec_serialize(self.deep_view()));
        Ok(())
    }
}

impl McDeserialize for LightData {
    open spec fn spec_deserialize(s: Seq<u8>) -> ParseResult<Self::V> {
        LightDataWire::spec_deserialize(s)
    }

    proof fn lemma_deserialize_len(s: Seq<u8>) {
        LightDataWire::lemma_deserialize_len(s);
    }

    fn mc_deserialize(deserializer: &mut McDeserializer) -> (r: Result<LightData, SerializingErr>) {
        let (sky_light_mask, (block_light_mask, (empty_light_mask, (empty_block_light_mask, (sky_light, block_light)))))
            = LightDataWire::mc_deserialize(deserializer)?;
        Ok(LightData { sky_light_mask, block_light_mask, empty_light_mask, empty_block_light_mask, sky_light, block_light })
    }
}

impl McRoundTrip for LightData {
    open spec fn spec_well_formed(v: Self::V) -> bool {
        LightDataWire::spec_well_formed(v)
    }

    proof fn lemma_round_trip(v: Self::V, rest: Seq<u8>) {
        LightDataWire::lemma_round_trip(v, rest);
    }
}

/// A heightmap of a chunk column: its type and its packed heights.
#[derive(Debug, Clone, PartialEq)]
pub struct Heightmap {
    typ: VarInt,
    data: PrefixedArray<i64>,
}

impl DeepView for Heightmap {
    type V = (VarInt, Seq<i64>);

    closed spec fn deep_view(&self) -> (VarInt, Seq<i64>) {
        (self.typ, self.data.deep_view())
    }
}

impl Heightmap {
    pub fn new(typ: VarInt, data: PrefixedArray<i64>) -> (h: Self)
        ensures
            h.deep_view() == (typ, data.deep_view()),
    {
        Heightmap { typ, data }
    }
}

impl McSerialize for Heightmap {
    open spec fn spec_serialize(v: (VarInt, Seq<i64>)) -> Seq<u8> {
        <(VarInt, PrefixedArray<i64>)>::spec_serialize(v)
    }

    open spec fn spec_can_serialize(v: (VarInt, Seq<i64>)) -> bool {
        <(VarInt, PrefixedArray<i64>)>::spec_can_serialize(v)
    }

    fn mc_serialize(&self, serializer: &mut McSerializer) -> (r: Result<(), SerializingErr>) {
        let _ = self.typ.mc_serialize(serializer);
        let _ = self.data.mc_serialize(serializer);
        Ok(())
    }
}

impl McDeserialize for Heightmap {
    open spec fn spec_deserialize(s: Seq<u8>) -> ParseResult<(VarInt, Seq<i64>)> {
        <(VarInt, PrefixedArray<i64>)>::spec_deserialize(s)
    }

    proof fn lemma_deserialize_len(s: Seq<u8>) {
        <(VarInt, PrefixedArray<i64>)>::lemma_deserialize_len(s);
    }

    fn mc_deserialize(deserializer: &mut McDeserializer) -> (r: Result<Heightmap, SerializingErr>) {
        let (typ, data) = <(VarInt, PrefixedArray<i64>)>::mc_deserialize(deserializer)?;
        Ok(Heightmap { typ, data })
    }
}

impl McRoundTrip for Heightmap {
    open spec fn spec_well_formed(v: (VarInt, Seq<i64>)) -> bool {
        <(VarInt, PrefixedArray<i64>)>::spec_well_formed(v)
    }

    proof fn lemma_round_trip(v: (VarInt, Seq<i64>), rest: Seq<u8>) {
        <(VarInt, PrefixedArray<i64>)>::lemma_round_trip(v, rest);
    }
}

/// The message of the error, formatted by std's `format!`; nothing is claimed of its text.
#[verifier::external_body]
fn packed_xz_message(x: u8, z: u8) -> String {
    format!("PackedXZ values out of bounds. Valid values are 0-15. Received x={}, z={}", x, z)
}

/// The byte that packs the coordinates `x` and `z` within a chunk: `x` in the high half.
pub open spec fn spec_packed_xz(x: u8, z: u8) -> u8 {
    ((x << 4u8) | z) as u8
}

/// Coordinates within a chunk column, each 0-15, packed into one byte.
#[derive(Debug, Clone, Copy, PartialEq)]
pub struct PackedXZ {
    data: u8,
}

impl DeepView for PackedXZ {
    type V = u8;

    closed spec fn deep_view(&self) -> u8 {
        self.data
    }
}

impl PackedXZ {
    /// Pack `x` and `z`; a coordinate above 15 is refused.
    pub fn new(x: u8, z: u8) -> (r: Result<Self, SerializingErr>)
        ensures
            x > 15 || z > 15 ==> (r matches Err(e) && e.kind() == ErrKind::OutOfBounds),
            x <= 15 && z <= 15 ==> (r matches Ok(p) && p.deep_view() == spec_packed_xz(x, z)),
    {
        if x > 15 || z > 15 {
            return Err(SerializingErr::OutOfBounds(packed_xz_message(x, z)));
        }
        Ok(PackedXZ { data: (x << 4) | z })
    }

    pub fn x(&self) -> (x: u8)
        ensures
            x == self.deep_view() >> 4u8,
    {
        self.data >> 4
    }

    pub fn z(&self) -> (z: u8)
        ensures
            z == self.deep_view() & 0x0Fu8,
    {
        self.data & 0x0F
    }
}

/// Packed coordinates read back as they were packed.
pub proof fn lemma_packed_xz(x: u8, z: u8)
    requires
        x <= 15,
        z <= 15,
    ensures
        spec_packed_xz(x, z) >> 4u8 == x,
        spec_packed_xz(x, z) & 0x0Fu8 == z,
{
    assert(((x << 4u8) | z) as u8 >> 4u8 == x && ((x << 4u8) | z) as u8 & 0x0Fu8 == z) by (bit_vector)
        requires x <= 15u8, z <= 15u8;
}

impl McSerialize for PackedXZ {
    open spec fn spec_serialize(v: u8) -> Seq<u8> {
        u8::spec_serialize(v)
    }

    open spec fn spec_can_serialize(v: u8) -> bool {
        true
    }

    fn mc_serialize(&self, serializer: &mut McSerializer) -> (r: Result<(), SerializingErr>) {
        self.data.mc_serialize(serializer)
    }
}

impl McDeserialize for PackedXZ {
    open spec fn spec_deserialize(s: Seq<u8>) -> ParseResult<u8> {
        u8::spec_deserialize(s)
    }

    proof fn lemma_deserialize_len(s: Seq<u8>) {
        u8::lemma_deserialize_len(s);
    }

    fn mc_deserialize(deserializer: &mut McDeserializer) -> (r: Result<PackedXZ, SerializingErr>) {
        let data = u8::mc_deserialize(deserializer)?;
        Ok(PackedXZ { data })
    }
}

impl McRoundTrip for PackedXZ {
    open spec fn spec_well_formed(v: u8) -> bool {
        true
    }

    proof fn lemma_round_trip(v: u8, rest: Seq<u8>) {
        u8::lemma_round_trip(v, rest);
    }
}

/// The fields of [`BlockEntity`] as they are sent, in order.
pub type BlockEntityFields = (PackedXZ, (i16, (VarInt, NbtCompound)));

/// A block entity of a chunk column: where it stands in the column, its type, and its data.
#[derive(Debug, PartialEq)]
pub struct BlockEntity {
    /// Its x and z within the chunk.
    pub packed_xz: PackedXZ,
    /// Its height in the world.
    pub y: i16,
    /// The block entity type.
    pub typ: VarInt,
    /// Its data, as a nameless compound.
    pub data: NbtCompound,
}

impl DeepView for BlockEntity {
    type V = <BlockEntityFields as DeepView>::V;

    open spec fn deep_view(&self) -> Self::V {
        (self.packed_xz.deep_view(), (self.y.deep_view(), (self.typ.deep_view(), self.data.deep_view())))
    }
}

impl McSerialize for BlockEntity {
    open spec fn spec_serialize(v: Self::V) -> Seq<u8> {
        BlockEntityFields::spec_serialize(v)
    }

    open spec fn spec_can_serialize(v: Self::V) -> bool {
        BlockEntityFields::spec_can_serialize(v)
    }

    fn mc_serialize(&self, serializer: &mut McSerializer) -> (r: Result<(), SerializingErr>) {
        let _ = self.packed_xz.mc_serialize(serializer);
        let _ = self.y.mc_serialize(serializer);
        let _ = self.typ.mc_serialize(serializer);
        let _ = self.data.mc_serialize(serializer);
        assert(serializer.output@ == old(serializer).output@ + Self::spec_serialize(self.deep_view()));
        Ok(())
    }
}

impl McDeserialize for BlockEntity {
    open spec fn spec_deserialize(s: Seq<u8>) -> ParseResult<Self::V> {
        BlockEntityFields::spec_deserialize(s)
    }

    proof fn lemma_deserialize_len(s: Seq<u8>) {
        BlockEntityFields::lemma_deserialize_len(s);
    }

    fn mc_deserialize(deserializer: &mut McDeserializer) -> (r: Result<BlockEntity, SerializingErr>) {
        let (packed_xz, (y, (typ, data))) = BlockEntityFields::mc_deserialize(deserializer)?;
        Ok(BlockEntity { packed_xz, y, typ, data })
    }
}

impl McRoundTrip for BlockEntity {
    open spec fn spec_well_formed(v: Self::V) -> bool {
        BlockEntityFields::spec_well_formed(v)
    }

    proof fn lemma_round_trip(v: Self::V, rest: Seq<u8>) {
        BlockEntityFields::lemma_round_trip(v, rest);
    }
}

/// The fields of [`ChunkData`] as they are sent, in order.
pub type ChunkDataFields = (PrefixedArray<Heightmap>, (ChunkByteData, PrefixedArray<BlockEntity>));

/// The chunk data field of a chunk data packet: the heightmaps, the sections, and the block entities.
///
/// https://minecraft.wiki/w/Java_Edition_protocol/Packets#Chunk_Data
#[derive(Debug, PartialEq)]
pub struct ChunkData {
    pub heightmaps: PrefixedArray<Heightmap>,
    pub data: ChunkByteData,
    pub block_entities: PrefixedArray<BlockEntity>,
}

impl DeepView for ChunkData {
    type V = <ChunkDataFields as DeepView>::V;

    open spec fn deep_view(&self) -> Self::V {
        (self.heightmaps.deep_view(), (self.data.deep_view(), self.block_entities.deep_view()))
    }
}

impl McSerialize for ChunkData {
    open spec fn spec_serialize(v: Self::V) -> Seq<u8> {
        ChunkDataFields::spec_serialize(v)
    }

    open spec fn spec_can_serialize(v: Self::V) -> bool {
        ChunkDataFields::spec_can_serialize(v)
    }

    fn mc_serialize(&self, serializer: &mut McSerializer) -> (r: Result<(), SerializingErr>) {
        let _ = self.heightmaps.mc_serialize(serializer);
        let _ = self.data.mc_serialize(serializer);
        let _ = self.block_entities.mc_serialize(serializer);
        assert(serializer.output@ == old(serializer).output@ + Self::spec_serialize(self.deep_view()));
        Ok(())
    }
}

impl McDeserialize for ChunkData {
    open spec fn spec_deserialize(s: Seq<u8>) -> ParseResult<Self::V> {
        ChunkDataFields::spec_deserialize(s)
    }

    proof fn lemma_deserialize_len(s: Seq<u8>) {
        ChunkDataFields::lemma_deserialize_len(s);
    }

    fn mc_deserialize(deserializer: &mut McDeserializer) -> (r: Result<ChunkData, SerializingErr>) {
        let (heightmaps, (data, block_entities)) = ChunkDataFields::mc_deserialize(deserializer)?;
        Ok(ChunkData { heightmaps, data, block_entities })
    }
}

impl McRoundTrip for ChunkData {
    open spec fn spec_well_formed(v: Self::V) -> bool {
        ChunkDataFields::spec_well_formed(v)
    }

    proof fn lemma_round_trip(v: Self::V, rest: Seq<u8>) {
        ChunkDataFields::lemma_round_trip(v, rest);
    }
}

/// How many entries of `bpe` bits fit whole in one 64-bit word; none for a width of zero.
/// Entries are not split across words, so the bits left over are padding.
pub fn entries_per_i64(bpe: u8) -> (n: u8)
    ensures
        n == spec_entries_per_i64(bpe),
{
    if bpe == 0 {
        return 0;
    }
    64 / bpe
}

} // verus!
