//! Internal data formats for chunk storage.
//!
//! https://minecraft.wiki/w/Java_Edition_protocol/Chunk_format

use crate::protocol::serialization::primitives::{fixed_parse, u64_bytes, u64_from_bytes};
use crate::protocol::serialization::serializer_types::{
    deserialize_all, deserialize_n, parse_all, parse_n, seq_can_serialize, seq_serialize,
    serialize_all,
};
use crate::protocol::serialization::var_int::{read_varint, spec_varint_parse, VarInt};
use crate::protocol::serialization::{
    deserialized, ErrKind, McDeserialize, McDeserializer, McRoundTrip, McSerialize, McSerializer,
    ParseResult, SerializingErr,
};
use vstd::prelude::*;

verus! {

/// A packed 64-bit word holding block or biome entries of `bpe` bits each; the first entry
/// occupies the least significant bits. This matches the packed data format used since 1.16.
///
/// https://minecraft.wiki/w/Java_Edition_protocol/Chunk_format#Data_Array_format
#[derive(Debug, Clone, Copy, Hash, PartialEq)]
pub struct PackedEntries {
    pub data: i64,
    /// The number of bits allocated to each entry
    pub bpe: u8,
}

impl DeepView for PackedEntries {
    type V = PackedEntries;

    open spec fn deep_view(&self) -> PackedEntries {
        *self
    }
}

/// The entry at bit offset `shift`: the `bpe` bits of `data` from there, where bits past the top
/// of the word repeat its sign bit.
pub open spec fn spec_entry_at(data: i64, bpe: u8, shift: u8) -> u64 {
    ((data >> shift) & (((1i64 << bpe) - 1) as i64)) as u64
}

/// `data` with the `bpe` bits at offset `shift` replaced by the low `bpe` bits of `value`.
pub open spec fn spec_with_entry_at(data: i64, bpe: u8, shift: u8, value: u64) -> i64 {
    ((data & !((((1i64 << bpe) - 1) as i64) << shift)) | ((((value & ((((1i64 << bpe) - 1) as i64) as u64)) << shift) as i64))) as i64
}

/// The low `bpe` bits of `value`.
pub open spec fn spec_low_bits(value: u64, bpe: u8) -> u64 {
    (value & ((((1i64 << bpe) - 1) as i64) as u64)) as u64
}

/// Writing an entry and reading it back gives its low `bpe` bits, when the entry lies within
/// the word.
pub proof fn lemma_entry_write_read(data: i64, bpe: u8, shift: u8, value: u64)
    requires
        1 <= bpe <= 30,
        shift + bpe <= 64,
    ensures
        spec_entry_at(spec_with_entry_at(data, bpe, shift, value), bpe, shift) == spec_low_bits(value, bpe),
{
    assert(((((data & !((((1i64 << bpe) - 1) as i64) << shift)) | ((((value & ((((1i64 << bpe) - 1) as i64) as u64)) << shift) as i64))) as i64 >> shift)
        & (((1i64 << bpe) - 1) as i64)) as u64 == (value & ((((1i64 << bpe) - 1) as i64) as u64)) as u64) by (bit_vector)
        requires
            1 <= bpe <= 30,
            shift + bpe <= 64,
    ;
}

/// Writing an entry leaves every bit outside it as it was: the other entries, and the padding
/// above the last whole entry.
pub proof fn lemma_entry_write_keeps_other_bits(data: i64, bpe: u8, shift: u8, value: u64, k: u8)
    requires
        1 <= bpe <= 30,
        shift + bpe <= 64,
        k < 64,
        k < shift || shift + bpe <= k,
    ensures
        (spec_with_entry_at(data, bpe, shift, value) >> k) & 1i64 == (data >> k) & 1i64,
{
    assert((((data & !((((1i64 << bpe) - 1) as i64) << shift)) | ((((value & ((((1i64 << bpe) - 1) as i64) as u64)) << shift) as i64))) as i64 >> k)
        & 1i64 == (data >> k) & 1i64) by (bit_vector)
        requires
            1 <= bpe <= 30,
            shift + bpe <= 64,
            k < 64,
            k < shift || shift + bpe <= k,
    ;
}

/// Writing an entry leaves every entry that does not overlap it as it was.
pub proof fn lemma_entry_write_frame(data: i64, bpe: u8, shift: u8, value: u64, other: u8)
    requires
        1 <= bpe <= 30,
        shift + bpe <= 64,
        other + bpe <= 64,
        other + bpe <= shift || shift + bpe <= other,
    ensures
        spec_entry_at(spec_with_entry_at(data, bpe, shift, value), bpe, other) == spec_entry_at(data, bpe, other),
{
    assert(((((data & !((((1i64 << bpe) - 1) as i64) << shift)) | ((((value & ((((1i64 << bpe) - 1) as i64) as u64)) << shift) as i64))) as i64 >> other)
        & (((1i64 << bpe) - 1) as i64)) as u64 == ((data >> other) & (((1i64 << bpe) - 1) as i64)) as u64) by (bit_vector)
        requires
            1 <= bpe <= 30,
            shift + bpe <= 64,
            other + bpe <= 64,
            other + bpe <= shift || shift + bpe <= other,
    ;
}

/// The entries of a fresh word are all zero.
pub proof fn lemma_entry_of_zero(bpe: u8, shift: u8)
    requires
        bpe <= 30,
        shift < 64,
    ensures
        spec_entry_at(0i64, bpe, shift) == 0,
{
    assert(((0i64 >> shift) & (((1i64 << bpe) - 1) as i64)) as u64 == 0u64) by (bit_vector)
        requires
            bpe <= 30,
            shift < 64,
    ;
}

impl PackedEntries {
    /// A word of entries of `bpe` bits each, all zero.
    pub fn new(bpe: u8) -> (p: Self)
        ensures
            p.data == 0,
            p.bpe == bpe,
    {
        PackedEntries { data: 0, bpe }
    }

    /// The entry with the given index; the first entry occupies the least significant bits.
    pub fn get_entry(&self, index: u8) -> (v: u64)
        requires
            self.bpe <= 30,
            index * self.bpe < 64,
        ensures
            v == spec_entry_at(self.data, self.bpe, (index * self.bpe) as u8),
    {
        let bpe: u8 = self.bpe;
        assert(1i32 << bpe >= 1) by (bit_vector)
            requires
                bpe <= 30,
        ;
        let mask: i32 = (1i32 << bpe) - 1;
        let shift: u8 = index * bpe;
        assert((((1i32 << bpe) - 1) as i32) as i64 == (((1i64 << bpe) - 1) as i64)) by (bit_vector)
            requires
                bpe <= 30,
        ;
        #[verifier::truncate] (((self.data >> shift) & (mask as i64)) as u64)
    }

    /// Replace the entry with the given index by the low `bpe` bits of `value`.
    pub fn set_entry(&mut self, index: u8, value: u64)
        requires
            old(self).bpe <= 62,
            index * old(self).bpe < 64,
        ensures
            final(self).bpe == old(self).bpe,
            final(self).data == spec_with_entry_at(old(self).data, old(self).bpe, (index * old(self).bpe) as u8, value),
    {
        let bpe: u8 = self.bpe;
        assert(1i64 << bpe >= 1) by (bit_vector)
            requires
                bpe <= 62,
        ;
        let mask: i64 = (1i64 << bpe) - 1;
        let shift: u8 = index * bpe;
        let low: u64 = value & (#[verifier::truncate] (mask as u64));
        self.data = self.data & !(mask << shift);
        self.data = self.data | (#[verifier::truncate] ((low << shift) as i64));
    }

    /// Read a word; its entries are `bpe` bits wide.
    pub fn mc_deserialize(deserializer: &mut McDeserializer, bpe: u8) -> (r: Result<PackedEntries, SerializingErr>)
        ensures
            final(deserializer).data@ == old(deserializer).data@,
            deserialized(spec_packed_entries_parse(old(deserializer).remaining(), bpe), old(deserializer).index, final(deserializer).index, r),
    {
        let data = i64::mc_deserialize(deserializer)?;
        Ok(PackedEntries { data, bpe })
    }
}

/// The parse of a word whose entries are `bpe` bits wide.
pub open spec fn spec_packed_entries_parse(s: Seq<u8>, bpe: u8) -> ParseResult<PackedEntries> {
    fixed_parse(s, 8, PackedEntries { data: u64_from_bytes(s) as i64, bpe })
}

impl McSerialize for PackedEntries {
    open spec fn spec_serialize(v: PackedEntries) -> Seq<u8> {
        u64_bytes(v.data as u64)
    }

    open spec fn spec_can_serialize(v: PackedEntries) -> bool {
        true
    }

    fn mc_serialize(&self, serializer: &mut McSerializer) -> (r: Result<(), SerializingErr>) {
        self.data.mc_serialize(serializer)
    }
}

/// How many entries of `bpe` bits fit whole in one 64-bit word. Entries are not split across
/// words; the bits left over are padding.
pub fn entries_per_i64(bpe: u8) -> (n: u8)
    ensures
        n == spec_entries_per_i64(bpe),
{
    if bpe == 0 {
        return 0;
    }
    64 / bpe
}

pub open spec fn spec_entries_per_i64(bpe: u8) -> u8 {
    if bpe == 0 {
        0
    } else {
        (64u8 / bpe) as u8
    }
}

/// How many words hold `num_entries` entries of `bpe` bits: the entries per word, rounded up. A
/// width that fits no entry in a word calls for 65535 words (none when there are no entries).
pub open spec fn spec_word_count(num_entries: u16, bpe: u8) -> u16 {
    let per = spec_entries_per_i64(bpe);
    if per == 0 {
        if num_entries == 0 { 0 } else { 65535 }
    } else {
        ((num_entries + per - 1) / per as int) as u16
    }
}

/// How many words hold `num_entries` entries of `bpe` bits.
pub fn word_count(num_entries: u16, bpe: u8) -> (n: u16)
    ensures
        n == spec_word_count(num_entries, bpe),
{
    let per: u8 = entries_per_i64(bpe);
    if per == 0 {
        if num_entries == 0 { 0 } else { 65535 }
    } else {
        let total: u32 = num_entries as u32 + per as u32 - 1;
        (total / per as u32) as u16
    }
}

/// The parse of `n` words whose entries are `bpe` bits wide.
pub open spec fn spec_words_parse(s: Seq<u8>, n: nat, bpe: u8) -> ParseResult<Seq<PackedEntries>> {
    match parse_n::<i64>(s, n) {
        Ok((xs, k)) => Ok((xs.map_values(|x: i64| PackedEntries { data: x, bpe }), k)),
        Err(e) => Err(e),
    }
}

/// Read `n` words whose entries are `bpe` bits wide.
pub fn deserialize_words(d: &mut McDeserializer, n: usize, bpe: u8) -> (r: Result<Vec<PackedEntries>, SerializingErr>)
    ensures
        final(d).data@ == old(d).data@,
        deserialized(spec_words_parse(old(d).remaining(), n as nat, bpe), old(d).index, final(d).index, r),
{
    let raw = deserialize_n::<i64>(d, n)?;
    let mut out: Vec<PackedEntries> = Vec::new();
    let mut i: usize = 0;
    while i < raw.len()
        invariant
            i <= raw.len(),
            out.deep_view() =~= raw.deep_view().take(i as int).map_values(|x: i64| PackedEntries { data: x, bpe }),
        decreases raw.len() - i,
    {
        let ghost before = out.deep_view();
        out.push(PackedEntries { data: raw[i], bpe });
        assert(out.deep_view() == before.push(PackedEntries { data: raw[i as int], bpe }));
        i = i + 1;
        assert(raw.deep_view().take(i as int) == raw.deep_view().take(i - 1).push(raw.deep_view()[i - 1]));
    }
    assert(raw.deep_view().take(raw.len() as int) == raw.deep_view());
    Ok(out)
}

/// Which kind of entries a container holds; it decides the palette formats allowed.
#[derive(Debug, Clone, Copy, Hash, PartialEq)]
pub enum PaletteFormatType {
    BLOCKS,
    BIOMES,
}

/// The model of a palette: one value for every entry, a list of values the entries index, or
/// entries that are values themselves.
pub enum PaletteModel<I> {
    SingleValued(VarInt),
    Indirect(I),
    Direct,
}

/// A list of the values that entries index into, after a length field that is sent as given.
#[derive(Debug, Clone, Hash, PartialEq)]
pub struct IndirectFormat {
    pub length: VarInt,
    pub array: Vec<VarInt>,
}

impl DeepView for IndirectFormat {
    type V = (VarInt, Seq<VarInt>);

    open spec fn deep_view(&self) -> (VarInt, Seq<VarInt>) {
        (self.length, self.array.deep_view())
    }
}

impl McSerialize for IndirectFormat {
    open spec fn spec_serialize(v: (VarInt, Seq<VarInt>)) -> Seq<u8> {
        VarInt::spec_serialize(v.0) + seq_serialize::<VarInt>(v.1)
    }

    open spec fn spec_can_serialize(v: (VarInt, Seq<VarInt>)) -> bool {
        true
    }

    fn mc_serialize(&self, serializer: &mut McSerializer) -> (r: Result<(), SerializingErr>) {
        let _ = self.length.mc_serialize(serializer);
        serialize_all(&self.array, serializer);
        assert(serializer.output@ == old(serializer).output@ + (VarInt::spec_serialize(self.length) + seq_serialize::<VarInt>(self.array.deep_view())));
        Ok(())
    }
}

impl McDeserialize for IndirectFormat {
    /// The length field, then values until the input ends.
    open spec fn spec_deserialize(s: Seq<u8>) -> ParseResult<(VarInt, Seq<VarInt>)> {
        match spec_varint_parse(s) {
            Ok((len, n)) => match parse_all::<VarInt>(s.skip(n as int)) {
                Ok((xs, k)) => Ok(((len, xs), n + k)),
                Err(e) => Err(e),
            },
            Err(e) => Err(e),
        }
    }

    proof fn lemma_deserialize_len(s: Seq<u8>) {
        VarInt::lemma_deserialize_len(s);
        if let Ok((len, n)) = spec_varint_parse(s) {
            Vec::<VarInt>::lemma_deserialize_len(s.skip(n as int));
        }
    }

    fn mc_deserialize(deserializer: &mut McDeserializer) -> (r: Result<IndirectFormat, SerializingErr>) {
        let ghost d0 = *deserializer;
        let length = read_varint(deserializer)?;
        proof {
            VarInt::lemma_deserialize_len(d0.remaining());
            crate::protocol::serialization::lemma_remaining_advance(d0, *deserializer, (deserializer.index - d0.index) as nat);
        }
        let array = deserialize_all::<VarInt>(deserializer)?;
        Ok(IndirectFormat { length, array })
    }
}

/// The palette of a container.
#[derive(Debug, Clone, Hash, PartialEq)]
pub enum PalleteFormat {
    SingleValued(VarInt),
    Indirect(IndirectFormat),
    Direct,
}

impl DeepView for PalleteFormat {
    type V = PaletteModel<(VarInt, Seq<VarInt>)>;

    open spec fn deep_view(&self) -> PaletteModel<(VarInt, Seq<VarInt>)> {
        match self {
            PalleteFormat::SingleValued(v) => PaletteModel::SingleValued(*v),
            PalleteFormat::Indirect(f) => PaletteModel::Indirect(f.deep_view()),
            PalleteFormat::Direct => PaletteModel::Direct,
        }
    }
}

impl McSerialize for PalleteFormat {
    open spec fn spec_serialize(v: PaletteModel<(VarInt, Seq<VarInt>)>) -> Seq<u8> {
        match v {
            PaletteModel::SingleValued(x) => VarInt::spec_serialize(x),
            PaletteModel::Indirect(f) => IndirectFormat::spec_serialize(f),
            PaletteModel::Direct => Seq::<u8>::empty(),
        }
    }

    open spec fn spec_can_serialize(v: PaletteModel<(VarInt, Seq<VarInt>)>) -> bool {
        true
    }

    fn mc_serialize(&self, serializer: &mut McSerializer) -> (r: Result<(), SerializingErr>) {
        match self {
            PalleteFormat::SingleValued(value) => {
                let _ = value.mc_serialize(serializer);
            },
            PalleteFormat::Indirect(format) => {
                let _ = format.mc_serialize(serializer);
            },
            PalleteFormat::Direct => {
                assert(old(serializer).output@ + Seq::<u8>::empty() == old(serializer).output@);
            },
        }
        Ok(())
    }
}

/// The parse of a palette for entries of `bpe` bits holding `typ`. Blocks use an indirect palette
/// from 4 to 8 bits and none at 15; biomes an indirect palette from 1 to 3 bits and none at 6.
pub open spec fn spec_palette_parse(s: Seq<u8>, bpe: u8, typ: PaletteFormatType) -> ParseResult<PaletteModel<(VarInt, Seq<VarInt>)>> {
    if bpe == 0 {
        match spec_varint_parse(s) {
            Ok((v, n)) => Ok((PaletteModel::SingleValued(v), n)),
            Err(e) => Err(e),
        }
    } else if (typ == PaletteFormatType::BLOCKS && 4 <= bpe <= 8) || (typ == PaletteFormatType::BIOMES && 1 <= bpe <= 3) {
        match IndirectFormat::spec_deserialize(s) {
            Ok((f, n)) => Ok((PaletteModel::Indirect(f), n)),
            Err(e) => Err(e),
        }
    } else if (typ == PaletteFormatType::BLOCKS && bpe == 15) || (typ == PaletteFormatType::BIOMES && bpe == 6) {
        Ok((PaletteModel::Direct, 0nat))
    } else {
        Err(ErrKind::InvalidBitsPerEntry)
    }
}

impl PalleteFormat {
    /// Read the palette for entries of `bits_per_entry` bits holding `typ`.
    pub fn mc_deserialize(deserializer: &mut McDeserializer, bits_per_entry: u8, typ: PaletteFormatType) -> (r: Result<PalleteFormat, SerializingErr>)
        ensures
            final(deserializer).data@ == old(deserializer).data@,
            deserialized(spec_palette_parse(old(deserializer).remaining(), bits_per_entry, typ), old(deserializer).index, final(deserializer).index, r),
    {
        if bits_per_entry == 0 {
            return Ok(PalleteFormat::SingleValued(read_varint(deserializer)?));
        }
        match typ {
            PaletteFormatType::BLOCKS => {
                if bits_per_entry >= 4 && bits_per_entry <= 8 {
                    Ok(PalleteFormat::Indirect(IndirectFormat::mc_deserialize(deserializer)?))
                } else if bits_per_entry == 15 {
                    Ok(PalleteFormat::Direct)
                } else {
                    Err(SerializingErr::InvalidBitsPerEntry)
                }
            },
            PaletteFormatType::BIOMES => {
                if bits_per_entry >= 1 && bits_per_entry <= 3 {
                    Ok(PalleteFormat::Indirect(IndirectFormat::mc_deserialize(deserializer)?))
                } else if bits_per_entry == 6 {
                    Ok(PalleteFormat::Direct)
                } else {
                    Err(SerializingErr::InvalidBitsPerEntry)
                }
            },
        }
    }
}

/// A container of entries: their width, the palette they index, and the packed words.
#[derive(Debug, Clone, Hash, PartialEq)]
pub struct PalletedContainer {
    pub bits_per_entry: u8,
    pub palette: PalleteFormat,
    pub data: Vec<PackedEntries>,
}

impl DeepView for PalletedContainer {
    type V = (u8, PaletteModel<(VarInt, Seq<VarInt>)>, Seq<PackedEntries>);

    open spec fn deep_view(&self) -> (u8, PaletteModel<(VarInt, Seq<VarInt>)>, Seq<PackedEntries>) {
        (self.bits_per_entry, self.palette.deep_view(), self.data.deep_view())
    }
}

impl McSerialize for PalletedContainer {
    open spec fn spec_serialize(v: (u8, PaletteModel<(VarInt, Seq<VarInt>)>, Seq<PackedEntries>)) -> Seq<u8> {
        seq![v.0] + PalleteFormat::spec_serialize(v.1) + seq_serialize::<PackedEntries>(v.2)
    }

    open spec fn spec_can_serialize(v: (u8, PaletteModel<(VarInt, Seq<VarInt>)>, Seq<PackedEntries>)) -> bool {
        true
    }

    fn mc_serialize(&self, serializer: &mut McSerializer) -> (r: Result<(), SerializingErr>) {
        serializer.output.push(self.bits_per_entry);
        let _ = self.palette.mc_serialize(serializer);
        serialize_all(&self.data, serializer);
        Ok(())
    }
}

/// The parse of a container of `num_entries` entries holding `typ`: the width, the palette, and
/// as many words as the entries need.
pub open spec fn spec_container_parse(s: Seq<u8>, num_entries: u16, typ: PaletteFormatType) -> ParseResult<(u8, PaletteModel<(VarInt, Seq<VarInt>)>, Seq<PackedEntries>)> {
    if s.len() == 0 {
        Err(ErrKind::InputEnded)
    } else {
        let bpe = s[0];
        match spec_palette_parse(s.skip(1), bpe, typ) {
            Ok((p, n)) => match spec_words_parse(s.skip((1 + n) as int), spec_word_count(num_entries, bpe) as nat, bpe) {
                Ok((w, k)) => Ok(((bpe, p, w), 1 + n + k)),
                Err(e) => Err(e),
            },
            Err(e) => Err(e),
        }
    }
}

pub proof fn lemma_palette_parse_len(s: Seq<u8>, bpe: u8, typ: PaletteFormatType)
    ensures
        spec_palette_parse(s, bpe, typ) matches Ok((p, n)) ==> n <= s.len(),
{
    VarInt::lemma_deserialize_len(s);
    IndirectFormat::lemma_deserialize_len(s);
}

pub proof fn lemma_words_parse_len(s: Seq<u8>, n: nat, bpe: u8)
    ensures
        spec_words_parse(s, n, bpe) matches Ok((w, k)) ==> k <= s.len() && w.len() == n,
{
    crate::protocol::serialization::serializer_types::lemma_parse_n_len::<i64>(s, n);
}

impl PalletedContainer {
    /// Read a container of `num_entries` entries holding `typ`.
    pub fn mc_deserialize(deserializer: &mut McDeserializer, num_entries: u16, typ: PaletteFormatType) -> (r: Result<PalletedContainer, SerializingErr>)
        ensures
            final(deserializer).data@ == old(deserializer).data@,
            deserialized(spec_container_parse(old(deserializer).remaining(), num_entries, typ), old(deserializer).index, final(deserializer).index, r),
    {
        let ghost d0 = *deserializer;
        let bpe = deserializer.pop_u8()?;
        let ghost d1 = *deserializer;
        proof {
            crate::protocol::serialization::lemma_remaining_advance(d0, d1, 1);
        }
        let palette = PalleteFormat::mc_deserialize(deserializer, bpe, typ)?;
        proof {
            lemma_palette_parse_len(d1.remaining(), bpe, typ);
            crate::protocol::serialization::lemma_remaining_advance(d1, *deserializer, (deserializer.index - d1.index) as nat);
            assert(d1.remaining().skip((deserializer.index - d1.index) as int) == d0.remaining().skip(deserializer.index - d0.index));
        }
        let count = word_count(num_entries, bpe);
        let data = deserialize_words(deserializer, count as usize, bpe)?;
        Ok(PalletedContainer { bits_per_entry: bpe, palette, data })
    }
}

/// One 16-block-tall section of a chunk.
#[derive(Debug, Clone, Hash, PartialEq)]
pub struct ChunkSection {
    /// Number of non-air blocks present in the chunk section. "Non-air" is defined as any fluid and block other than air, cave air, and void air
    pub block_count: i16,
    /// Consists of 4096 entries, representing all the blocks in the chunk section
    pub block_states: PalletedContainer,
    /// Consists of 64 entries, representing 4×4×4 biome regions in the chunk section
    pub biomes: PalletedContainer,
}

impl DeepView for ChunkSection {
    type V = (i16, <PalletedContainer as DeepView>::V, <PalletedContainer as DeepView>::V);

    open spec fn deep_view(&self) -> Self::V {
        (self.block_count, self.block_states.deep_view(), self.biomes.deep_view())
    }
}

impl McSerialize for ChunkSection {
    open spec fn spec_serialize(v: Self::V) -> Seq<u8> {
        i16::spec_serialize(v.0) + PalletedContainer::spec_serialize(v.1) + PalletedContainer::spec_serialize(v.2)
    }

    open spec fn spec_can_serialize(v: Self::V) -> bool {
        true
    }

    fn mc_serialize(&self, serializer: &mut McSerializer) -> (r: Result<(), SerializingErr>) {
        let _ = self.block_count.mc_serialize(serializer);
        let _ = self.block_states.mc_serialize(serializer);
        let _ = self.biomes.mc_serialize(serializer);
        Ok(())
    }
}

impl McDeserialize for ChunkSection {
    /// The block count, then 4096 block entries, then 64 biome entries.
    open spec fn spec_deserialize(s: Seq<u8>) -> ParseResult<Self::V> {
        match i16::spec_deserialize(s) {
            Ok((count, n1)) => match spec_container_parse(s.skip(n1 as int), 4096, PaletteFormatType::BLOCKS) {
                Ok((blocks, n2)) => match spec_container_parse(s.skip((n1 + n2) as int), 64, PaletteFormatType::BIOMES) {
                    Ok((biomes, n3)) => Ok(((count, blocks, biomes), n1 + n2 + n3)),
                    Err(e) => Err(e),
                },
                Err(e) => Err(e),
            },
            Err(e) => Err(e),
        }
    }

    proof fn lemma_deserialize_len(s: Seq<u8>) {
        if let Ok((count, n1)) = i16::spec_deserialize(s) {
            lemma_container_parse_len(s.skip(n1 as int), 4096, PaletteFormatType::BLOCKS);
            if let Ok((blocks, n2)) = spec_container_parse(s.skip(n1 as int), 4096, PaletteFormatType::BLOCKS) {
                lemma_container_parse_len(s.skip((n1 + n2) as int), 64, PaletteFormatType::BIOMES);
            }
        }
    }

    fn mc_deserialize(deserializer: &mut McDeserializer) -> (r: Result<ChunkSection, SerializingErr>) {
        let ghost d0 = *deserializer;
        let block_count = i16::mc_deserialize(deserializer)?;
        let ghost d1 = *deserializer;
        proof {
            crate::protocol::serialization::lemma_remaining_advance(d0, d1, 2);
        }
        let block_states = PalletedContainer::mc_deserialize(deserializer, 4096, PaletteFormatType::BLOCKS)?;
        proof {
            lemma_container_parse_len(d1.remaining(), 4096, PaletteFormatType::BLOCKS);
            crate::protocol::serialization::lemma_remaining_advance(d1, *deserializer, (deserializer.index - d1.index) as nat);
            assert(d1.remaining().skip((deserializer.index - d1.index) as int) == d0.remaining().skip(deserializer.index - d0.index));
        }
        let biomes = PalletedContainer::mc_deserialize(deserializer, 64, PaletteFormatType::BIOMES)?;
        Ok(ChunkSection { block_count, block_states, biomes })
    }
}

pub proof fn lemma_container_parse_len(s: Seq<u8>, num_entries: u16, typ: PaletteFormatType)
    ensures
        spec_container_parse(s, num_entries, typ) matches Ok((c, n)) ==> n <= s.len(),
{
    if s.len() > 0 {
        lemma_palette_parse_len(s.skip(1), s[0], typ);
        if let Ok((p, n)) = spec_palette_parse(s.skip(1), s[0], typ) {
            lemma_words_parse_len(s.skip((1 + n) as int), spec_word_count(num_entries, s[0]) as nat, s[0]);
        }
    }
}

/// A chunk column: its sections, bottom to top, with no count in front.
#[derive(Debug, Clone, Hash, PartialEq)]
pub struct Chunk {
    /// This array is NOT length-prefixed. The number of elements in the array is calculated based on the world's height.
    /// Sections are sent bottom-to-top. The world height changes based on the dimension.
    /// The height of each dimension is assigned by the server in its corresponding registry data entry.
    /// For example, the vanilla overworld is 384 blocks tall, meaning 24 chunk sections will be included in this array
    pub data: Vec<ChunkSection>,
}

impl DeepView for Chunk {
    type V = Seq<<ChunkSection as DeepView>::V>;

    open spec fn deep_view(&self) -> Self::V {
        self.data.deep_view()
    }
}

impl McSerialize for Chunk {
    open spec fn spec_serialize(v: Self::V) -> Seq<u8> {
        seq_serialize::<ChunkSection>(v)
    }

    open spec fn spec_can_serialize(v: Self::V) -> bool {
        true
    }

    fn mc_serialize(&self, serializer: &mut McSerializer) -> (r: Result<(), SerializingErr>) {
        serialize_all(&self.data, serializer);
        Ok(())
    }
}

impl McDeserialize for Chunk {
    /// Sections until the input ends.
    open spec fn spec_deserialize(s: Seq<u8>) -> ParseResult<Self::V> {
        parse_all::<ChunkSection>(s)
    }

    proof fn lemma_deserialize_len(s: Seq<u8>) {
        crate::protocol::serialization::serializer_types::lemma_parse_all_len::<ChunkSection>(s);
    }

    fn mc_deserialize(deserializer: &mut McDeserializer) -> (r: Result<Chunk, SerializingErr>) {
        let data = deserialize_all::<ChunkSection>(deserializer)?;
        Ok(Chunk { data })
    }
}

/// A heightmap: its type, a length field sent as given, and the packed heights until the input
/// ends.
#[derive(Debug, Clone, Hash, PartialEq)]
pub struct Heightmap {
    pub typ: VarInt,
    pub length: VarInt,
    pub data: Vec<i64>,
}

impl DeepView for Heightmap {
    type V = (VarInt, VarInt, Seq<i64>);

    open spec fn deep_view(&self) -> (VarInt, VarInt, Seq<i64>) {
        (self.typ, self.length, self.data.deep_view())
    }
}

impl McSerialize for Heightmap {
    open spec fn spec_serialize(v: (VarInt, VarInt, Seq<i64>)) -> Seq<u8> {
        VarInt::spec_serialize(v.0) + VarInt::spec_serialize(v.1) + seq_serialize::<i64>(v.2)
    }

    open spec fn spec_can_serialize(v: (VarInt, VarInt, Seq<i64>)) -> bool {
        true
    }

    fn mc_serialize(&self, serializer: &mut McSerializer) -> (r: Result<(), SerializingErr>) {
        let _ = self.typ.mc_serialize(serializer);
        let _ = self.length.mc_serialize(serializer);
        serialize_all(&self.data, serializer);
        Ok(())
    }
}

impl McDeserialize for Heightmap {
    open spec fn spec_deserialize(s: Seq<u8>) -> ParseResult<(VarInt, VarInt, Seq<i64>)> {
        match spec_varint_parse(s) {
            Ok((typ, n1)) => match spec_varint_parse(s.skip(n1 as int)) {
                Ok((length, n2)) => match parse_all::<i64>(s.skip((n1 + n2) as int)) {
                    Ok((xs, n3)) => Ok(((typ, length, xs), n1 + n2 + n3)),
                    Err(e) => Err(e),
                },
                Err(e) => Err(e),
            },
            Err(e) => Err(e),
        }
    }

    proof fn lemma_deserialize_len(s: Seq<u8>) {
        VarInt::lemma_deserialize_len(s);
        if let Ok((typ, n1)) = spec_varint_parse(s) {
            VarInt::lemma_deserialize_len(s.skip(n1 as int));
            if let Ok((length, n2)) = spec_varint_parse(s.skip(n1 as int)) {
                crate::protocol::serialization::serializer_types::lemma_parse_all_len::<i64>(s.skip((n1 + n2) as int));
            }
        }
    }

    fn mc_deserialize(deserializer: &mut McDeserializer) -> (r: Result<Heightmap, SerializingErr>) {
        let ghost d0 = *deserializer;
        let typ = read_varint(deserializer)?;
        let ghost d1 = *deserializer;
        proof {
            VarInt::lemma_deserialize_len(d0.remaining());
            crate::protocol::serialization::lemma_remaining_advance(d0, d1, (d1.index - d0.index) as nat);
        }
        let length = read_varint(deserializer)?;
        proof {
            VarInt::lemma_deserialize_len(d1.remaining());
            crate::protocol::serialization::lemma_remaining_advance(d1, *deserializer, (deserializer.index - d1.index) as nat);
            assert(d1.remaining().skip((deserializer.index - d1.index) as int) == d0.remaining().skip(deserializer.index - d0.index));
        }
        let data = deserialize_all::<i64>(deserializer)?;
        Ok(Heightmap { typ, length, data })
    }
}

/// The light part of the chunk data and light packet; it carries nothing yet.
pub struct ChunkDataUpdateLight {}

} // verus!
