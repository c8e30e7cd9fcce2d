//! A growable set of bits, stored in 64-bit words and sent as a length-prefixed array of them.

use crate::protocol::serialization::serializer_types::{
    spec_prefixed_bytes, spec_prefixed_parse, PrefixedArray,
};
use crate::protocol::serialization::{
    deserialized, McDeserialize, McDeserializer, McRoundTrip, McSerialize, McSerializer,
    ParseResult, SerializingErr,
};
use vstd::prelude::*;

verus! {

/// A set of bits; bit `i` is bit `i % 64` of word `i / 64`. Bits past the last word are clear.
#[derive(Debug, Clone, PartialEq, Hash)]
pub struct BitSet {
    pub data: Vec<i64>,
}

impl DeepView for BitSet {
    type V = Seq<i64>;

    open spec fn deep_view(&self) -> Seq<i64> {
        self.data@
    }
}

/// Bit `i` of the words `words`.
pub open spec fn spec_bitset_bit(words: Seq<i64>, i: nat) -> bool {
    i / 64 < words.len() && ((words[(i / 64) as int] as u64) >> ((i % 64) as u64)) & 1u64 == 1u64
}

/// The number of words that hold `bits` bits.
pub open spec fn spec_words_for(bits: nat) -> nat {
    (bits + 63) / 64
}

proof fn lemma_word_bit_set(x: u64, k: u64, j: u64, on: bool)
    requires
        k < 64,
        j < 64,
    ensures
        (((if on { x | (1u64 << k) } else { x & !(1u64 << k) }) >> j) & 1u64 == 1u64) == (if j == k { on } else { (x >> j) & 1u64 == 1u64 }),
{
    if on {
        assert(((x | (1u64 << k)) >> j) & 1u64 == if j == k { 1u64 } else { (x >> j) & 1u64 }) by (bit_vector)
            requires k < 64, j < 64;
        assert((x >> j) & 1u64 == 1u64 || (x >> j) & 1u64 == 0u64) by (bit_vector);
    } else {
        assert(((x & !(1u64 << k)) >> j) & 1u64 == if j == k { 0u64 } else { (x >> j) & 1u64 }) by (bit_vector)
            requires k < 64, j < 64;
    }
}

impl BitSet {
    /// An empty set with room for `bits` bits.
    pub fn new(bits: usize) -> (b: Self)
        ensures
            b.data@.len() == spec_words_for(bits as nat),
            forall|i: nat| !#[trigger] spec_bitset_bit(b.data@, i),
    {
        let words: usize = bits / 64 + if bits % 64 == 0 { 0 } else { 1 };
        let mut data: Vec<i64> = Vec::new();
        let mut k: usize = 0;
        while k < words
            invariant
                k <= words,
                data@.len() == k,
                forall|j: int| 0 <= j < k ==> data@[j] == 0,
            decreases words - k,
        {
            data.push(0);
            k = k + 1;
        }
        assert forall|i: nat| !#[trigger] spec_bitset_bit(data@, i) by {
            if i / 64 < data@.len() {
                let s: u64 = (i % 64) as u64;
                assert(((0i64 as u64) >> s) & 1u64 == 0u64) by (bit_vector);
            }
        }
        BitSet { data }
    }

    /// Bit `index`.
    pub fn get_bit(&self, index: usize) -> (b: bool)
        ensures
            b == spec_bitset_bit(self.data@, index as nat),
    {
        let word: usize = index / 64;
        if word >= self.data.len() {
            return false;
        }
        let shift: u64 = (index % 64) as u64;
        let x: u64 = #[verifier::truncate] (self.data[word] as u64);
        (x >> shift) & 1u64 == 1u64
    }

    /// Set bit `index` to `on`, adding words when a set bit lies past the last one; every other
    /// bit stays.
    pub fn set_bit(&mut self, index: usize, on: bool)
        ensures
            forall|i: nat| #[trigger] spec_bitset_bit(final(self).data@, i) == if i == index { on } else { spec_bitset_bit(old(self).data@, i) },
            final(self).data@.len() == if on && index / 64 >= old(self).data@.len() { (index / 64 + 1) as nat } else { old(self).data@.len() },
    {
        let word: usize = index / 64;
        if word >= self.data.len() {
            if !on {
                return;
            }
            while self.data.len() <= word
                invariant
                    old(self).data@.len() <= self.data@.len() <= word + 1,
                    self.data@.subrange(0, old(self).data@.len() as int) == old(self).data@,
                    forall|j: int| old(self).data@.len() <= j < self.data@.len() ==> self.data@[j] == 0,
                decreases word + 1 - self.data@.len(),
            {
                self.data.push(0);
            }
        }
        let ghost grown = self.data@;
        assert forall|i: nat| #[trigger] spec_bitset_bit(grown, i) == spec_bitset_bit(old(self).data@, i) by {
            if i / 64 < grown.len() && i / 64 >= old(self).data@.len() {
                let s: u64 = (i % 64) as u64;
                assert(grown[(i / 64) as int] == 0);
                assert(((0i64 as u64) >> s) & 1u64 == 0u64) by (bit_vector);
            }
            if i / 64 < old(self).data@.len() {
                assert(grown[(i / 64) as int] == old(self).data@[(i / 64) as int]);
            }
        }
        let shift: u64 = (index % 64) as u64;
        let x: u64 = #[verifier::truncate] (self.data[word] as u64);
        let y: u64 = if on { x | (1u64 << shift) } else { x & !(1u64 << shift) };
        self.data.set(word, #[verifier::truncate] (y as i64));
        assert(((y as i64) as u64) == y) by (bit_vector);
        assert forall|i: nat| #[trigger] spec_bitset_bit(self.data@, i) == if i == index { on } else { spec_bitset_bit(old(self).data@, i) } by {
            assert(self.data@.len() == grown.len());
            assert(spec_bitset_bit(grown, i) == spec_bitset_bit(old(self).data@, i));
            if i / 64 == word {
                lemma_word_bit_set(x, shift, (i % 64) as u64, on);
                assert(self.data@[word as int] == y as i64);
                assert((i == index) == ((i % 64) as u64 == shift));
                assert(spec_bitset_bit(grown, i) == ((x >> ((i % 64) as u64)) & 1u64 == 1u64));
                assert(spec_bitset_bit(self.data@, i) == ((y >> ((i % 64) as u64)) & 1u64 == 1u64));
            } else {
                assert(i != index);
                if i / 64 < grown.len() {
                    assert(self.data@[(i / 64) as int] == grown[(i / 64) as int]);
                }
            }
        }
    }
}

impl McSerialize for BitSet {
    open spec fn spec_serialize(v: Seq<i64>) -> Seq<u8> {
        spec_prefixed_bytes::<i64>(v)
    }

    open spec fn spec_can_serialize(v: Seq<i64>) -> bool {
        PrefixedArray::<i64>::spec_can_serialize(v)
    }

    fn mc_serialize(&self, serializer: &mut McSerializer) -> (r: Result<(), SerializingErr>) {
        let words = PrefixedArray::new(self.data.clone());
        assert(words.deep_view() =~= self.data@);
        words.mc_serialize(serializer)
    }
}

impl McDeserialize for BitSet {
    open spec fn spec_deserialize(s: Seq<u8>) -> ParseResult<Seq<i64>> {
        spec_prefixed_parse::<i64>(s)
    }

    proof fn lemma_deserialize_len(s: Seq<u8>) {
        PrefixedArray::<i64>::lemma_deserialize_len(s);
    }

    fn mc_deserialize(deserializer: &mut McDeserializer) -> (r: Result<BitSet, SerializingErr>) {
        let words = PrefixedArray::<i64>::mc_deserialize(deserializer)?;
        assert(words.deep_view() =~= words.vec@);
        Ok(BitSet { data: words.vec })
    }
}

impl McRoundTrip for BitSet {
    open spec fn spec_well_formed(v: Seq<i64>) -> bool {
        true
    }

    proof fn lemma_round_trip(v: Seq<i64>, rest: Seq<u8>) {
        PrefixedArray::<i64>::lemma_round_trip(v, rest);
    }
}

} // verus!
