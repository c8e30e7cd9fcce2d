//! A byte read and written as eight flags.

use crate::protocol::serialization::{
    deserialized, McDeserialize, McDeserializer, McRoundTrip, McSerialize, McSerializer,
    ParseResult, SerializingErr,
};
use crate::protocol::serialization::primitives::fixed_parse;
use vstd::prelude::*;

verus! {

/// Eight flags packed into a byte; flag `i` is bit `i`, counting from the least significant.
#[derive(Debug, Clone, Copy, PartialEq, Eq, Hash)]
pub struct BitField {
    pub value: u8,
}

impl DeepView for BitField {
    type V = BitField;

    open spec fn deep_view(&self) -> BitField {
        *self
    }
}

/// Flag `i` of `value`.
pub open spec fn spec_bit_of(value: u8, i: nat) -> bool {
    i < 8 && (value >> (i as u8)) & 1u8 == 1u8
}

impl BitField {
    pub fn new(value: u8) -> (f: Self)
        ensures
            f.value == value,
    {
        BitField { value }
    }

    /// Flag `i`.
    pub fn get_bit(&self, i: usize) -> (b: bool)
        requires
            i < 8,
        ensures
            b == spec_bit_of(self.value, i as nat),
    {
        let shift: u8 = i as u8;
        (self.value >> shift) & 1u8 == 1u8
    }

    /// Set flag `i` to `on`; the other flags stay.
    pub fn set_bit(&mut self, i: usize, on: bool)
        requires
            i < 8,
        ensures
            forall|j: nat| #[trigger] spec_bit_of(final(self).value, j) == if j == i { on } else { spec_bit_of(old(self).value, j) },
    {
        let shift: u8 = i as u8;
        let old_value: u8 = self.value;
        if on {
            self.value = self.value | (1u8 << shift);
        } else {
            self.value = self.value & !(1u8 << shift);
        }
        let new_value: u8 = self.value;
        assert forall|j: nat| #[trigger] spec_bit_of(new_value, j) == if j == i { on } else { spec_bit_of(old_value, j) } by {
            if j < 8 {
                let k: u8 = j as u8;
                if on {
                    assert(((old_value | (1u8 << shift)) >> k) & 1u8 == if k == shift { 1u8 } else { (old_value >> k) & 1u8 }) by (bit_vector)
                        requires shift < 8, k < 8;
                } else {
                    assert(((old_value & !(1u8 << shift)) >> k) & 1u8 == if k == shift { 0u8 } else { (old_value >> k) & 1u8 }) by (bit_vector)
                        requires shift < 8, k < 8;
                }
            }
        }
    }
}

impl McSerialize for BitField {
    open spec fn spec_serialize(v: BitField) -> Seq<u8> {
        seq![v.value]
    }

    open spec fn spec_can_serialize(v: BitField) -> bool {
        true
    }

    fn mc_serialize(&self, serializer: &mut McSerializer) -> (r: Result<(), SerializingErr>) {
        serializer.output.push(self.value);
        Ok(())
    }
}

impl McDeserialize for BitField {
    open spec fn spec_deserialize(s: Seq<u8>) -> ParseResult<BitField> {
        fixed_parse(s, 1, BitField { value: s[0] })
    }

    proof fn lemma_deserialize_len(s: Seq<u8>) {
    }

    fn mc_deserialize(deserializer: &mut McDeserializer) -> (r: Result<BitField, SerializingErr>) {
        let value = deserializer.pop_u8()?;
        Ok(BitField { value })
    }
}

impl McRoundTrip for BitField {
    open spec fn spec_well_formed(v: BitField) -> bool {
        true
    }

    proof fn lemma_round_trip(v: BitField, rest: Seq<u8>) {
        assert((seq![v.value] + rest)[0] == v.value);
    }
}

} // verus!
