//! The actions of a player info update.

use crate::protocol::game::info::player::PlayerInfoUpdateType;
use crate::protocol::packets::packet_parts::ProtocolPropertyElement;
use crate::protocol::serialization::serializer_types::PrefixedArray;
use crate::protocol::serialization::{
    McDeserialize, McDeserializer, McRoundTrip, McSerialize, McSerializer, ParseResult,
    SerializingErr,
};
use crate::util::bitfield::{spec_bit_of, BitField};
use vstd::prelude::*;

verus! {

/// The set of update kinds a player info update carries, one bit each in a byte. Only used for
/// Player Info Updates.
#[derive(Debug, Clone, PartialEq)]
pub struct EnumSet {
    field: BitField,
}

impl DeepView for EnumSet {
    type V = u8;

    closed spec fn deep_view(&self) -> u8 {
        self.field.value
    }
}

proof fn lemma_raw_step(value: u8, val: u8, i: u8)
    requires
        i < 8,
        val == value & (((1u16 << i) - 1) as u8),
    ensures
        (if (value >> i) & 1u8 == 1u8 { val | (1u8 << i) } else { val }) == value & (((1u16 << ((i + 1) as u8)) - 1) as u8),
{
    assert((if (value >> i) & 1u8 == 1u8 { val | (1u8 << i) } else { val }) == value & (((1u16 << ((i + 1) as u8)) - 1) as u8)) by (bit_vector)
        requires
            i < 8,
            val == value & (((1u16 << i) - 1) as u8),
    ;
}

impl EnumSet {
    /// Whether the set holds the kind `action`.
    pub open spec fn spec_has(self, action: PlayerInfoUpdateType) -> bool {
        spec_bit_of(self.deep_view(), action.spec_bit_index())
    }

    /// The empty set.
    pub fn new() -> (s: Self)
        ensures
            s.deep_view() == 0,
    {
        EnumSet { field: BitField::new(0) }
    }

    /// The set whose byte is `value`.
    pub fn from_raw(value: u8) -> (s: Self)
        ensures
            s.deep_view() == value,
    {
        EnumSet { field: BitField::new(value) }
    }

    /// Whether the set holds `action`.
    pub fn has(&self, action: &PlayerInfoUpdateType) -> (b: bool)
        ensures
            b == self.spec_has(*action),
    {
        self.field.get_bit(action.get_bit_index())
    }

    /// Add `action` to the set or take it out; the other kinds stay.
    pub fn set(&mut self, action: &PlayerInfoUpdateType, value: bool)
        ensures
            forall|i: nat| #[trigger] spec_bit_of(final(self).deep_view(), i) == if i == action.spec_bit_index() { value } else { spec_bit_of(old(self).deep_view(), i) },
    {
        self.field.set_bit(action.get_bit_index(), value);
    }

    /// The byte of the set, rebuilt from its eight bits.
    pub fn raw(&self) -> (v: u8)
        ensures
            v == self.deep_view(),
    {
        let value = self.field.value;
        let mut val: u8 = 0;
        let mut i: u8 = 0;
        assert(0u8 == value & (((1u16 << 0u8) - 1) as u8)) by (bit_vector);
        while i < 8
            invariant
                i <= 8,
                value == self.field.value,
                val == value & (((1u16 << i) - 1) as u8),
            decreases 8 - i,
        {
            proof {
                lemma_raw_step(value, val, i);
            }
            if self.field.get_bit(i as usize) {
                val = val | (1u8 << i);
            }
            i = i + 1;
        }
        assert(value & (((1u16 << 8u8) - 1) as u8) == value) by (bit_vector);
        val
    }
}

impl McSerialize for EnumSet {
    open spec fn spec_serialize(v: u8) -> Seq<u8> {
        BitField::spec_serialize(BitField { value: v })
    }

    open spec fn spec_can_serialize(v: u8) -> bool {
        true
    }

    fn mc_serialize(&self, serializer: &mut McSerializer) -> (r: Result<(), SerializingErr>) {
        self.field.mc_serialize(serializer)
    }
}

impl McDeserialize for EnumSet {
    open spec fn spec_deserialize(s: Seq<u8>) -> ParseResult<u8> {
        match BitField::spec_deserialize(s) {
            Ok((f, n)) => Ok((f.value, n)),
            Err(e) => Err(e),
        }
    }

    proof fn lemma_deserialize_len(s: Seq<u8>) {
        BitField::lemma_deserialize_len(s);
    }

    fn mc_deserialize(deserializer: &mut McDeserializer) -> (r: Result<EnumSet, SerializingErr>) {
        let field = BitField::mc_deserialize(deserializer)?;
        Ok(EnumSet { field })
    }
}

impl McRoundTrip for EnumSet {
    open spec fn spec_well_formed(v: u8) -> bool {
        true
    }

    proof fn lemma_round_trip(v: u8, rest: Seq<u8>) {
        BitField::lemma_round_trip(BitField { value: v }, rest);
    }
}

/// The fields of [`AddPlayerData`] as they are sent, in order.
pub type AddPlayerDataFields = (String, PrefixedArray<ProtocolPropertyElement>);

/// The data of the add-player action: the player's name and profile properties.
#[derive(Debug, Clone, PartialEq)]
pub struct AddPlayerData {
    pub name: String,
    pub properties: PrefixedArray<ProtocolPropertyElement>,
}

impl DeepView for AddPlayerData {
    type V = <AddPlayerDataFields as DeepView>::V;

    open spec fn deep_view(&self) -> Self::V {
        (self.name.deep_view(), self.properties.deep_view())
    }
}

impl McSerialize for AddPlayerData {
    open spec fn spec_serialize(v: Self::V) -> Seq<u8> {
        AddPlayerDataFields::spec_serialize(v)
    }

    open spec fn spec_can_serialize(v: Self::V) -> bool {
        AddPlayerDataFields::spec_can_serialize(v)
    }

    fn mc_serialize(&self, serializer: &mut McSerializer) -> (r: Result<(), SerializingErr>) {
        let _ = self.name.mc_serialize(serializer);
        let _ = self.properties.mc_serialize(serializer);
        assert(serializer.output@ == old(serializer).output@ + Self::spec_serialize(self.deep_view()));
        Ok(())
    }
}

impl McDeserialize for AddPlayerData {
    open spec fn spec_deserialize(s: Seq<u8>) -> ParseResult<Self::V> {
        AddPlayerDataFields::spec_deserialize(s)
    }

    proof fn lemma_deserialize_len(s: Seq<u8>) {
        AddPlayerDataFields::lemma_deserialize_len(s);
    }

    fn mc_deserialize(deserializer: &mut McDeserializer) -> (r: Result<AddPlayerData, SerializingErr>) {
        let (name, properties) = AddPlayerDataFields::mc_deserialize(deserializer)?;
        Ok(AddPlayerData { name, properties })
    }
}

impl McRoundTrip for AddPlayerData {
    open spec fn spec_well_formed(v: Self::V) -> bool {
        AddPlayerDataFields::spec_well_formed(v)
    }

    proof fn lemma_round_trip(v: Self::V, rest: Seq<u8>) {
        AddPlayerDataFields::lemma_round_trip(v, rest);
    }
}

} // verus!
