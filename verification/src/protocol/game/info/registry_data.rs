//! Registry data with each entry's data kept as a compound, as it is sent.
//!
//! https://minecraft.wiki/w/Java_Edition_protocol/Registry_data

use crate::protocol::serialization::serializer_types::{PrefixedArray, PrefixedOptional};
use crate::protocol::serialization::{
    McDeserialize, McDeserializer, McRoundTrip, McSerialize, McSerializer, ParseResult, SerializingErr,
};
use crate::protocol_types::datatypes::nbt::NbtCompound;
use vstd::prelude::*;

verus! {

/// The fields of [`RegistryDataPacket`] as they are sent, in order.
pub type RegistryDataPacketFields = (String, PrefixedArray<RegistryEntry>);

/// Registry data as sent: the registry's name and its entries.
#[derive(Debug, PartialEq)]
pub struct RegistryDataPacket {
    pub registry_id: String,
    pub entries: PrefixedArray<RegistryEntry>,
}

impl DeepView for RegistryDataPacket {
    type V = <RegistryDataPacketFields as DeepView>::V;

    open spec fn deep_view(&self) -> Self::V {
        (self.registry_id.deep_view(), self.entries.deep_view())
    }
}

impl McSerialize for RegistryDataPacket {
    open spec fn spec_serialize(v: Self::V) -> Seq<u8> {
        RegistryDataPacketFields::spec_serialize(v)
    }

    open spec fn spec_can_serialize(v: Self::V) -> bool {
        RegistryDataPacketFields::spec_can_serialize(v)
    }

    fn mc_serialize(&self, serializer: &mut McSerializer) -> (r: Result<(), SerializingErr>) {
        let _ = self.registry_id.mc_serialize(serializer);
        let _ = self.entries.mc_serialize(serializer);
        assert(serializer.output@ == old(serializer).output@ + Self::spec_serialize(self.deep_view()));
        Ok(())
    }
}

impl McDeserialize for RegistryDataPacket {
    open spec fn spec_deserialize(s: Seq<u8>) -> ParseResult<Self::V> {
        RegistryDataPacketFields::spec_deserialize(s)
    }

    proof fn lemma_deserialize_len(s: Seq<u8>) {
        RegistryDataPacketFields::lemma_deserialize_len(s);
    }

    fn mc_deserialize(deserializer: &mut McDeserializer) -> (r: Result<RegistryDataPacket, SerializingErr>) {
        let (registry_id, entries) = RegistryDataPacketFields::mc_deserialize(deserializer)?;
        Ok(RegistryDataPacket { registry_id, entries })
    }
}

impl McRoundTrip for RegistryDataPacket {
    open spec fn spec_well_formed(v: Self::V) -> bool {
        RegistryDataPacketFields::spec_well_formed(v)
    }

    proof fn lemma_round_trip(v: Self::V, rest: Seq<u8>) {
        RegistryDataPacketFields::lemma_round_trip(v, rest);
    }
}

/// The fields of [`RegistryEntry`] as they are sent, in order.
pub type RegistryEntryFields = (String, PrefixedOptional<NbtCompound>);

/// An entry of registry data: its id, and its data as a compound if it is sent.
#[derive(Debug, PartialEq)]
pub struct RegistryEntry {
    pub id: String,
    pub data: PrefixedOptional<NbtCompound>,
}

impl DeepView for RegistryEntry {
    type V = <RegistryEntryFields as DeepView>::V;

    open spec fn deep_view(&self) -> Self::V {
        (self.id.deep_view(), self.data.deep_view())
    }
}

impl McSerialize for RegistryEntry {
    open spec fn spec_serialize(v: Self::V) -> Seq<u8> {
        RegistryEntryFields::spec_serialize(v)
    }

    open spec fn spec_can_serialize(v: Self::V) -> bool {
        RegistryEntryFields::spec_can_serialize(v)
    }

    fn mc_serialize(&self, serializer: &mut McSerializer) -> (r: Result<(), SerializingErr>) {
        let _ = self.id.mc_serialize(serializer);
        let _ = self.data.mc_serialize(serializer);
        assert(serializer.output@ == old(serializer).output@ + Self::spec_serialize(self.deep_view()));
        Ok(())
    }
}

impl McDeserialize for RegistryEntry {
    open spec fn spec_deserialize(s: Seq<u8>) -> ParseResult<Self::V> {
        RegistryEntryFields::spec_deserialize(s)
    }

    proof fn lemma_deserialize_len(s: Seq<u8>) {
        RegistryEntryFields::lemma_deserialize_len(s);
    }

    fn mc_deserialize(deserializer: &mut McDeserializer) -> (r: Result<RegistryEntry, SerializingErr>) {
        let (id, data) = RegistryEntryFields::mc_deserialize(deserializer)?;
        Ok(RegistryEntry { id, data })
    }
}

impl McRoundTrip for RegistryEntry {
    open spec fn spec_well_formed(v: Self::V) -> bool {
        RegistryEntryFields::spec_well_formed(v)
    }

    proof fn lemma_round_trip(v: Self::V, rest: Seq<u8>) {
        RegistryEntryFields::lemma_round_trip(v, rest);
    }
}

} // verus!
