//! Entities.

use crate::protocol::serialization::serializer_types::PrefixedOptional;
use crate::protocol::serialization::{
    McDeserialize, McDeserializer, McRoundTrip, McSerialize, McSerializer, ParseResult, SerializingErr,
};
use crate::protocol_types::datatypes::game_types::Position;
use vstd::prelude::*;

verus! {

/// The fields of [`GlobalPosition`] as they are sent, in order.
pub type GlobalPositionFields = (String, Position);

/// A dimension and a position in it.
#[derive(Debug, Clone, PartialEq)]
pub struct GlobalPosition {
    pub dimension: String,
    pub position: Position,
}

impl DeepView for GlobalPosition {
    type V = <GlobalPositionFields as DeepView>::V;

    open spec fn deep_view(&self) -> Self::V {
        (self.dimension.deep_view(), self.position.deep_view())
    }
}

impl McSerialize for GlobalPosition {
    open spec fn spec_serialize(v: Self::V) -> Seq<u8> {
        GlobalPositionFields::spec_serialize(v)
    }

    open spec fn spec_can_serialize(v: Self::V) -> bool {
        GlobalPositionFields::spec_can_serialize(v)
    }

    fn mc_serialize(&self, serializer: &mut McSerializer) -> (r: Result<(), SerializingErr>) {
        let _ = self.dimension.mc_serialize(serializer);
        let _ = self.position.mc_serialize(serializer);
        assert(serializer.output@ == old(serializer).output@ + Self::spec_serialize(self.deep_view()));
        Ok(())
    }
}

impl McDeserialize for GlobalPosition {
    open spec fn spec_deserialize(s: Seq<u8>) -> ParseResult<Self::V> {
        GlobalPositionFields::spec_deserialize(s)
    }

    proof fn lemma_deserialize_len(s: Seq<u8>) {
        GlobalPositionFields::lemma_deserialize_len(s);
    }

    fn mc_deserialize(deserializer: &mut McDeserializer) -> (r: Result<GlobalPosition, SerializingErr>) {
        let (dimension, position) = GlobalPositionFields::mc_deserialize(deserializer)?;
        Ok(GlobalPosition { dimension, position })
    }
}

impl McRoundTrip for GlobalPosition {
    open spec fn spec_well_formed(v: Self::V) -> bool {
        GlobalPositionFields::spec_well_formed(v)
    }

    proof fn lemma_round_trip(v: Self::V, rest: Seq<u8>) {
        GlobalPositionFields::lemma_round_trip(v, rest);
    }
}

/// The fields of [`ProfileProperty`] as they are sent, in order.
pub type ProfilePropertyFields = (String, (String, PrefixedOptional<String>));

/// A property of a player profile, such as its skin, with its signature if it has one.
#[derive(Debug, Clone, PartialEq)]
pub struct ProfileProperty {
    pub name: String,
    pub value: String,
    pub signature: PrefixedOptional<String>,
}

impl DeepView for ProfileProperty {
    type V = <ProfilePropertyFields as DeepView>::V;

    open spec fn deep_view(&self) -> Self::V {
        (self.name.deep_view(), (self.value.deep_view(), self.signature.deep_view()))
    }
}

impl McSerialize for ProfileProperty {
    open spec fn spec_serialize(v: Self::V) -> Seq<u8> {
        ProfilePropertyFields::spec_serialize(v)
    }

    open spec fn spec_can_serialize(v: Self::V) -> bool {
        ProfilePropertyFields::spec_can_serialize(v)
    }

    fn mc_serialize(&self, serializer: &mut McSerializer) -> (r: Result<(), SerializingErr>) {
        let _ = self.name.mc_serialize(serializer);
        let _ = self.value.mc_serialize(serializer);
        let _ = self.signature.mc_serialize(serializer);
        assert(serializer.output@ == old(serializer).output@ + Self::spec_serialize(self.deep_view()));
        Ok(())
    }
}

impl McDeserialize for ProfileProperty {
    open spec fn spec_deserialize(s: Seq<u8>) -> ParseResult<Self::V> {
        ProfilePropertyFields::spec_deserialize(s)
    }

    proof fn lemma_deserialize_len(s: Seq<u8>) {
        ProfilePropertyFields::lemma_deserialize_len(s);
    }

    fn mc_deserialize(deserializer: &mut McDeserializer) -> (r: Result<ProfileProperty, SerializingErr>) {
        let (name, (value, signature)) = ProfilePropertyFields::mc_deserialize(deserializer)?;
        Ok(ProfileProperty { name, value, signature })
    }
}

impl McRoundTrip for ProfileProperty {
    open spec fn spec_well_formed(v: Self::V) -> bool {
        ProfilePropertyFields::spec_well_formed(v)
    }

    proof fn lemma_round_trip(v: Self::V, rest: Seq<u8>) {
        ProfilePropertyFields::lemma_round_trip(v, rest);
    }
}

} // verus!
