//! Packet parts of authentication.

use crate::protocol::serialization::serializer_types::PrefixedArray;
use crate::protocol::serialization::{
    McDeserialize, McDeserializer, McRoundTrip, McSerialize, McSerializer, ParseResult, SerializingErr,
};
use vstd::prelude::*;

verus! {

/// The fields of [`PublicKeyNetwork`] as they are sent, in order.
pub type PublicKeyNetworkFields = (i64, (PrefixedArray<u8>, PrefixedArray<u8>));

/// A player's chat signing key as sent: when it expires, the key, and the signature of the key.
#[derive(Debug, Clone, PartialEq)]
pub struct PublicKeyNetwork {
    pub expires_at: i64,
    pub public_key: PrefixedArray<u8>,
    pub key_signature: PrefixedArray<u8>,
}

impl DeepView for PublicKeyNetwork {
    type V = <PublicKeyNetworkFields as DeepView>::V;

    open spec fn deep_view(&self) -> Self::V {
        (self.expires_at.deep_view(), (self.public_key.deep_view(), self.key_signature.deep_view()))
    }
}

impl McSerialize for PublicKeyNetwork {
    open spec fn spec_serialize(v: Self::V) -> Seq<u8> {
        PublicKeyNetworkFields::spec_serialize(v)
    }

    open spec fn spec_can_serialize(v: Self::V) -> bool {
        PublicKeyNetworkFields::spec_can_serialize(v)
    }

    fn mc_serialize(&self, serializer: &mut McSerializer) -> (r: Result<(), SerializingErr>) {
        let _ = self.expires_at.mc_serialize(serializer);
        let _ = self.public_key.mc_serialize(serializer);
        let _ = self.key_signature.mc_serialize(serializer);
        assert(serializer.output@ == old(serializer).output@ + Self::spec_serialize(self.deep_view()));
        Ok(())
    }
}

impl McDeserialize for PublicKeyNetwork {
    open spec fn spec_deserialize(s: Seq<u8>) -> ParseResult<Self::V> {
        PublicKeyNetworkFields::spec_deserialize(s)
    }

    proof fn lemma_deserialize_len(s: Seq<u8>) {
        PublicKeyNetworkFields::lemma_deserialize_len(s);
    }

    fn mc_deserialize(deserializer: &mut McDeserializer) -> (r: Result<PublicKeyNetwork, SerializingErr>) {
        let (expires_at, (public_key, key_signature)) = PublicKeyNetworkFields::mc_deserialize(deserializer)?;
        Ok(PublicKeyNetwork { expires_at, public_key, key_signature })
    }
}

impl McRoundTrip for PublicKeyNetwork {
    open spec fn spec_well_formed(v: Self::V) -> bool {
        PublicKeyNetworkFields::spec_well_formed(v)
    }

    proof fn lemma_round_trip(v: Self::V, rest: Seq<u8>) {
        PublicKeyNetworkFields::lemma_round_trip(v, rest);
    }
}

} // verus!
