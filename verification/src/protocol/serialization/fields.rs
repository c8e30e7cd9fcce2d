//! Two values sent one after the other. A record is sent as its fields in order, so the encoding
//! of a record is that of its fields nested in pairs: `(a, (b, c))` for fields `a`, `b`, `c`.

use crate::protocol::serialization::{
    deserialized, lemma_remaining_advance, ErrKind, McDeserialize, McDeserializer, McRoundTrip,
    McSerialize, McSerializer, ParseResult, SerializingErr,
};
use vstd::prelude::*;

verus! {

impl<A: McSerialize, B: McSerialize> McSerialize for (A, B) {
    open spec fn spec_serialize(v: (A::V, B::V)) -> Seq<u8> {
        A::spec_serialize(v.0) + B::spec_serialize(v.1)
    }

    open spec fn spec_can_serialize(v: (A::V, B::V)) -> bool {
        A::spec_can_serialize(v.0) && B::spec_can_serialize(v.1)
    }

    fn mc_serialize(&self, serializer: &mut McSerializer) -> (r: Result<(), SerializingErr>) {
        let _ = self.0.mc_serialize(serializer);
        let _ = self.1.mc_serialize(serializer);
        assert(serializer.output@ == old(serializer).output@ + Self::spec_serialize(self.deep_view()));
        Ok(())
    }
}

/// The parse of two values, one after the other.
pub open spec fn spec_pair_parse<A: McDeserialize, B: McDeserialize>(s: Seq<u8>) -> ParseResult<(A::V, B::V)> {
    match A::spec_deserialize(s) {
        Ok((a, n)) => match B::spec_deserialize(s.skip(n as int)) {
            Ok((b, m)) => Ok(((a, b), n + m)),
            Err(e) => Err(e),
        },
        Err(e) => Err(e),
    }
}

impl<A: McDeserialize, B: McDeserialize> McDeserialize for (A, B) {
    open spec fn spec_deserialize(s: Seq<u8>) -> ParseResult<(A::V, B::V)> {
        spec_pair_parse::<A, B>(s)
    }

    proof fn lemma_deserialize_len(s: Seq<u8>) {
        A::lemma_deserialize_len(s);
        if let Ok((a, n)) = A::spec_deserialize(s) {
            B::lemma_deserialize_len(s.skip(n as int));
        }
    }

    fn mc_deserialize(deserializer: &mut McDeserializer) -> (r: Result<(A, B), SerializingErr>) {
        let ghost d0 = *deserializer;
        let a = A::mc_deserialize(deserializer)?;
        proof {
            A::lemma_deserialize_len(d0.remaining());
            lemma_remaining_advance(d0, *deserializer, (deserializer.index - d0.index) as nat);
        }
        let b = B::mc_deserialize(deserializer)?;
        Ok((a, b))
    }
}

impl<A: McRoundTrip, B: McRoundTrip> McRoundTrip for (A, B) {
    open spec fn spec_well_formed(v: (A::V, B::V)) -> bool {
        A::spec_well_formed(v.0) && B::spec_well_formed(v.1)
    }

    proof fn lemma_round_trip(v: (A::V, B::V), rest: Seq<u8>) {
        let ab = A::spec_serialize(v.0);
        let bb = B::spec_serialize(v.1);
        let s = Self::spec_serialize(v) + rest;
        assert(s == ab + (bb + rest));
        A::lemma_round_trip(v.0, bb + rest);
        assert(s.skip(ab.len() as int) == bb + rest);
        B::lemma_round_trip(v.1, rest);
    }
}

} // verus!
