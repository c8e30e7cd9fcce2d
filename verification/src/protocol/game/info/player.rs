//! Protocol player state information.

use crate::protocol::serialization::{
    McDeserialize, McDeserializer, McRoundTrip, McSerialize, McSerializer, ParseResult,
    SerializingErr,
};
use crate::util::bitset::{spec_bitset_bit, BitSet};
use vstd::prelude::*;

verus! {

/// The kinds of update that a player info update can carry.
#[derive(Debug, Clone, Copy, PartialEq, Eq, Structural, Hash)]
pub enum PlayerInfoUpdateType {
    AddPlayer,
    InitializeChat,
    UpdateGameMode,
    UpdateListed,
    UpdateLatency,
    UpdateDisplayName,
    UpdateListPriority,
    UpdateHat,
}

impl PlayerInfoUpdateType {
    /// Which bit of its byte of actions an update kind takes: one each, in declaration order.
    pub open spec fn spec_bit_index(self) -> nat {
        match self {
            PlayerInfoUpdateType::AddPlayer => 0,
            PlayerInfoUpdateType::InitializeChat => 1,
            PlayerInfoUpdateType::UpdateGameMode => 2,
            PlayerInfoUpdateType::UpdateListed => 3,
            PlayerInfoUpdateType::UpdateLatency => 4,
            PlayerInfoUpdateType::UpdateDisplayName => 5,
            PlayerInfoUpdateType::UpdateListPriority => 6,
            PlayerInfoUpdateType::UpdateHat => 7,
        }
    }

    /// The mask of an update kind: the bit it takes.
    pub open spec fn spec_mask(self) -> u8 {
        match self {
            PlayerInfoUpdateType::AddPlayer => 0x01,
            PlayerInfoUpdateType::InitializeChat => 0x02,
            PlayerInfoUpdateType::UpdateGameMode => 0x04,
            PlayerInfoUpdateType::UpdateListed => 0x08,
            PlayerInfoUpdateType::UpdateLatency => 0x10,
            PlayerInfoUpdateType::UpdateDisplayName => 0x20,
            PlayerInfoUpdateType::UpdateListPriority => 0x40,
            PlayerInfoUpdateType::UpdateHat => 0x80,
        }
    }

    pub fn get_mask(&self) -> (m: u8)
        ensures
            m == self.spec_mask(),
            match *self {
                PlayerInfoUpdateType::AddPlayer => m == 0x01u8,
                PlayerInfoUpdateType::InitializeChat => m == 0x02u8,
                PlayerInfoUpdateType::UpdateGameMode => m == 0x04u8,
                PlayerInfoUpdateType::UpdateListed => m == 0x08u8,
                PlayerInfoUpdateType::UpdateLatency => m == 0x10u8,
                PlayerInfoUpdateType::UpdateDisplayName => m == 0x20u8,
                PlayerInfoUpdateType::UpdateListPriority => m == 0x40u8,
                PlayerInfoUpdateType::UpdateHat => m == 0x80u8,
            },
    {
        match self {
            PlayerInfoUpdateType::AddPlayer => 0x01,
            PlayerInfoUpdateType::InitializeChat => 0x02,
            PlayerInfoUpdateType::UpdateGameMode => 0x04,
            PlayerInfoUpdateType::UpdateListed => 0x08,
            PlayerInfoUpdateType::UpdateLatency => 0x10,
            PlayerInfoUpdateType::UpdateDisplayName => 0x20,
            PlayerInfoUpdateType::UpdateListPriority => 0x40,
            PlayerInfoUpdateType::UpdateHat => 0x80,
        }
    }

    /// The bit an update kind takes, counted from the least significant.
    pub fn get_bit_index(&self) -> (i: usize)
        ensures
            i == self.spec_bit_index(),
            i < 8,
            match *self {
                PlayerInfoUpdateType::AddPlayer => i == 0,
                PlayerInfoUpdateType::InitializeChat => i == 1,
                PlayerInfoUpdateType::UpdateGameMode => i == 2,
                PlayerInfoUpdateType::UpdateListed => i == 3,
                PlayerInfoUpdateType::UpdateLatency => i == 4,
                PlayerInfoUpdateType::UpdateDisplayName => i == 5,
                PlayerInfoUpdateType::UpdateListPriority => i == 6,
                PlayerInfoUpdateType::UpdateHat => i == 7,
            },
    {
        match self {
            PlayerInfoUpdateType::AddPlayer => 0,
            PlayerInfoUpdateType::InitializeChat => 1,
            PlayerInfoUpdateType::UpdateGameMode => 2,
            PlayerInfoUpdateType::UpdateListed => 3,
            PlayerInfoUpdateType::UpdateLatency => 4,
            PlayerInfoUpdateType::UpdateDisplayName => 5,
            PlayerInfoUpdateType::UpdateListPriority => 6,
            PlayerInfoUpdateType::UpdateHat => 7,
        }
    }
}

/// Each update kind's mask is the bit at its index, and distinct kinds take distinct bits.
pub proof fn lemma_update_type_bits(a: PlayerInfoUpdateType, b: PlayerInfoUpdateType)
    ensures
        a.spec_mask() == 1u8 << (a.spec_bit_index() as u8),
        a.spec_mask() == b.spec_mask() ==> a == b,
        a.spec_bit_index() == b.spec_bit_index() ==> a == b,
{
    assert(1u8 << 0u8 == 0x01u8 && 1u8 << 1u8 == 0x02u8 && 1u8 << 2u8 == 0x04u8 && 1u8 << 3u8 == 0x08u8
        && 1u8 << 4u8 == 0x10u8 && 1u8 << 5u8 == 0x20u8 && 1u8 << 6u8 == 0x40u8 && 1u8 << 7u8 == 0x80u8) by (bit_vector);
}

/// The player info actions in the order the protocol lists them: Add Player takes bit 0 (mask
/// 0x01), Initialize Chat bit 1 (0x02), Update Game Mode bit 2 (0x04), Update Listed bit 3
/// (0x08), Update Latency bit 4 (0x10), Update Display Name bit 5 (0x20), Update List Priority
/// bit 6 (0x40) and Update Hat bit 7 (0x80).
pub proof fn lemma_player_info_action_bits(t: PlayerInfoUpdateType)
    ensures
        t == PlayerInfoUpdateType::AddPlayer ==> t.spec_mask() == 0x01u8 && t.spec_bit_index() == 0,
        t == PlayerInfoUpdateType::InitializeChat ==> t.spec_mask() == 0x02u8 && t.spec_bit_index() == 1,
        t == PlayerInfoUpdateType::UpdateGameMode ==> t.spec_mask() == 0x04u8 && t.spec_bit_index() == 2,
        t == PlayerInfoUpdateType::UpdateListed ==> t.spec_mask() == 0x08u8 && t.spec_bit_index() == 3,
        t == PlayerInfoUpdateType::UpdateLatency ==> t.spec_mask() == 0x10u8 && t.spec_bit_index() == 4,
        t == PlayerInfoUpdateType::UpdateDisplayName ==> t.spec_mask() == 0x20u8 && t.spec_bit_index() == 5,
        t == PlayerInfoUpdateType::UpdateListPriority ==> t.spec_mask() == 0x40u8 && t.spec_bit_index() == 6,
        t == PlayerInfoUpdateType::UpdateHat ==> t.spec_mask() == 0x80u8 && t.spec_bit_index() == 7,
{
}

/// The update kinds a player info update carries, kept as a set of bits. The bit of a kind is
/// the number its mask is: the kind with mask 0x04 is kept at bit 4 of the set.
#[derive(Debug, Clone, PartialEq)]
pub struct PackedPlayerInfoUpdate {
    data: BitSet,
}

impl DeepView for PackedPlayerInfoUpdate {
    type V = Seq<i64>;

    closed spec fn deep_view(&self) -> Seq<i64> {
        self.data.deep_view()
    }
}

impl PackedPlayerInfoUpdate {
    /// Whether the update carries the kind whose mask is `mask`.
    pub open spec fn spec_has(self, mask: u8) -> bool {
        spec_bitset_bit(self.deep_view(), mask as nat)
    }

    /// An update that carries no kind.
    pub fn new() -> (u: Self)
        ensures
            forall|m: u8| !#[trigger] u.spec_has(m),
    {
        PackedPlayerInfoUpdate { data: BitSet::new(8) }
    }

    /// Mark the kind `update_type` as carried or not; the other kinds stay.
    pub fn set(&mut self, update_type: PlayerInfoUpdateType, set: bool) -> (r: Result<(), SerializingErr>)
        ensures
            r is Ok,
            forall|m: u8| #[trigger] final(self).spec_has(m) == if m == update_type.spec_mask() { set } else { old(self).spec_has(m) },
    {
        self.data.set_bit(update_type.get_mask() as usize, set);
        Ok(())
    }

    /// Whether the kind `update_type` is carried.
    pub fn get(&self, update_type: PlayerInfoUpdateType) -> (b: bool)
        ensures
            b == self.spec_has(update_type.spec_mask()),
    {
        self.data.get_bit(update_type.get_mask() as usize)
    }
}

impl McSerialize for PackedPlayerInfoUpdate {
    open spec fn spec_serialize(v: Seq<i64>) -> Seq<u8> {
        BitSet::spec_serialize(v)
    }

    open spec fn spec_can_serialize(v: Seq<i64>) -> bool {
        BitSet::spec_can_serialize(v)
    }

    fn mc_serialize(&self, serializer: &mut McSerializer) -> (r: Result<(), SerializingErr>) {
        self.data.mc_serialize(serializer)
    }
}

impl McDeserialize for PackedPlayerInfoUpdate {
    open spec fn spec_deserialize(s: Seq<u8>) -> ParseResult<Seq<i64>> {
        BitSet::spec_deserialize(s)
    }

    proof fn lemma_deserialize_len(s: Seq<u8>) {
        BitSet::lemma_deserialize_len(s);
    }

    fn mc_deserialize(deserializer: &mut McDeserializer) -> (r: Result<PackedPlayerInfoUpdate, SerializingErr>) {
        let data = BitSet::mc_deserialize(deserializer)?;
        Ok(PackedPlayerInfoUpdate { data })
    }
}

impl McRoundTrip for PackedPlayerInfoUpdate {
    open spec fn spec_well_formed(v: Seq<i64>) -> bool {
        BitSet::spec_well_formed(v)
    }

    proof fn lemma_round_trip(v: Seq<i64>, rest: Seq<u8>) {
        BitSet::lemma_round_trip(v, rest);
    }
}

} // verus!
