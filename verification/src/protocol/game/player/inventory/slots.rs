//! Inventory slots and the operations on them.

use crate::protocol::serialization::var_int::{
    lemma_varint_round_trip, read_varint, spec_varint_bytes, spec_varint_parse, write_varint, VarInt,
};
use crate::protocol::serialization::{
    ErrKind, McDeserialize, McDeserializer, McRoundTrip, McSerialize, McSerializer, ParseResult,
    SerializingErr,
};
use vstd::prelude::*;

verus! {

/// # Inventory Operation Mode (Packet Part)
/// Used to determine valid buttons and operations for inventory actions.
#[derive(Debug, Clone, Copy, PartialEq, Eq, Structural, Hash)]
pub enum InventoryOperationMode {
    Pickup,
    ShiftClick,
    NumberKeySwap,
    MiddleClick,
    Drop,
    Drag,
    PickupAll,
}

impl InventoryOperationMode {
    /// The number that stands for this value on the wire.
    pub open spec fn spec_code(self) -> int {
        match self {
            InventoryOperationMode::Pickup => 0,
            InventoryOperationMode::ShiftClick => 1,
            InventoryOperationMode::NumberKeySwap => 2,
            InventoryOperationMode::MiddleClick => 3,
            InventoryOperationMode::Drop => 4,
            InventoryOperationMode::Drag => 5,
            InventoryOperationMode::PickupAll => 6,
        }
    }

    /// The value that the number `code` stands for, if any.
    pub open spec fn spec_from_code(code: int) -> Option<InventoryOperationMode> {
        if code == 0 {
            Some(InventoryOperationMode::Pickup)
        } else if code == 1 {
            Some(InventoryOperationMode::ShiftClick)
        } else if code == 2 {
            Some(InventoryOperationMode::NumberKeySwap)
        } else if code == 3 {
            Some(InventoryOperationMode::MiddleClick)
        } else if code == 4 {
            Some(InventoryOperationMode::Drop)
        } else if code == 5 {
            Some(InventoryOperationMode::Drag)
        } else if code == 6 {
            Some(InventoryOperationMode::PickupAll)
        } else {
            None
        }
    }

    /// The number that stands for this value on the wire.
    pub fn code(&self) -> (c: i32)
        ensures
            c == self.spec_code(),
    {
        match self {
            InventoryOperationMode::Pickup => 0,
            InventoryOperationMode::ShiftClick => 1,
            InventoryOperationMode::NumberKeySwap => 2,
            InventoryOperationMode::MiddleClick => 3,
            InventoryOperationMode::Drop => 4,
            InventoryOperationMode::Drag => 5,
            InventoryOperationMode::PickupAll => 6,
        }
    }

    /// The value that the number `code` stands for, if any.
    pub fn from_code(code: i32) -> (r: Option<InventoryOperationMode>)
        ensures
            r == InventoryOperationMode::spec_from_code(code as int),
    {
        match code {
            0 => Some(InventoryOperationMode::Pickup),
            1 => Some(InventoryOperationMode::ShiftClick),
            2 => Some(InventoryOperationMode::NumberKeySwap),
            3 => Some(InventoryOperationMode::MiddleClick),
            4 => Some(InventoryOperationMode::Drop),
            5 => Some(InventoryOperationMode::Drag),
            6 => Some(InventoryOperationMode::PickupAll),
            _ => None,
        }
    }
}

impl DeepView for InventoryOperationMode {
    type V = InventoryOperationMode;

    open spec fn deep_view(&self) -> InventoryOperationMode {
        *self
    }
}

impl McSerialize for InventoryOperationMode {
    open spec fn spec_serialize(v: InventoryOperationMode) -> Seq<u8> {
        spec_varint_bytes(v.spec_code() as i32)
    }

    open spec fn spec_can_serialize(v: InventoryOperationMode) -> bool {
        true
    }

    fn mc_serialize(&self, serializer: &mut McSerializer) -> (r: Result<(), SerializingErr>) {
        write_varint(&mut serializer.output, self.code());
        Ok(())
    }
}

impl McDeserialize for InventoryOperationMode {
    /// The number, then the value it stands for; an unknown number is refused.
    open spec fn spec_deserialize(s: Seq<u8>) -> ParseResult<InventoryOperationMode> {
        match spec_varint_parse(s) {
            Ok((x, n)) => match InventoryOperationMode::spec_from_code(x.0 as int) {
                Some(v) => Ok((v, n)),
                None => Err(ErrKind::InvalidEnumValue(x.0 as i8)),
            },
            Err(e) => Err(e),
        }
    }

    proof fn lemma_deserialize_len(s: Seq<u8>) {
        VarInt::lemma_deserialize_len(s);
    }

    fn mc_deserialize(deserializer: &mut McDeserializer) -> (r: Result<InventoryOperationMode, SerializingErr>) {
        let code = read_varint(deserializer)?.0;
        match InventoryOperationMode::from_code(code) {
            Some(v) => Ok(v),
            None => Err(SerializingErr::InvalidEnumValue(#[verifier::truncate] (code as i8))),
        }
    }
}

impl McRoundTrip for InventoryOperationMode {
    open spec fn spec_well_formed(v: InventoryOperationMode) -> bool {
        true
    }

    proof fn lemma_round_trip(v: InventoryOperationMode, rest: Seq<u8>) {
        lemma_varint_round_trip(v.spec_code() as i32, rest);
    }
}

} // verus!
