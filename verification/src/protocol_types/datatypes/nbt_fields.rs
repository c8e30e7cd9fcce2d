//! Reading and writing the fields of a record as the entries of an NBT compound.

use crate::protocol_types::datatypes::nbt::{
    spec_find_name, spec_lookup, NbtCompound, NbtTag, NbtValue, tag_model,
};
use vstd::prelude::*;

verus! {

/// The text of the entry `name`, if it is there and is a string.
pub open spec fn dec_str(es: Seq<(Seq<char>, NbtValue)>, name: Seq<char>) -> Option<Seq<char>> {
    match spec_lookup(es, name) {
        Some(NbtValue::Str(s)) => Some(s),
        _ => None,
    }
}

/// The byte of the entry `name`, if it is there and is a byte.
pub open spec fn dec_i8(es: Seq<(Seq<char>, NbtValue)>, name: Seq<char>) -> Option<i8> {
    match spec_lookup(es, name) {
        Some(NbtValue::Byte(x)) => Some(x),
        _ => None,
    }
}

/// The flag of the entry `name`, if it is there and is a byte: any byte but 0 is true.
pub open spec fn dec_bool(es: Seq<(Seq<char>, NbtValue)>, name: Seq<char>) -> Option<bool> {
    match spec_lookup(es, name) {
        Some(NbtValue::Byte(x)) => Some(x != 0),
        _ => None,
    }
}

/// The integer of the entry `name`, if it is there and is an int.
pub open spec fn dec_i32(es: Seq<(Seq<char>, NbtValue)>, name: Seq<char>) -> Option<i32> {
    match spec_lookup(es, name) {
        Some(NbtValue::Int(x)) => Some(x),
        _ => None,
    }
}

/// The integer of the entry `name`, if it is there and is a long.
pub open spec fn dec_i64(es: Seq<(Seq<char>, NbtValue)>, name: Seq<char>) -> Option<i64> {
    match spec_lookup(es, name) {
        Some(NbtValue::Long(x)) => Some(x),
        _ => None,
    }
}

/// The bits of the entry `name`, if it is there and is a float.
pub open spec fn dec_f32(es: Seq<(Seq<char>, NbtValue)>, name: Seq<char>) -> Option<u32> {
    match spec_lookup(es, name) {
        Some(NbtValue::Float(x)) => Some(x),
        _ => None,
    }
}

/// The bits of the entry `name`, if it is there and is a double.
pub open spec fn dec_f64(es: Seq<(Seq<char>, NbtValue)>, name: Seq<char>) -> Option<u64> {
    match spec_lookup(es, name) {
        Some(NbtValue::Double(x)) => Some(x),
        _ => None,
    }
}

/// An optional text: none when the entry `name` is absent, the text when it is a string, and a
/// failure when it is anything else.
pub open spec fn dec_opt_str(es: Seq<(Seq<char>, NbtValue)>, name: Seq<char>) -> Option<Option<Seq<char>>> {
    match spec_lookup(es, name) {
        None => Some(None),
        Some(NbtValue::Str(s)) => Some(Some(s)),
        _ => None,
    }
}

/// An optional long: none when the entry `name` is absent, the integer when it is a long, and a
/// failure when it is anything else.
pub open spec fn dec_opt_i64(es: Seq<(Seq<char>, NbtValue)>, name: Seq<char>) -> Option<Option<i64>> {
    match spec_lookup(es, name) {
        None => Some(None),
        Some(NbtValue::Long(x)) => Some(Some(x)),
        _ => None,
    }
}

pub fn get_str(nbt: &NbtCompound, name: &String) -> (r: Option<String>)
    ensures
        r.deep_view() == dec_str(nbt.deep_view().1, name@),
{
    match nbt.get(name) {
        Some(NbtTag::Str(s)) => Some(s.clone()),
        _ => None,
    }
}

pub fn get_i8(nbt: &NbtCompound, name: &String) -> (r: Option<i8>)
    ensures
        r == dec_i8(nbt.deep_view().1, name@),
{
    match nbt.get(name) {
        Some(NbtTag::Byte(x)) => Some(*x),
        _ => None,
    }
}

pub fn get_bool(nbt: &NbtCompound, name: &String) -> (r: Option<bool>)
    ensures
        r == dec_bool(nbt.deep_view().1, name@),
{
    match nbt.get(name) {
        Some(NbtTag::Byte(x)) => Some(*x != 0),
        _ => None,
    }
}

pub fn get_i32(nbt: &NbtCompound, name: &String) -> (r: Option<i32>)
    ensures
        r == dec_i32(nbt.deep_view().1, name@),
{
    match nbt.get(name) {
        Some(NbtTag::Int(x)) => Some(*x),
        _ => None,
    }
}

pub fn get_i64(nbt: &NbtCompound, name: &String) -> (r: Option<i64>)
    ensures
        r == dec_i64(nbt.deep_view().1, name@),
{
    match nbt.get(name) {
        Some(NbtTag::Long(x)) => Some(*x),
        _ => None,
    }
}

pub fn get_f32(nbt: &NbtCompound, name: &String) -> (r: Option<u32>)
    ensures
        r == dec_f32(nbt.deep_view().1, name@),
{
    match nbt.get(name) {
        Some(NbtTag::Float(x)) => Some(*x),
        _ => None,
    }
}

pub fn get_f64(nbt: &NbtCompound, name: &String) -> (r: Option<u64>)
    ensures
        r == dec_f64(nbt.deep_view().1, name@),
{
    match nbt.get(name) {
        Some(NbtTag::Double(x)) => Some(*x),
        _ => None,
    }
}

pub fn get_opt_str(nbt: &NbtCompound, name: &String) -> (r: Option<Option<String>>)
    ensures
        r.deep_view() == dec_opt_str(nbt.deep_view().1, name@),
{
    match nbt.get(name) {
        None => Some(None),
        Some(NbtTag::Str(s)) => Some(Some(s.clone())),
        _ => None,
    }
}

pub fn get_opt_i64(nbt: &NbtCompound, name: &String) -> (r: Option<Option<i64>>)
    ensures
        r == dec_opt_i64(nbt.deep_view().1, name@),
{
    match nbt.get(name) {
        None => Some(None),
        Some(NbtTag::Long(x)) => Some(Some(*x)),
        _ => None,
    }
}

} // verus!
