//! The registry data a server sends during configuration so that a client can log in: one
//! registry data packet per registry the client needs, each holding the registry's default entry.

use crate::protocol::game::info::registry::{
    spec_registry_data_wf, spec_registry_entry_wf, spec_registry_name, RegistryDataPacketInternal, RegistryEntry, RegistryModel, RegistryType,
    spec_default_cat_variant, spec_default_chicken_variant, spec_default_cow_variant, spec_default_dimension_type, spec_default_frog_variant, spec_default_painting_variant, spec_default_pig_variant, spec_default_wolf_sound_variant, spec_default_wolf_variant, spec_default_biome,
    Biome, CatVariant, ChickenVariant, CowVariant, DimensionType, FrogVariant, PaintingVariant, PigVariant, WolfSoundVariant, WolfVariant,
};
use crate::protocol::packets::{Packet, PacketModel, RegistryDataPacket};
use crate::protocol::serialization::var_int::VarInt;
use vstd::prelude::*;

verus! {

/// The registry data of one registry holding one entry, present, with the value `m`.
pub open spec fn spec_single_entry_registry(registry_id: Seq<char>, entry_id: Seq<char>, m: RegistryModel)
    -> <RegistryDataPacketInternal as DeepView>::V {
    (registry_id, (VarInt(1), seq![(entry_id, (true, Some(m)))]))
}

/// The registry data sent at login: for each registry, its name, and its default entry under the
/// name it is known by.
pub open spec fn spec_default_registry_data() -> Seq<<RegistryDataPacketInternal as DeepView>::V> {
    seq![
        spec_single_entry_registry("minecraft:cat_variant"@, "minecraft:black"@, RegistryModel::CatVariant(spec_default_cat_variant())),
        spec_single_entry_registry("minecraft:chicken_variant"@, "minecraft:warm"@, RegistryModel::ChickenVariant(spec_default_chicken_variant())),
        spec_single_entry_registry("minecraft:cow_variant"@, "minecraft:warm"@, RegistryModel::CowVariant(spec_default_cow_variant())),
        spec_single_entry_registry("minecraft:dimension_type"@, "minecraft:overworld"@, RegistryModel::DimensionType(spec_default_dimension_type())),
        spec_single_entry_registry("minecraft:frog_variant"@, "minecraft:warm"@, RegistryModel::FrogVariant(spec_default_frog_variant())),
        spec_single_entry_registry("minecraft:painting_variant"@, "minecraft:alban"@, RegistryModel::PaintingVariant(spec_default_painting_variant())),
        spec_single_entry_registry("minecraft:pig_variant"@, "minecraft:warm"@, RegistryModel::PigVariant(spec_default_pig_variant())),
        spec_single_entry_registry("minecraft:wolf_sound_variant"@, "minecraft:classic"@, RegistryModel::WolfSoundVariant(spec_default_wolf_sound_variant())),
        spec_single_entry_registry("minecraft:wolf_variant"@, "minecraft:woods"@, RegistryModel::WolfVariant(spec_default_wolf_variant())),
        spec_single_entry_registry("minecraft:worldgen/biome"@, "minecraft:plains"@, RegistryModel::Biome(spec_default_biome())),
    ]
}

/// One registry data packet holding one entry.
fn single_entry_registry(registry_id: String, entry_id: String, data: RegistryType) -> (p: Packet)
    ensures
        p.deep_view() == PacketModel::RegistryData(spec_single_entry_registry(registry_id@, entry_id@, data.deep_view())),
{
    let ghost want = spec_single_entry_registry(registry_id@, entry_id@, data.deep_view());
    let entry = RegistryEntry::new(entry_id, Some(data));
    let ghost ev = entry.deep_view();
    let mut entries: Vec<RegistryEntry> = Vec::new();
    entries.push(entry);
    assert(entries.deep_view() =~= seq![ev]);
    let internal = RegistryDataPacketInternal { registry_id, num_entries: VarInt(1), entries };
    assert(internal.deep_view() == want);
    let body = RegistryDataPacket::new(internal);
    assert(body.deep_view() == want);
    let p = Packet::RegistryData(body);
    p
}

/// Generate the bare minimum registry packets needed for a successful login, in the order they are
/// sent during the registry data phase of the login sequence.
pub fn default() -> (r: Vec<Packet>)
    ensures
        r@.len() == spec_default_registry_data().len(),
        forall|k: int| 0 <= k < r@.len() ==> #[trigger] r@[k].deep_view() == PacketModel::RegistryData(spec_default_registry_data()[k]),
{
    let mut r: Vec<Packet> = Vec::new();
    r.push(single_entry_registry("minecraft:cat_variant".to_owned(), "minecraft:black".to_owned(), RegistryType::CatVariant(CatVariant::default())));
    r.push(single_entry_registry("minecraft:chicken_variant".to_owned(), "minecraft:warm".to_owned(), RegistryType::ChickenVariant(ChickenVariant::default())));
    r.push(single_entry_registry("minecraft:cow_variant".to_owned(), "minecraft:warm".to_owned(), RegistryType::CowVariant(CowVariant::default())));
    r.push(single_entry_registry("minecraft:dimension_type".to_owned(), "minecraft:overworld".to_owned(), RegistryType::DimensionType(DimensionType::default())));
    r.push(single_entry_registry("minecraft:frog_variant".to_owned(), "minecraft:warm".to_owned(), RegistryType::FrogVariant(FrogVariant::default())));
    r.push(single_entry_registry("minecraft:painting_variant".to_owned(), "minecraft:alban".to_owned(), RegistryType::PaintingVariant(PaintingVariant::default())));
    r.push(single_entry_registry("minecraft:pig_variant".to_owned(), "minecraft:warm".to_owned(), RegistryType::PigVariant(PigVariant::default())));
    r.push(single_entry_registry("minecraft:wolf_sound_variant".to_owned(), "minecraft:classic".to_owned(), RegistryType::WolfSoundVariant(WolfSoundVariant::default())));
    r.push(single_entry_registry("minecraft:wolf_variant".to_owned(), "minecraft:woods".to_owned(), RegistryType::WolfVariant(WolfVariant::default())));
    r.push(single_entry_registry("minecraft:worldgen/biome".to_owned(), "minecraft:plains".to_owned(), RegistryType::Biome(Biome::default())));
    assert(r@.len() == spec_default_registry_data().len());
    r
}

/// Each registry sent at login holds as many entries as it says, each belonging to the registry,
/// so that it reads back as it was written.
pub proof fn lemma_default_registry_data_wf()
    ensures
        forall|k: int| 0 <= k < spec_default_registry_data().len() ==> spec_registry_data_wf(#[trigger] spec_default_registry_data()[k]),
{
    assert forall|k: int| 0 <= k < spec_default_registry_data().len() implies spec_registry_data_wf(#[trigger] spec_default_registry_data()[k]) by {
        let v = spec_default_registry_data()[k];
        assert(v.1.1.len() == 1);
        assert(spec_registry_entry_wf(v.1.1[0], v.0));
    }
}

} // verus!
