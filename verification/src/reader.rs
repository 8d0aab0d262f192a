//! The render side of replication: what each decoded instruction does.
//!
//! Entity ids are process-local, so the reader keeps a map from the logic
//! process's entity ids (foreign) to the render process's own (local).  For
//! each instruction it decides one action; the caller performs it on its
//! world, reading the instruction's payload where the action says so.
use crate::registry::ReplicationRegistry;
use crate::replication::{HierarchyChange, Instruction, InstructionError};
use crate::text::{decimal, push_chars, push_decimal, string_from_chars};
use std::collections::HashMap;
use vstd::prelude::*;

verus! {

broadcast use vstd::std_specs::hash::group_hash_axioms;

/// Foreign entity ids mapped to local ones.
pub struct EntityMap {
    map: HashMap<u64, u64>,
}

impl View for EntityMap {
    type V = Map<u64, u64>;

    closed spec fn view(&self) -> Map<u64, u64> {
        self.map@
    }
}

/// The local entity of `foreign` in `m`, if it has one.
pub open spec fn mapped(m: Map<u64, u64>, foreign: u64) -> Option<u64> {
    if m.contains_key(foreign) {
        Some(m[foreign])
    } else {
        None
    }
}

impl EntityMap {
    pub fn new() -> (m: Self)
        ensures
            m@ == Map::<u64, u64>::empty(),
    {
        EntityMap { map: HashMap::new() }
    }

    /// The local entity of `foreign`, if it has one.
    pub fn map_opt(&self, foreign: u64) -> (r: Option<u64>)
        ensures
            r == mapped(self@, foreign),
    {
        match self.map.get(&foreign) {
            Some(local) => Some(*local),
            None => None,
        }
    }

    /// The local entity of `foreign`.  Where it has none yet, `spawned`, a
    /// fresh local entity, becomes it.
    pub fn add(&mut self, foreign: u64, spawned: u64) -> (local: u64)
        ensures
            old(self)@.contains_key(foreign) ==> local == old(self)@[foreign] && final(self)@
                == old(self)@,
            !old(self)@.contains_key(foreign) ==> local == spawned && final(self)@ == old(
                self,
            )@.insert(foreign, spawned),
    {
        match self.map.get(&foreign) {
            Some(local) => *local,
            None => {
                self.map.insert(foreign, spawned);
                spawned
            },
        }
    }

    /// Forget `foreign`, giving back the local entity that it had.
    pub fn map_remove(&mut self, foreign: u64) -> (r: Option<u64>)
        ensures
            r == mapped(old(self)@, foreign),
            final(self)@ == old(self)@.remove(foreign),
    {
        self.map.remove(&foreign)
    }
}

/// Why a frame cannot be read on.
#[derive(PartialEq, Eq, Structural, Debug, Clone, Copy)]
pub enum ReaderError {
    /// A component value names no registered component table: its payload
    /// cannot be sized.
    UnknownComponentTable(u16),
    /// An asset value names no registered asset table.
    UnknownAssetTable(u16),
    /// A resource value names no registered resource table.
    UnknownResourceTable(u16),
}

pub const UNKNOWN_COMPONENT_PREFIX: &'static str = "unknown component table id ";

pub const UNKNOWN_COMPONENT_SUFFIX: &'static str = "; cannot skip unsized payload";

pub const UNKNOWN_RESOURCE_PREFIX: &'static str = "Failing on unknown resource table id ";

pub const UNKNOWN_ASSET_PREFIX: &'static str = "Failing on unknown asset table id ";

pub const TRUNCATED_MESSAGE: &'static str = "ByteReader/ByteWriter out of bounds";

pub const UNKNOWN_INSTRUCTION_PREFIX: &'static str = "unknown transcript instruction ";

impl ReaderError {
    /// The text that a reader stopping on this error reports.
    pub open spec fn text(&self) -> Seq<char> {
        match self {
            ReaderError::UnknownComponentTable(t) => UNKNOWN_COMPONENT_PREFIX@ + decimal(*t as nat)
                + UNKNOWN_COMPONENT_SUFFIX@,
            ReaderError::UnknownAssetTable(t) => UNKNOWN_ASSET_PREFIX@ + decimal(*t as nat),
            ReaderError::UnknownResourceTable(t) => UNKNOWN_RESOURCE_PREFIX@ + decimal(*t as nat),
        }
    }

    pub fn message(&self) -> (m: String)
        ensures
            m@ == self.text(),
    {
        let mut out: Vec<char> = Vec::new();
        match self {
            ReaderError::UnknownComponentTable(t) => {
                push_chars(&mut out, UNKNOWN_COMPONENT_PREFIX);
                push_decimal(*t as u64, &mut out);
                push_chars(&mut out, UNKNOWN_COMPONENT_SUFFIX);
            },
            ReaderError::UnknownAssetTable(t) => {
                push_chars(&mut out, UNKNOWN_ASSET_PREFIX);
                push_decimal(*t as u64, &mut out);
            },
            ReaderError::UnknownResourceTable(t) => {
                push_chars(&mut out, UNKNOWN_RESOURCE_PREFIX);
                push_decimal(*t as u64, &mut out);
            },
        }
        assert(out@ =~= self.text());
        string_from_chars(out.as_slice())
    }
}

/// The text that a reader stopping on an undecodable instruction reports.
pub open spec fn instruction_error_text(e: InstructionError) -> Seq<char> {
    match e {
        InstructionError::Truncated => TRUNCATED_MESSAGE@,
        InstructionError::UnknownInstruction(op) => UNKNOWN_INSTRUCTION_PREFIX@ + decimal(op as nat),
    }
}

pub fn instruction_error_message(e: &InstructionError) -> (m: String)
    ensures
        m@ == instruction_error_text(*e),
{
    let mut out: Vec<char> = Vec::new();
    match e {
        InstructionError::Truncated => {
            push_chars(&mut out, TRUNCATED_MESSAGE);
        },
        InstructionError::UnknownInstruction(op) => {
            push_chars(&mut out, UNKNOWN_INSTRUCTION_PREFIX);
            push_decimal(*op as u64, &mut out);
        },
    }
    assert(out@ =~= instruction_error_text(*e));
    string_from_chars(out.as_slice())
}

/// What the reader does for one instruction.
#[derive(PartialEq, Eq, Structural, Debug, Clone, Copy)]
pub enum ReaderAction {
    /// Read the component payload of table `table` and put it on `local`.
    ApplyComponent { local: u64, table: u16 },
    /// Read the component payload of table `table` and discard it: its
    /// entity is not mapped, and reading keeps the stream aligned.
    SkipComponent { table: u16 },
    /// Remove the component of table `table` from `local`.
    RemoveComponent { local: u64, table: u16 },
    /// Read the resource payload of table `table` and insert it.
    ApplyResource { table: u16 },
    /// Remove the resource of table `table`.
    DropResource { table: u16 },
    /// Read an asset id and value of table `table` and store them.
    ApplyAsset { table: u16 },
    /// Read an asset id of table `table` and reserve a local asset for it.
    ReserveAsset { table: u16 },
    /// Read an asset id of table `table` and forget its local asset.
    DropAsset { table: u16 },
    /// Spawn a local entity for `foreign` and record it with `EntityMap::add`.
    Spawn { foreign: u64 },
    /// Make `parent` the parent of `child` (both local).
    SetParent { parent: u64, child: u64 },
    /// Remove the parent of `child` (local).
    ClearParent { child: u64 },
    /// Despawn `local`.
    Despawn { local: u64 },
    /// Nothing to do.
    Ignore,
    /// The frame is complete.
    FrameEnd,
    /// The frame cannot be read on.
    Fail(ReaderError),
}

/// The action for instruction `i`, given the entity map and the number of
/// registered component, asset and resource kinds.
pub open spec fn reader_action(
    m: Map<u64, u64>,
    components: nat,
    assets: nat,
    resources: nat,
    i: Instruction,
) -> ReaderAction {
    match i {
        Instruction::ComponentAdd { entity, table } => {
            if table >= components {
                ReaderAction::Fail(ReaderError::UnknownComponentTable(table))
            } else {
                match mapped(m, entity) {
                    Some(local) => ReaderAction::ApplyComponent { local, table },
                    None => ReaderAction::SkipComponent { table },
                }
            }
        },
        Instruction::ComponentRemove { entity, table } => {
            match mapped(m, entity) {
                Some(local) => if table < components {
                    ReaderAction::RemoveComponent { local, table }
                } else {
                    ReaderAction::Ignore
                },
                None => ReaderAction::Ignore,
            }
        },
        Instruction::ResourceUpdate { table } => {
            if table < resources {
                ReaderAction::ApplyResource { table }
            } else {
                ReaderAction::Fail(ReaderError::UnknownResourceTable(table))
            }
        },
        Instruction::ResourceDrop { table } => {
            if table < resources {
                ReaderAction::DropResource { table }
            } else {
                ReaderAction::Ignore
            }
        },
        Instruction::AssetUpdate { table } => {
            if table < assets {
                ReaderAction::ApplyAsset { table }
            } else {
                ReaderAction::Fail(ReaderError::UnknownAssetTable(table))
            }
        },
        Instruction::AssetReserve { table } => {
            if table < assets {
                ReaderAction::ReserveAsset { table }
            } else {
                ReaderAction::Fail(ReaderError::UnknownAssetTable(table))
            }
        },
        Instruction::AssetDrop { table } => {
            if table < assets {
                ReaderAction::DropAsset { table }
            } else {
                ReaderAction::Ignore
            }
        },
        Instruction::EntityAdd { entity } => {
            if m.contains_key(entity) {
                ReaderAction::Ignore
            } else {
                ReaderAction::Spawn { foreign: entity }
            }
        },
        Instruction::Hierarchy { change } => {
            match mapped(m, change.child) {
                None => ReaderAction::Ignore,
                Some(child) => match change.new_parent {
                    Some(parent) => match mapped(m, parent) {
                        Some(parent) => ReaderAction::SetParent { parent, child },
                        None => ReaderAction::Ignore,
                    },
                    None => ReaderAction::ClearParent { child },
                },
            }
        },
        Instruction::EndFrame => ReaderAction::FrameEnd,
        Instruction::EntityRemove { entity } => {
            match mapped(m, entity) {
                Some(local) => ReaderAction::Despawn { local },
                None => ReaderAction::Ignore,
            }
        },
    }
}

/// The entity map after deciding on `i`: removing an entity forgets it;
/// nothing else changes the map.
pub open spec fn map_after(m: Map<u64, u64>, i: Instruction) -> Map<u64, u64> {
    match i {
        Instruction::EntityRemove { entity } => m.remove(entity),
        _ => m,
    }
}

/// Decide what instruction `i` does, forgetting the entity that an
/// `EntityRemove` names.
pub fn decide(map: &mut EntityMap, registry: &ReplicationRegistry, i: &Instruction) -> (action:
    ReaderAction)
    requires
        registry.wf(),
    ensures
        action == reader_action(
            old(map)@,
            registry.component_table().len(),
            registry.asset_table().len(),
            registry.resource_table().len(),
            *i,
        ),
        final(map)@ == map_after(old(map)@, *i),
{
    match i {
        Instruction::ComponentAdd { entity, table } => {
            if registry.component(*table).is_none() {
                return ReaderAction::Fail(ReaderError::UnknownComponentTable(*table));
            }
            match map.map_opt(*entity) {
                Some(local) => ReaderAction::ApplyComponent { local, table: *table },
                None => ReaderAction::SkipComponent { table: *table },
            }
        },
        Instruction::ComponentRemove { entity, table } => {
            match map.map_opt(*entity) {
                Some(local) => if registry.component(*table).is_some() {
                    ReaderAction::RemoveComponent { local, table: *table }
                } else {
                    ReaderAction::Ignore
                },
                None => ReaderAction::Ignore,
            }
        },
        Instruction::ResourceUpdate { table } => {
            if registry.resource(*table).is_some() {
                ReaderAction::ApplyResource { table: *table }
            } else {
                ReaderAction::Fail(ReaderError::UnknownResourceTable(*table))
            }
        },
        Instruction::ResourceDrop { table } => {
            if registry.resource(*table).is_some() {
                ReaderAction::DropResource { table: *table }
            } else {
                ReaderAction::Ignore
            }
        },
        Instruction::AssetUpdate { table } => {
            if registry.asset(*table).is_some() {
                ReaderAction::ApplyAsset { table: *table }
            } else {
                ReaderAction::Fail(ReaderError::UnknownAssetTable(*table))
            }
        },
        Instruction::AssetReserve { table } => {
            if registry.asset(*table).is_some() {
                ReaderAction::ReserveAsset { table: *table }
            } else {
                ReaderAction::Fail(ReaderError::UnknownAssetTable(*table))
            }
        },
        Instruction::AssetDrop { table } => {
            if registry.asset(*table).is_some() {
                ReaderAction::DropAsset { table: *table }
            } else {
                ReaderAction::Ignore
            }
        },
        Instruction::EntityAdd { entity } => {
            match map.map_opt(*entity) {
                Some(_) => ReaderAction::Ignore,
                None => ReaderAction::Spawn { foreign: *entity },
            }
        },
        Instruction::Hierarchy { change } => {
            match map.map_opt(change.child) {
                None => ReaderAction::Ignore,
                Some(child) => match change.new_parent {
                    Some(parent) => match map.map_opt(parent) {
                        Some(parent) => ReaderAction::SetParent { parent, child },
                        None => ReaderAction::Ignore,
                    },
                    None => ReaderAction::ClearParent { child },
                },
            }
        },
        Instruction::EndFrame => ReaderAction::FrameEnd,
        Instruction::EntityRemove { entity } => {
            match map.map_remove(*entity) {
                Some(local) => ReaderAction::Despawn { local },
                None => ReaderAction::Ignore,
            }
        },
    }
}

/// Only `EntityAdd` creates a mapping, and only for an unmapped entity:
/// no other instruction asks for a spawn, and deciding never adds to the
/// map.  (A component value for an unknown entity does not spawn it.)
pub proof fn lemma_only_entity_add_spawns(
    m: Map<u64, u64>,
    components: nat,
    assets: nat,
    resources: nat,
    i: Instruction,
    foreign: u64,
)
    ensures
        reader_action(m, components, assets, resources, i) == (ReaderAction::Spawn { foreign })
            <==> i == (Instruction::EntityAdd { entity: foreign }) && !m.contains_key(foreign),
        map_after(m, i).submap_of(m),
{
}

/// A component value for an unmapped entity of a known table is read and
/// discarded, never applied, so the stream stays aligned.
pub proof fn lemma_unmapped_component_is_skipped(
    m: Map<u64, u64>,
    components: nat,
    assets: nat,
    resources: nat,
    entity: u64,
    table: u16,
)
    requires
        !m.contains_key(entity),
        table < components,
    ensures
        reader_action(m, components, assets, resources, Instruction::ComponentAdd { entity, table })
            == (ReaderAction::SkipComponent { table }),
{
}

/// Removing an entity despawns its local entity, if it had one, and leaves
/// it unmapped.
pub proof fn lemma_entity_remove_clears_mapping(
    m: Map<u64, u64>,
    components: nat,
    assets: nat,
    resources: nat,
    entity: u64,
)
    ensures
        !map_after(m, Instruction::EntityRemove { entity }).contains_key(entity),
        m.contains_key(entity) ==> reader_action(
            m,
            components,
            assets,
            resources,
            Instruction::EntityRemove { entity },
        ) == (ReaderAction::Despawn { local: m[entity] }),
{
}

/// Values of unknown asset or resource tables stop the frame before the
/// stream can lose its alignment.
pub proof fn lemma_unknown_tables_fail(
    m: Map<u64, u64>,
    components: nat,
    assets: nat,
    resources: nat,
    table: u16,
)
    ensures
        table >= assets ==> reader_action(
            m,
            components,
            assets,
            resources,
            Instruction::AssetUpdate { table },
        ) == ReaderAction::Fail(ReaderError::UnknownAssetTable(table)),
        table >= resources ==> reader_action(
            m,
            components,
            assets,
            resources,
            Instruction::ResourceUpdate { table },
        ) == ReaderAction::Fail(ReaderError::UnknownResourceTable(table)),
        table >= components ==> forall|entity: u64|
            #[trigger] reader_action(
                m,
                components,
                assets,
                resources,
                Instruction::ComponentAdd { entity, table },
            ) == ReaderAction::Fail(ReaderError::UnknownComponentTable(table)),
{
}

/// Values and removals of registered tables are applied, never ignored:
/// for a registered resource table, a value is applied and a removal drops
/// the resource; for a registered asset table, a value is applied, a
/// reservation reserves and a removal drops the asset.  What the entity map
/// holds does not matter.
pub proof fn lemma_known_tables_apply(
    m: Map<u64, u64>,
    components: nat,
    assets: nat,
    resources: nat,
    table: u16,
)
    ensures
        table < resources ==> reader_action(
            m,
            components,
            assets,
            resources,
            Instruction::ResourceUpdate { table },
        ) == (ReaderAction::ApplyResource { table }),
        table < resources ==> reader_action(
            m,
            components,
            assets,
            resources,
            Instruction::ResourceDrop { table },
        ) == (ReaderAction::DropResource { table }),
        table < assets ==> reader_action(
            m,
            components,
            assets,
            resources,
            Instruction::AssetUpdate { table },
        ) == (ReaderAction::ApplyAsset { table }),
        table < assets ==> reader_action(
            m,
            components,
            assets,
            resources,
            Instruction::AssetReserve { table },
        ) == (ReaderAction::ReserveAsset { table }),
        table < assets ==> reader_action(
            m,
            components,
            assets,
            resources,
            Instruction::AssetDrop { table },
        ) == (ReaderAction::DropAsset { table }),
{
}

} // verus!
