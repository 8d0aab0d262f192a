use std::collections::{HashMap, HashSet};

use tephrite_rs::fast_io::{ByteReader, ByteWriter};
use tephrite_rs::fast_ser::{FastRead, FastWrite};
use tephrite_rs::reader::{decide, instruction_error_message, EntityMap, ReaderAction, ReaderError};
use tephrite_rs::registry::ReplicationRegistry;
use tephrite_rs::replication::{
    read_instruction, write_asset_drop, write_asset_update, write_component_add,
    write_component_remove, write_header, write_resource_drop, write_resource_update, EndFrame,
    HierarchyChange, Instruction, InstructionError, ServerInstruction, INSTRUCTION_ASSET_UPDATE,
    INSTRUCTION_RESOURCE_UPDATE,
};
use tephrite_rs::writer::{
    frame_steps, hierarchy_change, hierarchy_changes, resource_change, track_entity_and_ancestors,
    FrameStep, ResourceLook, ResourceWrite,
};

/// Stand-in for a component value: three coordinates.
type Position = (i32, i32, i32);

const TRANSFORM_TABLE: u16 = 1;

/// A render world reduced to what the reader's actions touch.
#[derive(Default)]
struct World {
    next_entity: u64,
    entities: HashSet<u64>,
    positions: HashMap<u64, Position>,
    parents: HashMap<u64, u64>,
}

fn encode_frame(write: impl FnOnce(&mut ByteWriter<'_>)) -> Vec<u8> {
    let mut bytes = vec![0; 4096];
    let mut writer = ByteWriter::new(&mut bytes);
    write(&mut writer);
    let len = writer.position();
    bytes.truncate(len);
    bytes
}

fn builtin_registry() -> ReplicationRegistry {
    let mut registry = ReplicationRegistry::new();
    registry.register_component(10, "Visibility");
    registry.register_component(11, "Transform");
    registry
}

/// Read a frame to its end, performing each action on `world`.
fn consume_test_frame(bytes: &[u8], world: &mut World, map: &mut EntityMap) {
    let registry = builtin_registry();
    let mut reader = ByteReader::new(bytes);
    loop {
        let instruction = match read_instruction(&mut reader) {
            Ok(i) => i,
            Err(e) => panic!("{}", instruction_error_message(&e)),
        };
        match decide(map, &registry, &instruction) {
            ReaderAction::ApplyComponent { local, table } => {
                assert_eq!(table, TRANSFORM_TABLE);
                let value = Position::read_fast(&mut reader);
                world.positions.insert(local, value);
            }
            ReaderAction::SkipComponent { .. } => {
                let _ = Position::read_fast(&mut reader);
            }
            ReaderAction::RemoveComponent { local, .. } => {
                world.positions.remove(&local);
            }
            ReaderAction::Spawn { foreign } => {
                world.next_entity += 1;
                let spawned = world.next_entity;
                world.entities.insert(spawned);
                map.add(foreign, spawned);
            }
            ReaderAction::SetParent { parent, child } => {
                world.parents.insert(child, parent);
            }
            ReaderAction::ClearParent { child } => {
                world.parents.remove(&child);
            }
            ReaderAction::Despawn { local } => {
                world.entities.remove(&local);
                world.positions.remove(&local);
            }
            ReaderAction::FrameEnd => return,
            ReaderAction::Fail(e) => panic!("{}", e.message()),
            _ => {}
        }
    }
}

#[test]
fn component_update_without_entity_add_does_not_create_mapping() {
    let remote = 100u64;
    let transform: Position = (1, 2, 3);
    let bytes = encode_frame(|writer| {
        write_component_add(writer, remote, 1, &transform);
        ServerInstruction::EFrame(EndFrame).write_fast(writer);
    });

    let mut world = World::default();
    let mut map = EntityMap::new();
    consume_test_frame(&bytes, &mut world, &mut map);

    assert!(map.map_opt(remote).is_none());
    assert_eq!(world.positions.len(), 0);
}

#[test]
fn entity_add_then_component_update_creates_mapped_entity() {
    let remote = 101u64;
    let transform: Position = (1, 2, 3);
    let bytes = encode_frame(|writer| {
        ServerInstruction::EAdd(remote).write_fast(writer);
        write_component_add(writer, remote, 1, &transform);
        ServerInstruction::EFrame(EndFrame).write_fast(writer);
    });

    let mut world = World::default();
    let mut map = EntityMap::new();
    consume_test_frame(&bytes, &mut world, &mut map);

    let local = map.map_opt(remote).expect("entity should be mapped");
    assert_eq!(world.positions.get(&local), Some(&transform));
}

#[test]
fn component_remove_removes_mapped_component() {
    let remote = 102u64;
    let transform: Position = (1, 2, 3);
    let bytes = encode_frame(|writer| {
        ServerInstruction::EAdd(remote).write_fast(writer);
        write_component_add(writer, remote, 1, &transform);
        write_component_remove(writer, remote, 1);
        ServerInstruction::EFrame(EndFrame).write_fast(writer);
    });

    let mut world = World::default();
    let mut map = EntityMap::new();
    consume_test_frame(&bytes, &mut world, &mut map);

    let local = map.map_opt(remote).expect("entity should stay mapped");
    assert!(world.positions.get(&local).is_none());
}

#[test]
fn entity_remove_despawns_mapped_entity_and_clears_mapping() {
    let remote = 103u64;
    let bytes = encode_frame(|writer| {
        ServerInstruction::EAdd(remote).write_fast(writer);
        ServerInstruction::ERemove(remote).write_fast(writer);
        ServerInstruction::EFrame(EndFrame).write_fast(writer);
    });

    let mut world = World::default();
    let mut map = EntityMap::new();
    consume_test_frame(&bytes, &mut world, &mut map);

    assert!(map.map_opt(remote).is_none());
    assert_eq!(world.entities.len(), 0);
}

#[test]
fn hierarchy_change_reparents_mapped_entities() {
    let parent = 104u64;
    let child = 105u64;
    let bytes = encode_frame(|writer| {
        ServerInstruction::EAdd(parent).write_fast(writer);
        ServerInstruction::EAdd(child).write_fast(writer);
        ServerInstruction::HChange(HierarchyChange {
            new_parent: Some(parent),
            child,
        })
        .write_fast(writer);
        ServerInstruction::EFrame(EndFrame).write_fast(writer);
    });

    let mut world = World::default();
    let mut map = EntityMap::new();
    consume_test_frame(&bytes, &mut world, &mut map);

    let parent_local = map.map_opt(parent).unwrap();
    let child_local = map.map_opt(child).unwrap();

    assert_eq!(world.parents.get(&child_local).copied(), Some(parent_local));
}

#[test]
fn hierarchy_change_to_none_unparents_mapped_entity() {
    let parent = 106u64;
    let child = 107u64;
    let bytes = encode_frame(|writer| {
        ServerInstruction::EAdd(parent).write_fast(writer);
        ServerInstruction::EAdd(child).write_fast(writer);
        ServerInstruction::HChange(HierarchyChange {
            new_parent: Some(parent),
            child,
        })
        .write_fast(writer);
        ServerInstruction::HChange(HierarchyChange {
            new_parent: None,
            child,
        })
        .write_fast(writer);
        ServerInstruction::EFrame(EndFrame).write_fast(writer);
    });

    let mut world = World::default();
    let mut map = EntityMap::new();
    consume_test_frame(&bytes, &mut world, &mut map);

    let child_local = map.map_opt(child).unwrap();
    assert!(world.parents.get(&child_local).is_none());
}

#[test]
#[should_panic(expected = "Failing on unknown asset table id 999")]
fn unknown_asset_update_table_panics_before_stream_misalignment() {
    let bytes = encode_frame(|writer| {
        INSTRUCTION_ASSET_UPDATE.write_fast(writer);
        999u16.write_fast(writer);
        ServerInstruction::EFrame(EndFrame).write_fast(writer);
    });

    let mut world = World::default();
    let mut map = EntityMap::new();
    consume_test_frame(&bytes, &mut world, &mut map);
}

#[test]
#[should_panic(expected = "Failing on unknown resource table id 999")]
fn unknown_resource_update_table_panics_before_stream_misalignment() {
    let bytes = encode_frame(|writer| {
        INSTRUCTION_RESOURCE_UPDATE.write_fast(writer);
        999u16.write_fast(writer);
        ServerInstruction::EFrame(EndFrame).write_fast(writer);
    });

    let mut world = World::default();
    let mut map = EntityMap::new();
    consume_test_frame(&bytes, &mut world, &mut map);
}

#[test]
fn supported_component_tracks_entity_and_ancestors_to_root() {
    let root = 1u64;
    let mid = 2u64;
    let leaf = 3u64;

    let mut mirrored = HashSet::new();
    let mut newly_mirrored = HashSet::new();

    // Entities with mirrored components, each with its ancestors up to the root.
    let candidates: Vec<Vec<u64>> = vec![vec![root], vec![mid, root], vec![leaf, mid, root]];
    for chain in &candidates {
        track_entity_and_ancestors(&mut mirrored, &mut newly_mirrored, chain);
    }

    assert!(mirrored.contains(&root));
    assert!(mirrored.contains(&mid));
    assert!(mirrored.contains(&leaf));
    assert!(newly_mirrored.contains(&root));
    assert!(newly_mirrored.contains(&mid));
    assert!(newly_mirrored.contains(&leaf));
}

#[test]
fn tracked_entity_remains_tracked_after_losing_supported_components() {
    let entity = 1u64;
    let mut mirrored = HashSet::new();
    let mut newly_mirrored = HashSet::new();
    track_entity_and_ancestors(&mut mirrored, &mut newly_mirrored, &[entity]);

    // The entity lost its mirrored component: nothing is discovered.
    newly_mirrored.clear();
    let candidates: Vec<Vec<u64>> = vec![];
    for chain in &candidates {
        track_entity_and_ancestors(&mut mirrored, &mut newly_mirrored, chain);
    }

    assert!(mirrored.contains(&entity));
    assert!(newly_mirrored.is_empty());
}

#[test]
fn retracking_reports_only_new_entities() {
    let mut mirrored: HashSet<u64> = [5u64].into_iter().collect();
    let mut newly_mirrored = HashSet::new();
    track_entity_and_ancestors(&mut mirrored, &mut newly_mirrored, &[7, 6, 5]);
    assert_eq!(mirrored.len(), 3);
    assert!(newly_mirrored.contains(&7));
    assert!(newly_mirrored.contains(&6));
    assert!(!newly_mirrored.contains(&5));
}

#[test]
fn hierarchy_change_keeps_only_mirrored_parents() {
    let mirrored: HashSet<u64> = [1u64, 2].into_iter().collect();
    let h = hierarchy_change(&mirrored, 2, 1);
    assert_eq!(h.new_parent, Some(1));
    assert_eq!(h.child, 2);
    let h = hierarchy_change(&mirrored, 2, 9);
    assert_eq!(h.new_parent, None);
}

fn read_one(bytes: &[u8]) -> (Result<Instruction, InstructionError>, usize) {
    let mut reader = ByteReader::new(bytes);
    let r = read_instruction(&mut reader);
    (r, reader.position())
}

#[test]
fn every_header_reads_back() {
    let all = vec![
        Instruction::ComponentAdd { entity: 0x0102030405060708, table: 513 },
        Instruction::ComponentRemove { entity: 77, table: 3 },
        Instruction::AssetUpdate { table: 4 },
        Instruction::AssetDrop { table: 5 },
        Instruction::AssetReserve { table: 6 },
        Instruction::ResourceUpdate { table: 7 },
        Instruction::ResourceDrop { table: 8 },
        Instruction::Hierarchy { change: HierarchyChange { new_parent: Some(9), child: 10 } },
        Instruction::Hierarchy { change: HierarchyChange { new_parent: None, child: 11 } },
        Instruction::EntityRemove { entity: 12 },
        Instruction::EndFrame,
        Instruction::EntityAdd { entity: u64::MAX },
    ];
    let lengths = [11usize, 11, 3, 3, 3, 3, 3, 18, 10, 9, 1, 9];
    for (i, expected_len) in all.iter().zip(lengths) {
        let bytes = encode_frame(|w| write_header(w, i));
        assert_eq!(bytes.len(), expected_len);
        let (r, pos) = read_one(&bytes);
        assert_eq!(r, Ok(*i));
        assert_eq!(pos, expected_len);
    }
}

#[test]
fn component_header_layout_is_opcode_entity_table() {
    let bytes = encode_frame(|w| write_component_add(w, 0x1122334455667788, 0x0102, &7u8));
    let mut expected = vec![0u8];
    expected.extend_from_slice(&0x1122334455667788u64.to_ne_bytes());
    expected.extend_from_slice(&0x0102u16.to_ne_bytes());
    expected.push(7);
    assert_eq!(bytes, expected);
}

#[test]
fn payload_writers_put_header_then_payload() {
    let bytes = encode_frame(|w| {
        write_asset_update(w, 2, &5u64, &9u8);
        write_asset_drop(w, 2, &5u64);
        write_resource_update(w, 3, &true);
        write_resource_drop(w, 3);
    });
    let mut reader = ByteReader::new(&bytes);
    assert_eq!(read_instruction(&mut reader), Ok(Instruction::AssetUpdate { table: 2 }));
    assert_eq!(u64::read_fast(&mut reader), 5);
    assert_eq!(u8::read_fast(&mut reader), 9);
    assert_eq!(read_instruction(&mut reader), Ok(Instruction::AssetDrop { table: 2 }));
    assert_eq!(u64::read_fast(&mut reader), 5);
    assert_eq!(read_instruction(&mut reader), Ok(Instruction::ResourceUpdate { table: 3 }));
    assert!(bool::read_fast(&mut reader));
    assert_eq!(read_instruction(&mut reader), Ok(Instruction::ResourceDrop { table: 3 }));
    assert_eq!(reader.remaining(), 0);
}

#[test]
fn truncated_and_unknown_instructions_are_errors() {
    assert_eq!(read_one(&[]).0, Err(InstructionError::Truncated));
    assert_eq!(read_one(&[0, 1, 2]).0, Err(InstructionError::Truncated));
    assert_eq!(read_one(&[6]).0, Err(InstructionError::Truncated));
    assert_eq!(read_one(&[6, 1, 0, 0, 0, 0, 0, 0, 0, 0]).0, Err(InstructionError::Truncated));
    assert_eq!(read_one(&[42]).0, Err(InstructionError::UnknownInstruction(42)));
}

#[test]
fn entity_add_is_idempotent() {
    let registry = builtin_registry();
    let mut map = EntityMap::new();
    let add = Instruction::EntityAdd { entity: 5 };
    assert_eq!(decide(&mut map, &registry, &add), ReaderAction::Spawn { foreign: 5 });
    assert_eq!(map.add(5, 50), 50);
    assert_eq!(decide(&mut map, &registry, &add), ReaderAction::Ignore);
    assert_eq!(map.add(5, 51), 50);
    assert_eq!(map.map_opt(5), Some(50));
    assert_eq!(map.map_remove(5), Some(50));
    assert_eq!(map.map_remove(5), None);
}

#[test]
fn unknown_component_table_fails_with_its_message() {
    let registry = builtin_registry();
    let mut map = EntityMap::new();
    let action = decide(&mut map, &registry, &Instruction::ComponentAdd { entity: 1, table: 2 });
    assert_eq!(action, ReaderAction::Fail(ReaderError::UnknownComponentTable(2)));
    assert_eq!(
        ReaderError::UnknownComponentTable(2).message(),
        "unknown component table id 2; cannot skip unsized payload"
    );
    // Removals of unknown tables and of unmapped entities are ignored.
    let action = decide(&mut map, &registry, &Instruction::ComponentRemove { entity: 1, table: 2 });
    assert_eq!(action, ReaderAction::Ignore);
}

#[test]
fn registry_assigns_ids_in_order_and_ignores_repeats() {
    let mut registry = ReplicationRegistry::new();
    registry.register_component(10, "A");
    registry.register_component(20, "B");
    registry.register_component(10, "A again");
    registry.register_asset(10, "Mesh");
    registry.register_resource(30, "Ambient");
    assert_eq!(registry.component_names(), vec!["A", "B"]);
    assert_eq!(registry.asset_names(), vec!["Mesh"]);
    assert_eq!(registry.resource_names(), vec!["Ambient"]);
    assert_eq!(registry.component(1).map(|e| e.type_key), Some(20));
    assert_eq!(registry.component(1).map(|e| e.id), Some(1));
    assert!(registry.component(2).is_none());
    assert!(registry.asset(0).is_some());
    assert!(registry.asset(1).is_none());
    assert!(registry.resource(0).is_some());
}

#[test]
fn frames_announce_entities_and_assets_before_baselines() {
    let steps = frame_steps(&[7, 8], 2, 1, 1);
    assert_eq!(
        steps,
        vec![
            FrameStep::EntityAdd { entity: 7 },
            FrameStep::EntityAdd { entity: 8 },
            FrameStep::AssetChanges { table: 0 },
            FrameStep::ResourceChange { table: 0 },
            FrameStep::ComponentBaseline { entity: 7, table: 0 },
            FrameStep::ComponentBaseline { entity: 7, table: 1 },
            FrameStep::ComponentBaseline { entity: 8, table: 0 },
            FrameStep::ComponentBaseline { entity: 8, table: 1 },
            FrameStep::ComponentChanges { table: 0 },
            FrameStep::ComponentChanges { table: 1 },
            FrameStep::HierarchyChanges,
            FrameStep::ComponentRemovals { table: 0 },
            FrameStep::ComponentRemovals { table: 1 },
            FrameStep::EntityRemovals,
            FrameStep::EndFrame,
        ]
    );
    assert_eq!(
        frame_steps(&[], 0, 0, 0),
        vec![FrameStep::HierarchyChanges, FrameStep::EntityRemovals, FrameStep::EndFrame]
    );
}

#[test]
fn hierarchy_changes_snapshot_then_reparent_then_unparent() {
    let mirrored: HashSet<u64> = [1, 2, 3, 4].into_iter().collect();
    let newly: HashSet<u64> = [3].into_iter().collect();
    let changes = hierarchy_changes(
        &mirrored,
        &newly,
        &[(3, Some(1)), (4, None)],
        &[(3, 2), (2, 9), (4, 1)],
        &[2, 7],
    );
    let hc = |p: Option<u64>, c: u64| HierarchyChange { new_parent: p, child: c };
    assert_eq!(changes, vec![hc(Some(1), 3), hc(None, 2), hc(Some(1), 4), hc(None, 2)]);
}

#[test]
fn resource_changes_update_on_change_and_drop_once() {
    assert_eq!(resource_change(false, ResourceLook::Present { changed: true }), (ResourceWrite::Update, true));
    assert_eq!(resource_change(true, ResourceLook::Present { changed: false }), (ResourceWrite::Nothing, true));
    assert_eq!(resource_change(true, ResourceLook::Absent), (ResourceWrite::Drop, false));
    assert_eq!(resource_change(false, ResourceLook::Absent), (ResourceWrite::Nothing, false));
    assert_eq!(resource_change(true, ResourceLook::Unavailable), (ResourceWrite::Nothing, true));
}
