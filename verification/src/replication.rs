//! The replication protocol: the instructions that mirror logic-world
//! changes into the render world, their encoding and decoding.
//!
//! Every instruction starts with a one-byte opcode.  Its fixed header
//! (entity bits, table id, hierarchy change) follows; a typed payload, which
//! only the table's own reader can size, may come after the header.
use crate::fast_io::{ByteReader,
    fits, lemma_primitive_bytes, lemma_wrote_twice, read_u16, read_u64, rest, splice, took,
    u16_bytes, u64_bytes, u8_bytes, wrote, ByteSink, ByteSource,
};
use crate::fast_ser::{FastRead, FastWrite};
use vstd::prelude::*;

verus! {

pub const INSTRUCTION_COMPONENT_ADD: u8 = 0;

pub const INSTRUCTION_COMPONENT_REMOVE: u8 = 1;

pub const INSTRUCTION_ASSET_UPDATE: u8 = 2;

pub const INSTRUCTION_ASSET_DROP: u8 = 3;

pub const INSTRUCTION_RESOURCE_UPDATE: u8 = 4;

pub const INSTRUCTION_RESOURCE_DROP: u8 = 5;

pub const INSTRUCTION_HIERARCHY_CHANGE: u8 = 6;

pub const INSTRUCTION_ENTITY_REMOVE: u8 = 7;

pub const INSTRUCTION_END_FRAME: u8 = 8;

pub const INSTRUCTION_ENTITY_ADD: u8 = 9;

/// An asset whose id is announced before its value is available.
pub const INSTRUCTION_ASSET_RESERVE: u8 = 10;

// MARK: Unit instructions

/// An instruction to stop parsing instructions for this frame.
///
/// It must be the final instruction of a frame: a reader stops only there.
pub struct EndFrame;

impl FastWrite for EndFrame {
    open spec fn fast_bytes(&self) -> Seq<u8> {
        seq![]
    }

    fn write_fast<W: ByteSink>(&self, w: &mut W) {
        assert(splice(w.sink_buffer(), w.sink_pos() as int, seq![]) =~= w.sink_buffer());
    }
}

impl FastRead for EndFrame {
    type Value = EndFrame;

    open spec fn fast_value(&self) -> EndFrame {
        *self
    }

    open spec fn fast_readable(b: Seq<u8>) -> bool {
        true
    }

    open spec fn fast_read_len(b: Seq<u8>) -> nat {
        0
    }

    open spec fn fast_reads(b: Seq<u8>, v: Self) -> bool {
        true
    }

    fn read_fast<'a, S: ByteSource<'a>>(r: &mut S) -> (v: Self) {
        EndFrame
    }

    proof fn lemma_read_bounded(b: Seq<u8>) {
    }

    proof fn lemma_roundtrip(v: Self, tail: Seq<u8>) {
    }
}

/// An instruction to halt and shut down.
pub struct Halt;

impl FastWrite for Halt {
    open spec fn fast_bytes(&self) -> Seq<u8> {
        seq![]
    }

    fn write_fast<W: ByteSink>(&self, w: &mut W) {
        assert(splice(w.sink_buffer(), w.sink_pos() as int, seq![]) =~= w.sink_buffer());
    }
}

impl FastRead for Halt {
    type Value = Halt;

    open spec fn fast_value(&self) -> Halt {
        *self
    }

    open spec fn fast_readable(b: Seq<u8>) -> bool {
        true
    }

    open spec fn fast_read_len(b: Seq<u8>) -> nat {
        0
    }

    open spec fn fast_reads(b: Seq<u8>, v: Self) -> bool {
        true
    }

    fn read_fast<'a, S: ByteSource<'a>>(r: &mut S) -> (v: Self) {
        Halt
    }

    proof fn lemma_read_bounded(b: Seq<u8>) {
    }

    proof fn lemma_roundtrip(v: Self, tail: Seq<u8>) {
    }
}

// MARK: Hierarchy changes

/// An instruction to change the parent of an entity (`None`: no parent).
///
/// Entities are named by the bits of their logic-world id.
#[derive(PartialEq, Eq, Structural, Debug, Clone, Copy)]
pub struct HierarchyChange {
    pub new_parent: Option<u64>,
    pub child: u64,
}

impl FastWrite for HierarchyChange {
    open spec fn fast_bytes(&self) -> Seq<u8> {
        self.new_parent.fast_bytes() + self.child.fast_bytes()
    }

    fn write_fast<W: ByteSink>(&self, w: &mut W) {
        proof {
            lemma_primitive_bytes();
        }
        self.new_parent.write_fast(w);
        let ghost b1 = w.sink_buffer();
        let ghost p1 = w.sink_pos();
        self.child.write_fast(w);
        proof {
            lemma_wrote_twice(
                old(w).sink_buffer(),
                old(w).sink_pos(),
                b1,
                p1,
                w.sink_buffer(),
                w.sink_pos(),
                self.new_parent.fast_bytes(),
                self.child.fast_bytes(),
            );
        }
    }
}

impl FastRead for HierarchyChange {
    type Value = HierarchyChange;

    open spec fn fast_value(&self) -> HierarchyChange {
        *self
    }

    open spec fn fast_readable(b: Seq<u8>) -> bool {
        &&& Option::<u64>::fast_readable(b)
        &&& u64::fast_readable(b.skip(Option::<u64>::fast_read_len(b) as int))
    }

    open spec fn fast_read_len(b: Seq<u8>) -> nat {
        Option::<u64>::fast_read_len(b) + 8
    }

    open spec fn fast_reads(b: Seq<u8>, v: Self) -> bool {
        &&& Option::<u64>::fast_reads(b, v.new_parent)
        &&& u64::fast_reads(b.skip(Option::<u64>::fast_read_len(b) as int), v.child)
    }

    fn read_fast<'a, S: ByteSource<'a>>(r: &mut S) -> (v: Self) {
        let ghost b = rest(r.source_buffer(), r.source_pos());
        proof {
            Option::<u64>::lemma_read_bounded(b);
        }
        let new_parent = Option::<u64>::read_fast(r);
        assert(rest(r.source_buffer(), r.source_pos()) =~= b.skip(
            Option::<u64>::fast_read_len(b) as int,
        ));
        let child = u64::read_fast(r);
        HierarchyChange { new_parent, child }
    }

    proof fn lemma_read_bounded(b: Seq<u8>) {
        Option::<u64>::lemma_read_bounded(b);
    }

    proof fn lemma_roundtrip(v: Self, tail: Seq<u8>) {
        lemma_primitive_bytes();
        let b = v.fast_bytes() + tail;
        assert(b =~= v.new_parent.fast_bytes() + (v.child.fast_bytes() + tail));
        Option::<u64>::lemma_roundtrip(v.new_parent, v.child.fast_bytes() + tail);
        assert(b.skip(v.new_parent.fast_bytes().len() as int) =~= v.child.fast_bytes() + tail);
        u64::lemma_roundtrip(v.child, tail);
    }
}

// MARK: Instruction headers

/// An instruction as the reader sees it: its opcode and fixed header.
///
/// Table ids are local to their kind: component table 1 and asset table 1
/// are unrelated.
#[derive(PartialEq, Eq, Structural, Debug, Clone, Copy)]
pub enum Instruction {
    ComponentAdd { entity: u64, table: u16 },
    ComponentRemove { entity: u64, table: u16 },
    AssetUpdate { table: u16 },
    AssetDrop { table: u16 },
    AssetReserve { table: u16 },
    ResourceUpdate { table: u16 },
    ResourceDrop { table: u16 },
    Hierarchy { change: HierarchyChange },
    EntityRemove { entity: u64 },
    EndFrame,
    EntityAdd { entity: u64 },
}

/// The bytes of an instruction's opcode and fixed header.
pub open spec fn header_bytes(i: Instruction) -> Seq<u8> {
    match i {
        Instruction::ComponentAdd { entity, table } => u8_bytes(INSTRUCTION_COMPONENT_ADD)
            + u64_bytes(entity) + u16_bytes(table),
        Instruction::ComponentRemove { entity, table } => u8_bytes(INSTRUCTION_COMPONENT_REMOVE)
            + u64_bytes(entity) + u16_bytes(table),
        Instruction::AssetUpdate { table } => u8_bytes(INSTRUCTION_ASSET_UPDATE) + u16_bytes(table),
        Instruction::AssetDrop { table } => u8_bytes(INSTRUCTION_ASSET_DROP) + u16_bytes(table),
        Instruction::AssetReserve { table } => u8_bytes(INSTRUCTION_ASSET_RESERVE) + u16_bytes(
            table,
        ),
        Instruction::ResourceUpdate { table } => u8_bytes(INSTRUCTION_RESOURCE_UPDATE) + u16_bytes(
            table,
        ),
        Instruction::ResourceDrop { table } => u8_bytes(INSTRUCTION_RESOURCE_DROP) + u16_bytes(
            table,
        ),
        Instruction::Hierarchy { change } => u8_bytes(INSTRUCTION_HIERARCHY_CHANGE)
            + change.fast_bytes(),
        Instruction::EntityRemove { entity } => u8_bytes(INSTRUCTION_ENTITY_REMOVE) + u64_bytes(
            entity,
        ),
        Instruction::EndFrame => u8_bytes(INSTRUCTION_END_FRAME),
        Instruction::EntityAdd { entity } => u8_bytes(INSTRUCTION_ENTITY_ADD) + u64_bytes(entity),
    }
}

/// How many bytes an instruction's opcode and fixed header take.
pub fn header_len(i: &Instruction) -> (n: usize)
    ensures
        n == header_bytes(*i).len(),
{
    proof {
        lemma_primitive_bytes();
    }
    match i {
        Instruction::ComponentAdd { .. } => 11,
        Instruction::ComponentRemove { .. } => 11,
        Instruction::AssetUpdate { .. } => 3,
        Instruction::AssetDrop { .. } => 3,
        Instruction::AssetReserve { .. } => 3,
        Instruction::ResourceUpdate { .. } => 3,
        Instruction::ResourceDrop { .. } => 3,
        Instruction::Hierarchy { change } => match change.new_parent {
            Some(_) => 18,
            None => 10,
        },
        Instruction::EntityRemove { .. } => 9,
        Instruction::EndFrame => 1,
        Instruction::EntityAdd { .. } => 9,
    }
}

/// Write an instruction's opcode and fixed header.
pub fn write_header<W: ByteSink>(w: &mut W, i: &Instruction)
    requires
        fits(old(w).sink_buffer(), old(w).sink_pos(), header_bytes(*i).len()),
    ensures
        wrote(
            old(w).sink_buffer(),
            old(w).sink_pos(),
            final(w).sink_buffer(),
            final(w).sink_pos(),
            header_bytes(*i),
        ),
{
    proof {
        lemma_primitive_bytes();
    }
    match i {
        Instruction::ComponentAdd { entity, table } => {
            (INSTRUCTION_COMPONENT_ADD, *entity, *table).write_fast(w);
        },
        Instruction::ComponentRemove { entity, table } => {
            (INSTRUCTION_COMPONENT_REMOVE, *entity, *table).write_fast(w);
        },
        Instruction::AssetUpdate { table } => {
            (INSTRUCTION_ASSET_UPDATE, *table).write_fast(w);
        },
        Instruction::AssetDrop { table } => {
            (INSTRUCTION_ASSET_DROP, *table).write_fast(w);
        },
        Instruction::AssetReserve { table } => {
            (INSTRUCTION_ASSET_RESERVE, *table).write_fast(w);
        },
        Instruction::ResourceUpdate { table } => {
            (INSTRUCTION_RESOURCE_UPDATE, *table).write_fast(w);
        },
        Instruction::ResourceDrop { table } => {
            (INSTRUCTION_RESOURCE_DROP, *table).write_fast(w);
        },
        Instruction::Hierarchy { change } => {
            INSTRUCTION_HIERARCHY_CHANGE.write_fast(w);
            let ghost b1 = w.sink_buffer();
            let ghost p1 = w.sink_pos();
            change.write_fast(w);
            proof {
                lemma_wrote_twice(
                    old(w).sink_buffer(),
                    old(w).sink_pos(),
                    b1,
                    p1,
                    w.sink_buffer(),
                    w.sink_pos(),
                    u8_bytes(INSTRUCTION_HIERARCHY_CHANGE),
                    change.fast_bytes(),
                );
            }
        },
        Instruction::EntityRemove { entity } => {
            (INSTRUCTION_ENTITY_REMOVE, *entity).write_fast(w);
        },
        Instruction::EndFrame => {
            INSTRUCTION_END_FRAME.write_fast(w);
        },
        Instruction::EntityAdd { entity } => {
            (INSTRUCTION_ENTITY_ADD, *entity).write_fast(w);
        },
    }
}

/// Write an instruction's header followed by a payload.
fn write_with_payload<W: ByteSink, T: FastWrite>(w: &mut W, i: &Instruction, payload: &T)
    requires
        fits(
            old(w).sink_buffer(),
            old(w).sink_pos(),
            header_bytes(*i).len() + payload.fast_bytes().len(),
        ),
    ensures
        wrote(
            old(w).sink_buffer(),
            old(w).sink_pos(),
            final(w).sink_buffer(),
            final(w).sink_pos(),
            header_bytes(*i) + payload.fast_bytes(),
        ),
{
    write_header(w, i);
    let ghost b1 = w.sink_buffer();
    let ghost p1 = w.sink_pos();
    payload.write_fast(w);
    proof {
        lemma_wrote_twice(
            old(w).sink_buffer(),
            old(w).sink_pos(),
            b1,
            p1,
            w.sink_buffer(),
            w.sink_pos(),
            header_bytes(*i),
            payload.fast_bytes(),
        );
    }
}

/// Write a component value of an entity: its header, then the component.
pub fn write_component_add<W: ByteSink, T: FastWrite>(
    w: &mut W,
    entity: u64,
    component_type: u16,
    component: &T,
)
    requires
        fits(old(w).sink_buffer(), old(w).sink_pos(), 11 + component.fast_bytes().len()),
    ensures
        wrote(
            old(w).sink_buffer(),
            old(w).sink_pos(),
            final(w).sink_buffer(),
            final(w).sink_pos(),
            header_bytes(Instruction::ComponentAdd { entity, table: component_type })
                + component.fast_bytes(),
        ),
{
    proof {
        lemma_primitive_bytes();
    }
    write_with_payload(w, &Instruction::ComponentAdd { entity, table: component_type }, component);
}

/// Write the removal of a component from an entity.
pub fn write_component_remove<W: ByteSink>(w: &mut W, entity: u64, component_type: u16)
    requires
        fits(old(w).sink_buffer(), old(w).sink_pos(), 11),
    ensures
        wrote(
            old(w).sink_buffer(),
            old(w).sink_pos(),
            final(w).sink_buffer(),
            final(w).sink_pos(),
            header_bytes(Instruction::ComponentRemove { entity, table: component_type }),
        ),
{
    proof {
        lemma_primitive_bytes();
    }
    write_header(w, &Instruction::ComponentRemove { entity, table: component_type });
}

/// Write an asset's new value: its header, the asset's id, then the asset.
pub fn write_asset_update<W: ByteSink, I: FastWrite, A: FastWrite>(
    w: &mut W,
    asset_type: u16,
    id: &I,
    asset: &A,
)
    requires
        fits(
            old(w).sink_buffer(),
            old(w).sink_pos(),
            3 + id.fast_bytes().len() + asset.fast_bytes().len(),
        ),
    ensures
        wrote(
            old(w).sink_buffer(),
            old(w).sink_pos(),
            final(w).sink_buffer(),
            final(w).sink_pos(),
            header_bytes(Instruction::AssetUpdate { table: asset_type }) + id.fast_bytes()
                + asset.fast_bytes(),
        ),
{
    proof {
        lemma_primitive_bytes();
    }
    let payload = (id, asset);
    write_with_payload(w, &Instruction::AssetUpdate { table: asset_type }, &payload);
    assert(header_bytes(Instruction::AssetUpdate { table: asset_type }) + payload.fast_bytes()
        =~= header_bytes(Instruction::AssetUpdate { table: asset_type }) + id.fast_bytes()
        + asset.fast_bytes());
}

/// Announce an asset id whose value is not available yet.
pub fn write_asset_reserve<W: ByteSink, I: FastWrite>(w: &mut W, asset_type: u16, id: &I)
    requires
        fits(old(w).sink_buffer(), old(w).sink_pos(), 3 + id.fast_bytes().len()),
    ensures
        wrote(
            old(w).sink_buffer(),
            old(w).sink_pos(),
            final(w).sink_buffer(),
            final(w).sink_pos(),
            header_bytes(Instruction::AssetReserve { table: asset_type }) + id.fast_bytes(),
        ),
{
    proof {
        lemma_primitive_bytes();
    }
    write_with_payload(w, &Instruction::AssetReserve { table: asset_type }, id);
}

/// Write the removal of an asset.
pub fn write_asset_drop<W: ByteSink, I: FastWrite>(w: &mut W, asset_type: u16, id: &I)
    requires
        fits(old(w).sink_buffer(), old(w).sink_pos(), 3 + id.fast_bytes().len()),
    ensures
        wrote(
            old(w).sink_buffer(),
            old(w).sink_pos(),
            final(w).sink_buffer(),
            final(w).sink_pos(),
            header_bytes(Instruction::AssetDrop { table: asset_type }) + id.fast_bytes(),
        ),
{
    proof {
        lemma_primitive_bytes();
    }
    write_with_payload(w, &Instruction::AssetDrop { table: asset_type }, id);
}

/// Write a resource's new value: its header, then the resource.
pub fn write_resource_update<W: ByteSink, R: FastWrite>(w: &mut W, resource_type: u16, resource: &R)
    requires
        fits(old(w).sink_buffer(), old(w).sink_pos(), 3 + resource.fast_bytes().len()),
    ensures
        wrote(
            old(w).sink_buffer(),
            old(w).sink_pos(),
            final(w).sink_buffer(),
            final(w).sink_pos(),
            header_bytes(Instruction::ResourceUpdate { table: resource_type })
                + resource.fast_bytes(),
        ),
{
    proof {
        lemma_primitive_bytes();
    }
    write_with_payload(w, &Instruction::ResourceUpdate { table: resource_type }, resource);
}

/// Write the removal of a resource.
pub fn write_resource_drop<W: ByteSink>(w: &mut W, resource_type: u16)
    requires
        fits(old(w).sink_buffer(), old(w).sink_pos(), 3),
    ensures
        wrote(
            old(w).sink_buffer(),
            old(w).sink_pos(),
            final(w).sink_buffer(),
            final(w).sink_pos(),
            header_bytes(Instruction::ResourceDrop { table: resource_type }),
        ),
{
    proof {
        lemma_primitive_bytes();
    }
    write_header(w, &Instruction::ResourceDrop { table: resource_type });
}

// MARK: Server instructions

/// The entity-level instructions that the writer emits by themselves.
pub enum ServerInstruction {
    HChange(HierarchyChange),
    ERemove(u64),
    EFrame(EndFrame),
    EAdd(u64),
}

impl ServerInstruction {
    /// The instruction that this one is on the wire.
    pub open spec fn instruction(&self) -> Instruction {
        match self {
            ServerInstruction::HChange(x) => Instruction::Hierarchy { change: *x },
            ServerInstruction::ERemove(e) => Instruction::EntityRemove { entity: *e },
            ServerInstruction::EFrame(_) => Instruction::EndFrame,
            ServerInstruction::EAdd(e) => Instruction::EntityAdd { entity: *e },
        }
    }
}

impl ServerInstruction {
    /// How many bytes this instruction takes on the wire.
    pub fn byte_len(&self) -> (n: usize)
        ensures
            n == self.fast_bytes().len(),
    {
        let i = match self {
            ServerInstruction::HChange(x) => Instruction::Hierarchy {
                change: HierarchyChange { new_parent: x.new_parent, child: x.child },
            },
            ServerInstruction::ERemove(e) => Instruction::EntityRemove { entity: *e },
            ServerInstruction::EFrame(_) => Instruction::EndFrame,
            ServerInstruction::EAdd(e) => Instruction::EntityAdd { entity: *e },
        };
        header_len(&i)
    }
}

impl FastWrite for ServerInstruction {
    open spec fn fast_bytes(&self) -> Seq<u8> {
        header_bytes(self.instruction())
    }

    fn write_fast<W: ByteSink>(&self, w: &mut W) {
        let i = match self {
            ServerInstruction::HChange(x) => Instruction::Hierarchy {
                change: HierarchyChange { new_parent: x.new_parent, child: x.child },
            },
            ServerInstruction::ERemove(e) => Instruction::EntityRemove { entity: *e },
            ServerInstruction::EFrame(_) => Instruction::EndFrame,
            ServerInstruction::EAdd(e) => Instruction::EntityAdd { entity: *e },
        };
        write_header(w, &i);
    }
}

// MARK: Decoding

/// Why the next instruction could not be read.
#[derive(PartialEq, Eq, Structural, Debug, Clone, Copy)]
pub enum InstructionError {
    /// The frame ends inside the instruction's header.
    Truncated,
    /// The opcode is not one of this protocol's.
    UnknownInstruction(u8),
}

/// The opcodes whose header is a table id alone.
pub open spec fn is_table_opcode(op: u8) -> bool {
    op == INSTRUCTION_ASSET_UPDATE || op == INSTRUCTION_ASSET_DROP || op == INSTRUCTION_ASSET_RESERVE
        || op == INSTRUCTION_RESOURCE_UPDATE || op == INSTRUCTION_RESOURCE_DROP
}

/// The instruction with a table-id header for opcode `op`.
pub open spec fn table_instruction(op: u8, table: u16) -> Instruction {
    if op == INSTRUCTION_ASSET_UPDATE {
        Instruction::AssetUpdate { table }
    } else if op == INSTRUCTION_ASSET_DROP {
        Instruction::AssetDrop { table }
    } else if op == INSTRUCTION_ASSET_RESERVE {
        Instruction::AssetReserve { table }
    } else if op == INSTRUCTION_RESOURCE_UPDATE {
        Instruction::ResourceUpdate { table }
    } else {
        Instruction::ResourceDrop { table }
    }
}

/// The instruction header at the start of `b` and its length, or why there
/// is none.
pub open spec fn parse_header(b: Seq<u8>) -> Result<(Instruction, nat), InstructionError> {
    if b.len() == 0 {
        Err(InstructionError::Truncated)
    } else {
        let op = b[0];
        if op == INSTRUCTION_COMPONENT_ADD || op == INSTRUCTION_COMPONENT_REMOVE {
            if b.len() < 11 {
                Err(InstructionError::Truncated)
            } else {
                let entity = read_u64(b.subrange(1, 9));
                let table = read_u16(b.subrange(9, 11));
                if op == INSTRUCTION_COMPONENT_ADD {
                    Ok((Instruction::ComponentAdd { entity, table }, 11))
                } else {
                    Ok((Instruction::ComponentRemove { entity, table }, 11))
                }
            }
        } else if is_table_opcode(op) {
            if b.len() < 3 {
                Err(InstructionError::Truncated)
            } else {
                Ok((table_instruction(op, read_u16(b.subrange(1, 3))), 3))
            }
        } else if op == INSTRUCTION_HIERARCHY_CHANGE {
            if b.len() < 2 {
                Err(InstructionError::Truncated)
            } else if b[1] != 0 {
                if b.len() < 18 {
                    Err(InstructionError::Truncated)
                } else {
                    let change = HierarchyChange {
                        new_parent: Some(read_u64(b.subrange(2, 10))),
                        child: read_u64(b.subrange(10, 18)),
                    };
                    Ok((Instruction::Hierarchy { change }, 18))
                }
            } else {
                if b.len() < 10 {
                    Err(InstructionError::Truncated)
                } else {
                    let change = HierarchyChange {
                        new_parent: None,
                        child: read_u64(b.subrange(2, 10)),
                    };
                    Ok((Instruction::Hierarchy { change }, 10))
                }
            }
        } else if op == INSTRUCTION_ENTITY_REMOVE || op == INSTRUCTION_ENTITY_ADD {
            if b.len() < 9 {
                Err(InstructionError::Truncated)
            } else {
                let entity = read_u64(b.subrange(1, 9));
                if op == INSTRUCTION_ENTITY_REMOVE {
                    Ok((Instruction::EntityRemove { entity }, 9))
                } else {
                    Ok((Instruction::EntityAdd { entity }, 9))
                }
            }
        } else if op == INSTRUCTION_END_FRAME {
            Ok((Instruction::EndFrame, 1))
        } else {
            Err(InstructionError::UnknownInstruction(op))
        }
    }
}

/// Read the next instruction's opcode and fixed header.  On success the
/// reader stands at the instruction's payload, if it has one.
pub fn read_instruction<'a>(r: &mut ByteReader<'a>) -> (res: Result<Instruction, InstructionError>)
    requires
        old(r).source_pos() <= old(r).source_buffer().len(),
    ensures
        final(r).source_buffer() == old(r).source_buffer(),
        final(r).source_pos() <= final(r).source_buffer().len(),
        match parse_header(rest(old(r).source_buffer(), old(r).source_pos())) {
            Ok((i, n)) => res == Ok::<Instruction, InstructionError>(i) && final(r).source_pos()
                == old(r).source_pos() + n,
            Err(e) => res == Err::<Instruction, InstructionError>(e),
        },
{
    proof {
        lemma_primitive_bytes();
    }
    let ghost buf = r.source_buffer();
    let ghost pos = r.source_pos();
    let ghost b = rest(buf, pos);
    let avail = r.remaining();
    if avail == 0 {
        return Err(InstructionError::Truncated);
    }
    let op = r.get_u8();
    assert(b[0] == op);
    if op == INSTRUCTION_COMPONENT_ADD || op == INSTRUCTION_COMPONENT_REMOVE {
        if avail < 11 {
            return Err(InstructionError::Truncated);
        }
        let entity = r.get_u64();
        assert(b.subrange(1, 9) =~= u64_bytes(entity));
        let table = r.get_u16();
        assert(b.subrange(9, 11) =~= u16_bytes(table));
        if op == INSTRUCTION_COMPONENT_ADD {
            Ok(Instruction::ComponentAdd { entity, table })
        } else {
            Ok(Instruction::ComponentRemove { entity, table })
        }
    } else if op == INSTRUCTION_ASSET_UPDATE || op == INSTRUCTION_ASSET_DROP || op
        == INSTRUCTION_ASSET_RESERVE || op == INSTRUCTION_RESOURCE_UPDATE || op
        == INSTRUCTION_RESOURCE_DROP {
        if avail < 3 {
            return Err(InstructionError::Truncated);
        }
        let table = r.get_u16();
        assert(b.subrange(1, 3) =~= u16_bytes(table));
        if op == INSTRUCTION_ASSET_UPDATE {
            Ok(Instruction::AssetUpdate { table })
        } else if op == INSTRUCTION_ASSET_DROP {
            Ok(Instruction::AssetDrop { table })
        } else if op == INSTRUCTION_ASSET_RESERVE {
            Ok(Instruction::AssetReserve { table })
        } else if op == INSTRUCTION_RESOURCE_UPDATE {
            Ok(Instruction::ResourceUpdate { table })
        } else {
            Ok(Instruction::ResourceDrop { table })
        }
    } else if op == INSTRUCTION_HIERARCHY_CHANGE {
        if avail < 2 {
            return Err(InstructionError::Truncated);
        }
        let tag = r.get_u8();
        assert(b[1] == tag);
        if tag != 0 {
            if avail < 18 {
                return Err(InstructionError::Truncated);
            }
            let parent = r.get_u64();
            assert(b.subrange(2, 10) =~= u64_bytes(parent));
            let child = r.get_u64();
            assert(b.subrange(10, 18) =~= u64_bytes(child));
            Ok(Instruction::Hierarchy { change: HierarchyChange { new_parent: Some(parent), child } })
        } else {
            if avail < 10 {
                return Err(InstructionError::Truncated);
            }
            let child = r.get_u64();
            assert(b.subrange(2, 10) =~= u64_bytes(child));
            Ok(Instruction::Hierarchy { change: HierarchyChange { new_parent: None, child } })
        }
    } else if op == INSTRUCTION_ENTITY_REMOVE || op == INSTRUCTION_ENTITY_ADD {
        if avail < 9 {
            return Err(InstructionError::Truncated);
        }
        let entity = r.get_u64();
        assert(b.subrange(1, 9) =~= u64_bytes(entity));
        if op == INSTRUCTION_ENTITY_REMOVE {
            Ok(Instruction::EntityRemove { entity })
        } else {
            Ok(Instruction::EntityAdd { entity })
        }
    } else if op == INSTRUCTION_END_FRAME {
        Ok(Instruction::EndFrame)
    } else {
        Err(InstructionError::UnknownInstruction(op))
    }
}

/// Reading an instruction's header back gives the instruction, whatever
/// follows it, and consumes exactly its header.
pub proof fn lemma_header_roundtrip(i: Instruction, tail: Seq<u8>)
    ensures
        parse_header(header_bytes(i) + tail) == Ok::<(Instruction, nat), InstructionError>(
            (i, header_bytes(i).len()),
        ),
{
    lemma_primitive_bytes();
    let b = header_bytes(i) + tail;
    match i {
        Instruction::ComponentAdd { entity, table } => {
            assert(b.subrange(1, 9) =~= u64_bytes(entity));
            assert(b.subrange(9, 11) =~= u16_bytes(table));
        },
        Instruction::ComponentRemove { entity, table } => {
            assert(b.subrange(1, 9) =~= u64_bytes(entity));
            assert(b.subrange(9, 11) =~= u16_bytes(table));
        },
        Instruction::AssetUpdate { table } => {
            assert(b.subrange(1, 3) =~= u16_bytes(table));
        },
        Instruction::AssetDrop { table } => {
            assert(b.subrange(1, 3) =~= u16_bytes(table));
        },
        Instruction::AssetReserve { table } => {
            assert(b.subrange(1, 3) =~= u16_bytes(table));
        },
        Instruction::ResourceUpdate { table } => {
            assert(b.subrange(1, 3) =~= u16_bytes(table));
        },
        Instruction::ResourceDrop { table } => {
            assert(b.subrange(1, 3) =~= u16_bytes(table));
        },
        Instruction::Hierarchy { change } => {
            match change.new_parent {
                Some(p) => {
                    assert(b[1] == 1u8);
                    assert(b.subrange(2, 10) =~= u64_bytes(p));
                    assert(b.subrange(10, 18) =~= u64_bytes(change.child));
                },
                None => {
                    assert(b[1] == 0u8);
                    assert(b.subrange(2, 10) =~= u64_bytes(change.child));
                },
            }
        },
        Instruction::EntityRemove { entity } => {
            assert(b.subrange(1, 9) =~= u64_bytes(entity));
        },
        Instruction::EndFrame => {
        },
        Instruction::EntityAdd { entity } => {
            assert(b.subrange(1, 9) =~= u64_bytes(entity));
        },
    }
}

/// The bytes of instructions written one after the other, headers only.
pub open spec fn stream_bytes(is: Seq<Instruction>) -> Seq<u8>
    decreases is.len(),
{
    if is.len() == 0 {
        seq![]
    } else {
        stream_bytes(is.drop_last()) + header_bytes(is.last())
    }
}

proof fn lemma_stream_split(is: Seq<Instruction>, k: int)
    requires
        0 <= k < is.len(),
    ensures
        stream_bytes(is) == stream_bytes(is.take(k)) + header_bytes(is[k]) + stream_bytes(
            is.skip(k + 1),
        ),
    decreases is.len(),
{
    if k == is.len() - 1 {
        assert(is.take(k) =~= is.drop_last());
        assert(is.skip(k + 1) =~= Seq::<Instruction>::empty());
        assert(stream_bytes(is.skip(k + 1)) =~= Seq::<u8>::empty());
        assert(stream_bytes(is) =~= stream_bytes(is.take(k)) + header_bytes(is[k]) + seq![]);
    } else {
        let d = is.drop_last();
        lemma_stream_split(d, k);
        assert(d.take(k) =~= is.take(k));
        assert(d[k] == is[k]);
        let rest = is.skip(k + 1);
        assert(rest.drop_last() =~= d.skip(k + 1));
        assert(rest.last() == is.last());
        assert(stream_bytes(rest) == stream_bytes(d.skip(k + 1)) + header_bytes(is.last()));
        assert(stream_bytes(is) =~= stream_bytes(is.take(k)) + header_bytes(is[k]) + stream_bytes(
            rest,
        ));
    }
}

/// A frame of instructions without payloads reads back instruction by
/// instruction: the `k`-th read, which starts where the headers before it
/// end, gives the `k`-th instruction, whatever follows the frame.
pub proof fn lemma_stream_roundtrip(is: Seq<Instruction>, tail: Seq<u8>, k: int)
    requires
        0 <= k < is.len(),
    ensures
        parse_header((stream_bytes(is) + tail).skip(stream_bytes(is.take(k)).len() as int))
            == Ok::<(Instruction, nat), InstructionError>((is[k], header_bytes(is[k]).len())),
{
    lemma_stream_split(is, k);
    let before = stream_bytes(is.take(k));
    let after = stream_bytes(is.skip(k + 1)) + tail;
    assert((stream_bytes(is) + tail).skip(before.len() as int) =~= header_bytes(is[k]) + after);
    lemma_header_roundtrip(is[k], after);
}

} // verus!
