//! The logic side of replication: which entities are mirrored, and what a
//! hierarchy change says about them.
//!
//! Any entity with a mirrored component is mirrored, and so is every ancestor
//! up to its root, which keeps hierarchy and transform context in the
//! renderer.  Once mirrored, an entity stays mirrored until it is despawned.
use crate::replication::HierarchyChange;
use std::collections::HashSet;
use vstd::prelude::*;

verus! {

broadcast use vstd::std_specs::hash::group_hash_axioms;

/// Track an entity and its ancestors.
///
/// `chain` is the entity followed by its ancestors, nearest first, as far as
/// they exist.  Each of them becomes mirrored; each that was not mirrored
/// before is also recorded as newly mirrored.
pub fn track_entity_and_ancestors(
    mirrored: &mut HashSet<u64>,
    newly_mirrored: &mut HashSet<u64>,
    chain: &[u64],
)
    ensures
        forall|x: u64| #[trigger]
            final(mirrored)@.contains(x) <==> (old(mirrored)@.contains(x) || chain@.contains(x)),
        forall|x: u64| #[trigger]
            final(newly_mirrored)@.contains(x) <==> (old(newly_mirrored)@.contains(x) || (
            chain@.contains(x) && !old(mirrored)@.contains(x))),
{
    let ghost t0 = mirrored@;
    let ghost n0 = newly_mirrored@;
    let mut i: usize = 0;
    while i < chain.len()
        invariant
            0 <= i <= chain@.len(),
            forall|x: u64| #[trigger]
                mirrored@.contains(x) <==> (t0.contains(x) || chain@.take(i as int).contains(x)),
            forall|x: u64| #[trigger]
                newly_mirrored@.contains(x) <==> (n0.contains(x) || (chain@.take(
                    i as int,
                ).contains(x) && !t0.contains(x))),
        decreases chain@.len() - i,
    {
        let e = chain[i];
        let ghost before = chain@.take(i as int);
        let ghost after = chain@.take(i + 1);
        assert(after =~= before.push(e));
        assert forall|x: u64| after.contains(x) <==> (before.contains(x) || x == e) by {
            if after.contains(x) {
                let j = choose|j: int| 0 <= j < after.len() && after[j] == x;
                if j < before.len() {
                    assert(before[j] == x);
                }
            }
            if before.contains(x) {
                let j = choose|j: int| 0 <= j < before.len() && before[j] == x;
                assert(after[j] == x);
            }
            if x == e {
                assert(after[i as int] == x);
            }
        }
        if mirrored.insert(e) {
            newly_mirrored.insert(e);
        }
        i = i + 1;
    }
    assert(chain@.take(chain@.len() as int) =~= chain@);
}

/// The hierarchy change reporting `child`'s parent: the parent where it is
/// mirrored, none where it is not.
pub fn hierarchy_change(mirrored: &HashSet<u64>, child: u64, parent: u64) -> (h: HierarchyChange)
    ensures
        h.child == child,
        h.new_parent == (if mirrored@.contains(parent) {
            Some(parent)
        } else {
            None
        }),
{
    let new_parent = if mirrored.contains(&parent) {
        Some(parent)
    } else {
        None
    };
    HierarchyChange { new_parent, child }
}

/// The parent that a hierarchy change reports: the parent where it is
/// mirrored, none where it is not.
pub open spec fn reported_parent(mirrored: Set<u64>, parent: u64) -> Option<u64> {
    if mirrored.contains(parent) {
        Some(parent)
    } else {
        None
    }
}

/// The first hierarchy snapshot of newly mirrored entities: one change for
/// each that has a parent, in the order given.
pub open spec fn snapshot_changes(mirrored: Set<u64>, newly: Seq<(u64, Option<u64>)>) -> Seq<
    HierarchyChange,
>
    decreases newly.len(),
{
    if newly.len() == 0 {
        seq![]
    } else {
        let earlier = snapshot_changes(mirrored, newly.drop_last());
        match newly.last().1 {
            Some(p) => earlier.push(
                HierarchyChange { new_parent: reported_parent(mirrored, p), child: newly.last().0 },
            ),
            None => earlier,
        }
    }
}

/// The changed parents of entities mirrored before this frame (those newly
/// mirrored already had their snapshot).
pub open spec fn reparent_changes(
    mirrored: Set<u64>,
    newly: Set<u64>,
    changed: Seq<(u64, u64)>,
) -> Seq<HierarchyChange>
    decreases changed.len(),
{
    if changed.len() == 0 {
        seq![]
    } else {
        let earlier = reparent_changes(mirrored, newly, changed.drop_last());
        let (e, p) = changed.last();
        if newly.contains(e) {
            earlier
        } else {
            earlier.push(HierarchyChange { new_parent: reported_parent(mirrored, p), child: e })
        }
    }
}

/// Mirrored entities that lost their parent now have none.
pub open spec fn unparent_changes(mirrored: Set<u64>, removed: Seq<u64>) -> Seq<HierarchyChange>
    decreases removed.len(),
{
    if removed.len() == 0 {
        seq![]
    } else {
        let earlier = unparent_changes(mirrored, removed.drop_last());
        if mirrored.contains(removed.last()) {
            earlier.push(HierarchyChange { new_parent: None, child: removed.last() })
        } else {
            earlier
        }
    }
}

/// The hierarchy changes of a frame: the snapshots of newly mirrored
/// entities, then changed parents, then lost parents.
pub open spec fn hierarchy_plan(
    mirrored: Set<u64>,
    newly: Set<u64>,
    newly_parents: Seq<(u64, Option<u64>)>,
    changed: Seq<(u64, u64)>,
    removed: Seq<u64>,
) -> Seq<HierarchyChange> {
    snapshot_changes(mirrored, newly_parents) + reparent_changes(mirrored, newly, changed)
        + unparent_changes(mirrored, removed)
}

/// The hierarchy changes of a frame, given each newly mirrored entity with
/// its parent (if it has one), the entities whose parent changed with their
/// new parent, and the entities that lost their parent.
pub fn hierarchy_changes(
    mirrored: &HashSet<u64>,
    newly: &HashSet<u64>,
    newly_parents: &[(u64, Option<u64>)],
    changed: &[(u64, u64)],
    removed: &[u64],
) -> (out: Vec<HierarchyChange>)
    ensures
        out@ == hierarchy_plan(mirrored@, newly@, newly_parents@, changed@, removed@),
{
    let mut out: Vec<HierarchyChange> = Vec::new();
    let mut i: usize = 0;
    while i < newly_parents.len()
        invariant
            0 <= i <= newly_parents@.len(),
            out@ == snapshot_changes(mirrored@, newly_parents@.take(i as int)),
        decreases newly_parents@.len() - i,
    {
        let (e, p) = newly_parents[i];
        assert(newly_parents@.take(i + 1).drop_last() =~= newly_parents@.take(i as int));
        match p {
            Some(parent) => {
                out.push(hierarchy_change(mirrored, e, parent));
            },
            None => {},
        }
        i = i + 1;
    }
    assert(newly_parents@.take(newly_parents@.len() as int) =~= newly_parents@);
    let ghost snap = out@;
    let mut j: usize = 0;
    while j < changed.len()
        invariant
            0 <= j <= changed@.len(),
            snap == snapshot_changes(mirrored@, newly_parents@),
            out@ == snap + reparent_changes(mirrored@, newly@, changed@.take(j as int)),
        decreases changed@.len() - j,
    {
        let (e, parent) = changed[j];
        assert(changed@.take(j + 1).drop_last() =~= changed@.take(j as int));
        if !newly.contains(&e) {
            out.push(hierarchy_change(mirrored, e, parent));
        }
        j = j + 1;
    }
    assert(changed@.take(changed@.len() as int) =~= changed@);
    let ghost mid = out@;
    let mut k: usize = 0;
    while k < removed.len()
        invariant
            0 <= k <= removed@.len(),
            mid == snapshot_changes(mirrored@, newly_parents@) + reparent_changes(
                mirrored@,
                newly@,
                changed@,
            ),
            out@ == mid + unparent_changes(mirrored@, removed@.take(k as int)),
        decreases removed@.len() - k,
    {
        let c = removed[k];
        assert(removed@.take(k + 1).drop_last() =~= removed@.take(k as int));
        if mirrored.contains(&c) {
            out.push(HierarchyChange { new_parent: None, child: c });
        }
        k = k + 1;
    }
    assert(removed@.take(removed@.len() as int) =~= removed@);
    out
}

// MARK: Resource changes

/// What a frame sees of a mirrored resource.
#[derive(PartialEq, Eq, Structural, Debug, Clone, Copy)]
pub enum ResourceLook {
    /// The resource is there; `changed` if it was inserted or changed since
    /// the last frame.
    Present { changed: bool },
    /// The resource is not there.
    Absent,
    /// The resource could not be looked at this frame.
    Unavailable,
}

/// What a frame writes for a mirrored resource.
#[derive(PartialEq, Eq, Structural, Debug, Clone, Copy)]
pub enum ResourceWrite {
    /// Write the resource's value.
    Update,
    /// Write that the resource is gone.
    Drop,
    Nothing,
}

/// A resource's write and whether it exists after this frame: its value
/// when it is there and changed, its removal once when it goes away.
pub open spec fn resource_change_spec(existed: bool, look: ResourceLook) -> (ResourceWrite, bool) {
    match look {
        ResourceLook::Present { changed } => (
            if changed {
                ResourceWrite::Update
            } else {
                ResourceWrite::Nothing
            },
            true,
        ),
        ResourceLook::Absent => if existed {
            (ResourceWrite::Drop, false)
        } else {
            (ResourceWrite::Nothing, false)
        },
        ResourceLook::Unavailable => (ResourceWrite::Nothing, existed),
    }
}

/// One frame of a mirrored resource, given whether it existed at the last
/// frame: what to write, and whether it exists now.
pub fn resource_change(existed: bool, look: ResourceLook) -> (r: (ResourceWrite, bool))
    ensures
        r == resource_change_spec(existed, look),
{
    match look {
        ResourceLook::Present { changed } => {
            if changed {
                (ResourceWrite::Update, true)
            } else {
                (ResourceWrite::Nothing, true)
            }
        },
        ResourceLook::Absent => {
            if existed {
                (ResourceWrite::Drop, false)
            } else {
                (ResourceWrite::Nothing, false)
            }
        },
        ResourceLook::Unavailable => (ResourceWrite::Nothing, existed),
    }
}

/// A resource's removal is written once: after a frame that wrote it, a
/// following frame that still finds the resource absent writes nothing.
/// And a resource is only updated while it is there.
pub proof fn lemma_resource_drop_once(existed: bool, look: ResourceLook)
    ensures
        resource_change_spec(existed, look).0 == ResourceWrite::Drop ==> resource_change_spec(
            resource_change_spec(existed, look).1,
            ResourceLook::Absent,
        ).0 == ResourceWrite::Nothing,
        resource_change_spec(existed, look).0 == ResourceWrite::Update ==> look is Present,
{
}

/// Every change of a present resource is written: when the resource is
/// there and changed, the frame writes its value, whether or not it existed
/// at the last frame; and it then exists.
pub proof fn lemma_changed_resource_is_written(existed: bool)
    ensures
        resource_change_spec(existed, ResourceLook::Present { changed: true }) == (
            ResourceWrite::Update,
            true,
        ),
{
}

// MARK: Frame schedule

/// One step of writing a replication frame.
#[derive(PartialEq, Eq, Structural, Debug, Clone, Copy)]
pub enum FrameStep {
    /// Announce a newly mirrored entity.
    EntityAdd { entity: u64 },
    /// Write the changes of an asset table.
    AssetChanges { table: u16 },
    /// Write the change of a resource table.
    ResourceChange { table: u16 },
    /// Write a newly mirrored entity's component of a table, if it has one.
    ComponentBaseline { entity: u64, table: u16 },
    /// Write the changed components of a table, but those of newly mirrored
    /// entities.
    ComponentChanges { table: u16 },
    /// Write the hierarchy of newly mirrored entities and hierarchy changes.
    HierarchyChanges,
    /// Write the removals of components of a table from mirrored entities.
    ComponentRemovals { table: u16 },
    /// Write the removals of despawned mirrored entities.
    EntityRemovals,
    /// End the frame.
    EndFrame,
}

/// Kinds of steps that go through every table of a kind.
pub const ASSET_STEPS: u8 = 0;

pub const RESOURCE_STEPS: u8 = 1;

pub const CHANGE_STEPS: u8 = 2;

pub const REMOVAL_STEPS: u8 = 3;

/// The step of kind `kind` for table `t`.
pub open spec fn table_step(kind: u8, t: u16) -> FrameStep {
    if kind == ASSET_STEPS {
        FrameStep::AssetChanges { table: t }
    } else if kind == RESOURCE_STEPS {
        FrameStep::ResourceChange { table: t }
    } else if kind == CHANGE_STEPS {
        FrameStep::ComponentChanges { table: t }
    } else {
        FrameStep::ComponentRemovals { table: t }
    }
}

/// The steps of kind `kind` for every table id below `count`, in order.
pub open spec fn table_steps(kind: u8, count: nat) -> Seq<FrameStep> {
    Seq::new(count, |t: int| table_step(kind, t as u16))
}

/// A newly mirrored entity's baseline: its component of every table.
pub open spec fn entity_baseline(entity: u64, count: nat) -> Seq<FrameStep> {
    Seq::new(count, |t: int| FrameStep::ComponentBaseline { entity, table: t as u16 })
}

/// The baselines of the newly mirrored entities, one after the other.
pub open spec fn baseline_steps(newly: Seq<u64>, components: nat) -> Seq<FrameStep>
    decreases newly.len(),
{
    if newly.len() == 0 {
        seq![]
    } else {
        baseline_steps(newly.drop_last(), components) + entity_baseline(newly.last(), components)
    }
}

/// The announcements of the newly mirrored entities.
pub open spec fn entity_adds(newly: Seq<u64>) -> Seq<FrameStep> {
    Seq::new(newly.len(), |i: int| FrameStep::EntityAdd { entity: newly[i] })
}

/// The steps of a frame, in order: new entities, assets, resources, then
/// the new entities' baselines, component changes, hierarchy, component
/// removals, entity removals, and the end of the frame.
pub open spec fn frame_plan(newly: Seq<u64>, components: nat, assets: nat, resources: nat) -> Seq<
    FrameStep,
> {
    entity_adds(newly) + table_steps(ASSET_STEPS, assets) + table_steps(RESOURCE_STEPS, resources)
        + baseline_steps(newly, components) + table_steps(CHANGE_STEPS, components) + seq![
        FrameStep::HierarchyChanges,
    ] + table_steps(REMOVAL_STEPS, components) + seq![
        FrameStep::EntityRemovals,
        FrameStep::EndFrame,
    ]
}

fn push_table_steps(out: &mut Vec<FrameStep>, kind: u8, count: usize)
    ensures
        final(out)@ == old(out)@ + table_steps(kind, count as nat),
{
    let ghost start = out@;
    let mut t: usize = 0;
    while t < count
        invariant
            0 <= t <= count,
            out@ == start + table_steps(kind, t as nat),
        decreases count - t,
    {
        let id = t as u16;
        let step = if kind == ASSET_STEPS {
            FrameStep::AssetChanges { table: id }
        } else if kind == RESOURCE_STEPS {
            FrameStep::ResourceChange { table: id }
        } else if kind == CHANGE_STEPS {
            FrameStep::ComponentChanges { table: id }
        } else {
            FrameStep::ComponentRemovals { table: id }
        };
        out.push(step);
        assert(table_steps(kind, (t + 1) as nat) =~= table_steps(kind, t as nat).push(
            table_step(kind, id),
        ));
        t = t + 1;
    }
}

fn push_baseline(out: &mut Vec<FrameStep>, entity: u64, count: usize)
    ensures
        final(out)@ == old(out)@ + entity_baseline(entity, count as nat),
{
    let ghost start = out@;
    let mut t: usize = 0;
    while t < count
        invariant
            0 <= t <= count,
            out@ == start + entity_baseline(entity, t as nat),
        decreases count - t,
    {
        let id = t as u16;
        out.push(FrameStep::ComponentBaseline { entity, table: id });
        assert(entity_baseline(entity, (t + 1) as nat) =~= entity_baseline(entity, t as nat).push(
            FrameStep::ComponentBaseline { entity, table: id },
        ));
        t = t + 1;
    }
}

/// The steps of a frame for the newly mirrored entities `newly` and the
/// numbers of registered component, asset and resource tables.
pub fn frame_steps(newly: &[u64], components: usize, assets: usize, resources: usize) -> (steps:
    Vec<FrameStep>)
    ensures
        steps@ == frame_plan(newly@, components as nat, assets as nat, resources as nat),
{
    let mut out: Vec<FrameStep> = Vec::new();
    let mut i: usize = 0;
    while i < newly.len()
        invariant
            0 <= i <= newly@.len(),
            out@ == entity_adds(newly@.take(i as int)),
        decreases newly@.len() - i,
    {
        out.push(FrameStep::EntityAdd { entity: newly[i] });
        assert(entity_adds(newly@.take(i + 1)) =~= entity_adds(newly@.take(i as int)).push(
            FrameStep::EntityAdd { entity: newly@[i as int] },
        ));
        i = i + 1;
    }
    assert(newly@.take(newly@.len() as int) =~= newly@);
    push_table_steps(&mut out, ASSET_STEPS, assets);
    push_table_steps(&mut out, RESOURCE_STEPS, resources);
    let ghost before_baselines = out@;
    let mut j: usize = 0;
    assert(before_baselines + baseline_steps(newly@.take(0), components as nat) =~= out@);
    while j < newly.len()
        invariant
            0 <= j <= newly@.len(),
            out@ == before_baselines + baseline_steps(newly@.take(j as int), components as nat),
        decreases newly@.len() - j,
    {
        push_baseline(&mut out, newly[j], components);
        assert(newly@.take(j + 1).drop_last() =~= newly@.take(j as int));
        j = j + 1;
    }
    push_table_steps(&mut out, CHANGE_STEPS, components);
    out.push(FrameStep::HierarchyChanges);
    push_table_steps(&mut out, REMOVAL_STEPS, components);
    out.push(FrameStep::EntityRemovals);
    out.push(FrameStep::EndFrame);
    assert(out@ =~= frame_plan(newly@, components as nat, assets as nat, resources as nat));
    out
}

proof fn lemma_baselines_only(newly: Seq<u64>, components: nat)
    ensures
        forall|k: int|
            0 <= k < baseline_steps(newly, components).len() ==> #[trigger] baseline_steps(
                newly,
                components,
            )[k] is ComponentBaseline,
    decreases newly.len(),
{
    if newly.len() > 0 {
        lemma_baselines_only(newly.drop_last(), components);
        let before = baseline_steps(newly.drop_last(), components);
        let last = entity_baseline(newly.last(), components);
        assert forall|k: int| 0 <= k < baseline_steps(newly, components).len() implies #[trigger]
            baseline_steps(newly, components)[k] is ComponentBaseline by {
            if k < before.len() {
                assert(baseline_steps(newly, components)[k] == before[k]);
            } else {
                assert(baseline_steps(newly, components)[k] == last[k - before.len()]);
            }
        }
    }
}

/// The order of a frame: it ends with `EndFrame`, which occurs nowhere
/// else, and every new entity, asset and resource comes before every
/// component baseline, so that the baselines can refer to them.
pub proof fn lemma_frame_order(newly: Seq<u64>, components: nat, assets: nat, resources: nat)
    ensures
        ({
            let p = frame_plan(newly, components, assets, resources);
            &&& p.len() > 0
            &&& p.last() == FrameStep::EndFrame
            &&& forall|i: int| 0 <= i < p.len() - 1 ==> #[trigger] p[i] != FrameStep::EndFrame
            &&& forall|i: int, j: int|
                0 <= i < p.len() && 0 <= j < p.len() && #[trigger] p[i] is ComponentBaseline && (
                #[trigger] p[j] is EntityAdd || p[j] is AssetChanges || p[j] is ResourceChange)
                    ==> j < i
        }),
{
    let p = frame_plan(newly, components, assets, resources);
    let s_a = entity_adds(newly);
    let s_b = table_steps(ASSET_STEPS, assets);
    let s_c = table_steps(RESOURCE_STEPS, resources);
    let s_d = baseline_steps(newly, components);
    let s_e = table_steps(CHANGE_STEPS, components);
    let s_f = seq![FrameStep::HierarchyChanges];
    let s_g = table_steps(REMOVAL_STEPS, components);
    let s_h = seq![FrameStep::EntityRemovals, FrameStep::EndFrame];
    lemma_baselines_only(newly, components);
    let head = s_a + s_b + s_c;
    let tail = s_e + s_f + s_g + s_h;
    assert(p =~= head + s_d + tail);
    assert forall|k: int| 0 <= k < head.len() implies !(#[trigger] head[k] is ComponentBaseline)
        && head[k] != FrameStep::EndFrame by {
        if k < s_a.len() {
            assert(head[k] == s_a[k]);
        } else if k < s_a.len() + s_b.len() {
            assert(head[k] == s_b[k - s_a.len()]);
        } else {
            assert(head[k] == s_c[k - s_a.len() - s_b.len()]);
        }
    }
    assert forall|k: int| 0 <= k < tail.len() implies !(#[trigger] tail[k] is EntityAdd
        || tail[k] is AssetChanges || tail[k] is ResourceChange || tail[k] is ComponentBaseline)
        && (k < tail.len() - 1 ==> tail[k] != FrameStep::EndFrame) by {
        let l1 = s_e.len();
        let l2 = l1 + 1;
        let l3 = l2 + s_g.len();
        if k < l1 {
            assert(tail[k] == s_e[k]);
        } else if k < l2 {
            assert(tail[k] == FrameStep::HierarchyChanges);
        } else if k < l3 {
            assert(tail[k] == s_g[k - l2]);
        } else {
            assert(tail[k] == s_h[k - l3]);
        }
    }
    assert forall|i: int| 0 <= i < p.len() - 1 implies #[trigger] p[i] != FrameStep::EndFrame by {
        if i < head.len() {
            assert(p[i] == head[i]);
        } else if i < head.len() + s_d.len() {
            assert(p[i] == s_d[i - head.len()]);
        } else {
            assert(p[i] == tail[i - head.len() - s_d.len()]);
        }
    }
    assert forall|i: int, j: int|
        0 <= i < p.len() && 0 <= j < p.len() && #[trigger] p[i] is ComponentBaseline && (
        #[trigger] p[j] is EntityAdd || p[j] is AssetChanges || p[j] is ResourceChange) implies j
        < i by {
        if i < head.len() {
            assert(p[i] == head[i]);
        } else if i >= head.len() + s_d.len() {
            assert(p[i] == tail[i - head.len() - s_d.len()]);
        }
        if j >= head.len() + s_d.len() {
            assert(p[j] == tail[j - head.len() - s_d.len()]);
        } else if j >= head.len() {
            assert(p[j] == s_d[j - head.len()]);
        }
    }
    assert(p.last() == s_h[1]);
}

} // verus!
