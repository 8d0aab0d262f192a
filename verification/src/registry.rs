//! Tables of mirrored component, asset and resource kinds.
//!
//! The protocol sends compact table ids, not type names.  Both processes
//! register the same kinds in the same order, so a kind's id is its position
//! in its table; ids are local to their table.  A kind is identified by a
//! key that the caller derives from its type.
use std::collections::HashMap;
use vstd::prelude::*;

verus! {

broadcast use vstd::std_specs::hash::group_hash_axioms;

/// One registered kind: its table id, its key and its name.
pub struct TableEntry {
    pub id: u16,
    pub type_key: u64,
    pub name: &'static str,
}

/// The kinds of one table, in registration order.
pub struct Table {
    entries: Vec<TableEntry>,
    types: HashMap<u64, u16>,
}

/// No key occurs twice.
pub open spec fn distinct_keys(t: Seq<(u64, Seq<char>)>) -> bool {
    forall|i: int, j: int| 0 <= i < j < t.len() ==> #[trigger] t[i].0 != #[trigger] t[j].0
}

/// `key` is registered in `t`.
pub open spec fn has_key(t: Seq<(u64, Seq<char>)>, key: u64) -> bool {
    exists|i: int| 0 <= i < t.len() && #[trigger] t[i].0 == key
}

impl View for Table {
    /// The registered kinds in order: key and name; a kind's id is its index.
    type V = Seq<(u64, Seq<char>)>;

    closed spec fn view(&self) -> Seq<(u64, Seq<char>)> {
        self.entries@.map_values(|e: TableEntry| (e.type_key, e.name@))
    }
}

impl Table {
    /// Ids follow the order of registration, and the index holds exactly
    /// the registered keys.
    pub closed spec fn wf(&self) -> bool {
        &&& forall|i: int| 0 <= i < self.entries@.len() ==> #[trigger] self.entries@[i].id == i as u16
        &&& forall|k: u64| #[trigger]
            self.types@.contains_key(k) <==> has_key(self@, k)
        &&& distinct_keys(self@)
    }

    pub fn new() -> (t: Self)
        ensures
            t.wf(),
            t@ == Seq::<(u64, Seq<char>)>::empty(),
    {
        let t = Table { entries: Vec::new(), types: HashMap::new() };
        assert(t@ =~= Seq::<(u64, Seq<char>)>::empty());
        t
    }

    /// The number of registered kinds.
    pub fn len(&self) -> (n: usize)
        ensures
            n == self@.len(),
    {
        self.entries.len()
    }

    /// Register a kind.  Registration is idempotent: a key already present
    /// leaves the table as it is; a new key gets the next id.
    pub fn register(&mut self, type_key: u64, name: &'static str)
        requires
            old(self).wf(),
        ensures
            final(self).wf(),
            has_key(old(self)@, type_key) ==> final(self)@ == old(self)@,
            !has_key(old(self)@, type_key) ==> final(self)@ == old(self)@.push((type_key, name@)),
    {
        if self.types.contains_key(&type_key) {
            return;
        }
        let ghost old_view = self@;
        let id = self.entries.len() as u16;
        self.types.insert(type_key, id);
        self.entries.push(TableEntry { id, type_key, name });
        assert(self@ =~= old_view.push((type_key, name@)));
        assert forall|k: u64| #[trigger] self.types@.contains_key(k) <==> has_key(self@, k) by {
            if has_key(old_view, k) {
                let i = choose|i: int| 0 <= i < old_view.len() && #[trigger] old_view[i].0 == k;
                assert(self@[i].0 == k);
            }
            if k == type_key {
                assert(self@[old_view.len() as int].0 == k);
            }
            if has_key(self@, k) && k != type_key {
                let i = choose|i: int| 0 <= i < self@.len() && #[trigger] self@[i].0 == k;
                assert(old_view[i].0 == k);
            }
        }
        assert forall|i: int, j: int| 0 <= i < j < self@.len() implies #[trigger] self@[i].0
            != #[trigger] self@[j].0 by {
            if j == old_view.len() {
                assert(old_view[i].0 == self@[i].0);
            }
        }
    }

    /// The entry of table id `id`, if there is one.
    pub fn get(&self, id: u16) -> (r: Option<&TableEntry>)
        requires
            self.wf(),
        ensures
            r is Some <==> id < self@.len(),
            r matches Some(e) ==> e.id == id && e.type_key == self@[id as int].0 && e.name@
                == self@[id as int].1,
    {
        if (id as usize) < self.entries.len() {
            let e = &self.entries[id as usize];
            if e.id == id {
                Some(e)
            } else {
                None
            }
        } else {
            None
        }
    }

    /// Whether table id `id` names a registered kind.
    pub fn contains(&self, id: u16) -> (r: bool)
        requires
            self.wf(),
        ensures
            r == (id < self@.len()),
    {
        self.get(id).is_some()
    }

    /// The names of the registered kinds, in table order.
    pub fn names(&self) -> (r: Vec<&'static str>)
        ensures
            r@.len() == self@.len(),
            forall|i: int| 0 <= i < r@.len() ==> #[trigger] r@[i]@ == self@[i].1,
    {
        let mut out: Vec<&'static str> = Vec::new();
        let mut i: usize = 0;
        while i < self.entries.len()
            invariant
                0 <= i <= self.entries@.len(),
                out@.len() == i,
                forall|k: int| 0 <= k < i ==> #[trigger] out@[k]@ == self@[k].1,
            decreases self.entries@.len() - i,
        {
            out.push(self.entries[i].name);
            i = i + 1;
        }
        out
    }
}

/// Registry of mirrored component, asset and resource kinds.
pub struct ReplicationRegistry {
    components: Table,
    assets: Table,
    resources: Table,
}

impl ReplicationRegistry {
    pub closed spec fn wf(&self) -> bool {
        self.components.wf() && self.assets.wf() && self.resources.wf()
    }

    /// The registered component kinds, in table order.
    pub closed spec fn component_table(&self) -> Seq<(u64, Seq<char>)> {
        self.components@
    }

    /// The registered asset kinds, in table order.
    pub closed spec fn asset_table(&self) -> Seq<(u64, Seq<char>)> {
        self.assets@
    }

    /// The registered resource kinds, in table order.
    pub closed spec fn resource_table(&self) -> Seq<(u64, Seq<char>)> {
        self.resources@
    }

    pub fn new() -> (r: Self)
        ensures
            r.wf(),
            r.component_table().len() == 0,
            r.asset_table().len() == 0,
            r.resource_table().len() == 0,
    {
        ReplicationRegistry { components: Table::new(), assets: Table::new(), resources: Table::new() }
    }

    /// Register a component kind; the first registration of a key assigns
    /// the next component table id.
    pub fn register_component(&mut self, type_key: u64, name: &'static str) -> (r: &mut Self)
        requires
            old(self).wf(),
        ensures
            r.wf(),
            has_key(old(self).component_table(), type_key) ==> r.component_table() == old(self).component_table(),
            !has_key(old(self).component_table(), type_key) ==> r.component_table() == old(self).component_table().push(
                (type_key, name@),
            ),
            r.asset_table() == old(self).asset_table(),
            r.resource_table() == old(self).resource_table(),
            *final(self) == *final(r),
    {
        self.components.register(type_key, name);
        self
    }

    /// Register an asset kind; the first registration of a key assigns the
    /// next asset table id.
    pub fn register_asset(&mut self, type_key: u64, name: &'static str) -> (r: &mut Self)
        requires
            old(self).wf(),
        ensures
            r.wf(),
            has_key(old(self).asset_table(), type_key) ==> r.asset_table() == old(self).asset_table(),
            !has_key(old(self).asset_table(), type_key) ==> r.asset_table() == old(self).asset_table().push(
                (type_key, name@),
            ),
            r.component_table() == old(self).component_table(),
            r.resource_table() == old(self).resource_table(),
            *final(self) == *final(r),
    {
        self.assets.register(type_key, name);
        self
    }

    /// Register a resource kind; the first registration of a key assigns
    /// the next resource table id.
    pub fn register_resource(&mut self, type_key: u64, name: &'static str) -> (r: &mut Self)
        requires
            old(self).wf(),
        ensures
            r.wf(),
            has_key(old(self).resource_table(), type_key) ==> r.resource_table() == old(self).resource_table(),
            !has_key(old(self).resource_table(), type_key) ==> r.resource_table() == old(self).resource_table().push(
                (type_key, name@),
            ),
            r.component_table() == old(self).component_table(),
            r.asset_table() == old(self).asset_table(),
            *final(self) == *final(r),
    {
        self.resources.register(type_key, name);
        self
    }

    /// Names of registered component kinds in table order.
    pub fn component_names(&self) -> (r: Vec<&'static str>)
        ensures
            r@.len() == self.component_table().len(),
            forall|i: int| 0 <= i < r@.len() ==> #[trigger] r@[i]@ == self.component_table()[i].1,
    {
        self.components.names()
    }

    /// Names of registered asset kinds in table order.
    pub fn asset_names(&self) -> (r: Vec<&'static str>)
        ensures
            r@.len() == self.asset_table().len(),
            forall|i: int| 0 <= i < r@.len() ==> #[trigger] r@[i]@ == self.asset_table()[i].1,
    {
        self.assets.names()
    }

    /// Names of registered resource kinds in table order.
    pub fn resource_names(&self) -> (r: Vec<&'static str>)
        ensures
            r@.len() == self.resource_table().len(),
            forall|i: int| 0 <= i < r@.len() ==> #[trigger] r@[i]@ == self.resource_table()[i].1,
    {
        self.resources.names()
    }

    /// The component kind with table id `id`, if there is one.
    pub fn component(&self, id: u16) -> (r: Option<&TableEntry>)
        requires
            self.wf(),
        ensures
            r is Some <==> id < self.component_table().len(),
            r matches Some(e) ==> e.id == id && e.type_key == self.component_table()[id as int].0,
    {
        self.components.get(id)
    }

    /// The asset kind with table id `id`, if there is one.
    pub fn asset(&self, id: u16) -> (r: Option<&TableEntry>)
        requires
            self.wf(),
        ensures
            r is Some <==> id < self.asset_table().len(),
            r matches Some(e) ==> e.id == id && e.type_key == self.asset_table()[id as int].0,
    {
        self.assets.get(id)
    }

    /// The resource kind with table id `id`, if there is one.
    pub fn resource(&self, id: u16) -> (r: Option<&TableEntry>)
        requires
            self.wf(),
        ensures
            r is Some <==> id < self.resource_table().len(),
            r matches Some(e) ==> e.id == id && e.type_key == self.resource_table()[id as int].0,
    {
        self.resources.get(id)
    }
}

/// A well-formed table holds no key twice.
pub proof fn lemma_table_keys_distinct(t: &Table)
    requires
        t.wf(),
    ensures
        distinct_keys(t@),
{
}

/// Registering a kind that is not yet there, twice: the first registration
/// appends it at the end of its table, so its table id is the number of
/// kinds registered before it, and the key is then registered; the second
/// registration therefore leaves the table as it is (see `register`).
pub proof fn lemma_register_new_kind(t: Seq<(u64, Seq<char>)>, key: u64, name: Seq<char>)
    requires
        !has_key(t, key),
    ensures
        t.push((key, name)).len() == t.len() + 1,
        t.push((key, name))[t.len() as int] == (key, name),
        has_key(t.push((key, name)), key),
        distinct_keys(t) ==> distinct_keys(t.push((key, name))),
{
    let u = t.push((key, name));
    assert(u[t.len() as int].0 == key);
    if distinct_keys(t) {
        assert forall|i: int, j: int| 0 <= i < j < u.len() implies #[trigger] u[i].0
            != #[trigger] u[j].0 by {
            if j == t.len() {
                assert(u[i] == t[i]);
            } else {
                assert(u[i] == t[i] && u[j] == t[j]);
            }
        }
    }
}

} // verus!
