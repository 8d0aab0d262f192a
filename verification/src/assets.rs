//! Remote asset ids mapped to the render process's own assets.
//!
//! Asset ids are process-local too.  The reader keeps, per asset kind, the
//! local asset that stands for each remote one.  A remote id that is used
//! before its value arrives gets a placeholder, which the value later fills.
//! Ids are held as 128-bit keys.
use std::collections::HashMap;
use vstd::prelude::*;

verus! {

broadcast use vstd::std_specs::hash::group_hash_axioms;

/// Remote asset ids mapped to local ones.
pub struct AssetRemap {
    map: HashMap<u128, u128>,
}

/// What to do with the value of a remote asset.
#[derive(PartialEq, Eq, Structural, Debug, Clone, Copy)]
pub enum AssetUpdate {
    /// Store the value under this local id, which already stands for it.
    Replace { local: u128 },
    /// Add the value as a new local asset and record it with
    /// `AssetRemap::record`.
    AddNew,
}

impl View for AssetRemap {
    type V = Map<u128, u128>;

    closed spec fn view(&self) -> Map<u128, u128> {
        self.map@
    }
}

impl AssetRemap {
    pub fn new() -> (r: Self)
        ensures
            r@ == Map::<u128, u128>::empty(),
    {
        AssetRemap { map: HashMap::new() }
    }

    /// The local id of `remote`, if it has one.
    pub fn remap_to_local(&self, remote: u128) -> (r: Option<u128>)
        ensures
            r == (if self@.contains_key(remote) {
                Some(self@[remote])
            } else {
                None
            }),
    {
        match self.map.get(&remote) {
            Some(local) => Some(*local),
            None => None,
        }
    }

    /// The local id of `remote`; where it has none, `placeholder`, a fresh
    /// id, is reserved for it.
    pub fn remap_to_local_or_reserve(&mut self, remote: u128, placeholder: u128) -> (local: u128)
        ensures
            old(self)@.contains_key(remote) ==> local == old(self)@[remote] && final(self)@ == old(
                self,
            )@,
            !old(self)@.contains_key(remote) ==> local == placeholder && final(self)@ == old(
                self,
            )@.insert(remote, placeholder),
    {
        match self.map.get(&remote) {
            Some(local) => *local,
            None => {
                self.map.insert(remote, placeholder);
                placeholder
            },
        }
    }

    /// The local id of a remote font id: the default font's id stands for
    /// the default font on both sides and is never mapped; any other id is
    /// mapped as `remap_to_local_or_reserve` maps it.
    pub fn remap_font_to_local_or_reserve(&mut self, remote: u128, default_id: u128, placeholder: u128)
        -> (local: u128)
        ensures
            remote == default_id ==> local == default_id && final(self)@ == old(self)@,
            remote != default_id && old(self)@.contains_key(remote) ==> local == old(self)@[remote]
                && final(self)@ == old(self)@,
            remote != default_id && !old(self)@.contains_key(remote) ==> local == placeholder
                && final(self)@ == old(self)@.insert(remote, placeholder),
    {
        if remote == default_id {
            return default_id;
        }
        self.remap_to_local_or_reserve(remote, placeholder)
    }

    /// Where the value of `remote` goes: the local asset that stands for it,
    /// or a new one.
    pub fn set_mapping(&self, remote: u128) -> (u: AssetUpdate)
        ensures
            self@.contains_key(remote) ==> u == (AssetUpdate::Replace { local: self@[remote] }),
            !self@.contains_key(remote) ==> u == AssetUpdate::AddNew,
    {
        match self.map.get(&remote) {
            Some(local) => AssetUpdate::Replace { local: *local },
            None => AssetUpdate::AddNew,
        }
    }

    /// Record `local`, the new asset that holds the value of `remote`.
    pub fn record(&mut self, remote: u128, local: u128)
        ensures
            final(self)@ == old(self)@.insert(remote, local),
    {
        self.map.insert(remote, local);
    }

    /// Forget `remote`, giving back the local asset to remove.
    pub fn clear_mapping(&mut self, remote: u128) -> (r: Option<u128>)
        ensures
            r == (if old(self)@.contains_key(remote) {
                Some(old(self)@[remote])
            } else {
                None
            }),
            final(self)@ == old(self)@.remove(remote),
    {
        self.map.remove(&remote)
    }
}

/// A placeholder is stable, and the value that arrives later fills it:
/// reserving an unknown remote id twice gives the same local id, and the
/// value of that remote id then goes to it.
pub proof fn lemma_placeholder_is_filled(m: Map<u128, u128>, remote: u128, placeholder: u128)
    requires
        !m.contains_key(remote),
    ensures
        m.insert(remote, placeholder).contains_key(remote),
        m.insert(remote, placeholder)[remote] == placeholder,
        m.insert(remote, placeholder).insert(remote, placeholder) == m.insert(remote, placeholder),
{
    assert(m.insert(remote, placeholder).insert(remote, placeholder) =~= m.insert(
        remote,
        placeholder,
    ));
}

} // verus!
