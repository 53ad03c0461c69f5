//! Hash-backed containers of the block table, each held behind a thin wrapper
//! whose contents are specified as a mathematical `Map` or `Set`. The wrappers
//! are the only trusted boundary to the hash-map crate: everything above them
//! is verified against these contracts.
//!
//! Declaring the hash-map type itself to the verifier is not possible: its
//! allocator parameter is bounded by a trait that the crate does not export
//! (`Allocator` is crate-private there), so each container is instead a struct
//! of this library whose single hidden field holds the collection.

use vstd::prelude::*;

verus! {

/// What a [`GroupMap`] holds: the mapping from `(virtual address, ISA mode)`
/// pairs to block-store index ranges `(start, end)`.
pub uninterp spec fn group_map_contents(m: GroupMap) -> Map<(u64, u64), (usize, usize)>;

/// What an [`AddrSet`] holds: a set of virtual addresses.
pub uninterp spec fn addr_set_contents(s: AddrSet) -> Set<u64>;

/// What an [`IndexSet`] holds: a set of block-store indices.
pub uninterp spec fn index_set_contents(s: IndexSet) -> Set<usize>;

/// What a [`DisasmMap`] holds: the mapping from virtual addresses to cached
/// disassembly text.
pub uninterp spec fn disasm_map_contents(m: DisasmMap) -> Map<u64, Seq<char>>;

/// The lookup map of the translation cache: `(virtual address, ISA mode)`
/// keys to `(start, end)` block-store index ranges.
#[verifier::external_body]
pub struct GroupMap {
    inner: hashbrown::HashMap<(u64, u64), (usize, usize)>,
}

impl GroupMap {
    /// Relies on hashbrown::HashMap::new: a fresh map holds no entries.
    #[verifier::external_body]
    pub(crate) fn new() -> (r: GroupMap)
        ensures
            (group_map_contents(r) == Map::<(u64, u64), (usize, usize)>::empty()),
    {
        GroupMap { inner: hashbrown::HashMap::new() }
    }

    /// Relies on hashbrown::HashMap::insert: after the call the map holds `v`
    /// under `k` and is otherwise unchanged; tuple keys compare by their
    /// fields.
    #[verifier::external_body]
    pub(crate) fn insert(&mut self, k: (u64, u64), v: (usize, usize))
        ensures
            group_map_contents(*final(self)) == group_map_contents(*old(self)).insert(k, v),
    {
        self.inner.insert(k, v);
    }

    /// Relies on hashbrown::HashMap::get: returns the value stored under `k`,
    /// and nothing when `k` is absent.
    #[verifier::external_body]
    pub(crate) fn get(&self, k: (u64, u64)) -> (r: Option<(usize, usize)>)
        ensures
            r == if group_map_contents(*self).contains_key(k) {
                Some(group_map_contents(*self)[k])
            } else {
                None::<(usize, usize)>
            },
    {
        self.inner.get(&k).copied()
    }

    /// Relies on hashbrown::HashMap::clear: after the call the map holds no
    /// entries.
    #[verifier::external_body]
    pub(crate) fn clear(&mut self)
        ensures
            (group_map_contents(*final(self)) == Map::<(u64, u64), (usize, usize)>::empty()),
    {
        self.inner.clear();
    }
}

/// A set of virtual addresses; the block table uses one for its breakpoints.
#[verifier::external_body]
pub struct AddrSet {
    inner: hashbrown::HashSet<u64>,
}

impl AddrSet {
    /// Relies on hashbrown::HashSet::new: a fresh set is empty.
    #[verifier::external_body]
    pub(crate) fn new() -> (r: AddrSet)
        ensures
            addr_set_contents(r) == Set::<u64>::empty(),
    {
        AddrSet { inner: hashbrown::HashSet::new() }
    }

    /// Relies on hashbrown::HashSet::insert: after the call the set contains
    /// `a` and is otherwise unchanged.
    #[verifier::external_body]
    pub(crate) fn insert(&mut self, a: u64)
        ensures
            addr_set_contents(*final(self)) == addr_set_contents(*old(self)).insert(a),
    {
        self.inner.insert(a);
    }

    /// Relies on hashbrown::HashSet::remove: after the call the set does not
    /// contain `a` and is otherwise unchanged.
    #[verifier::external_body]
    pub(crate) fn remove(&mut self, a: u64)
        ensures
            addr_set_contents(*final(self)) == addr_set_contents(*old(self)).remove(a),
    {
        self.inner.remove(&a);
    }

    /// Relies on hashbrown::HashSet::contains: membership test.
    #[verifier::external_body]
    pub(crate) fn contains(&self, a: u64) -> (r: bool)
        ensures
            r == addr_set_contents(*self).contains(a),
    {
        self.inner.contains(&a)
    }

    /// Relies on hashbrown::HashSet::clear: after the call the set is empty.
    #[verifier::external_body]
    pub(crate) fn clear(&mut self)
        ensures
            addr_set_contents(*final(self)) == Set::<u64>::empty(),
    {
        self.inner.clear();
    }
}

/// A set of block-store indices; the block table uses one for its
/// modified-code tracking.
#[verifier::external_body]
pub struct IndexSet {
    inner: hashbrown::HashSet<usize>,
}

impl IndexSet {
    /// Relies on hashbrown::HashSet::new: a fresh set is empty.
    #[verifier::external_body]
    pub(crate) fn new() -> (r: IndexSet)
        ensures
            index_set_contents(r) == Set::<usize>::empty(),
    {
        IndexSet { inner: hashbrown::HashSet::new() }
    }

    /// Relies on hashbrown::HashSet::insert: after the call the set contains
    /// `i` and is otherwise unchanged.
    #[verifier::external_body]
    pub(crate) fn insert(&mut self, i: usize)
        ensures
            index_set_contents(*final(self)) == index_set_contents(*old(self)).insert(i),
    {
        self.inner.insert(i);
    }

    /// Relies on hashbrown::HashSet::contains: membership test.
    #[verifier::external_body]
    pub(crate) fn contains(&self, i: usize) -> (r: bool)
        ensures
            r == index_set_contents(*self).contains(i),
    {
        self.inner.contains(&i)
    }

    /// Relies on hashbrown::HashSet::is_empty: emptiness test.
    #[verifier::external_body]
    pub(crate) fn is_empty(&self) -> (r: bool)
        ensures
            r == (index_set_contents(*self) == Set::<usize>::empty()),
    {
        self.inner.is_empty()
    }

    /// Relies on hashbrown::HashSet::clear: after the call the set is empty.
    #[verifier::external_body]
    pub(crate) fn clear(&mut self)
        ensures
            index_set_contents(*final(self)) == Set::<usize>::empty(),
    {
        self.inner.clear();
    }
}

/// The disassembly-text cache: virtual addresses to rendered text.
#[verifier::external_body]
pub struct DisasmMap {
    inner: hashbrown::HashMap<u64, String>,
}

impl DisasmMap {
    /// Relies on hashbrown::HashMap::new: a fresh map holds no entries.
    #[verifier::external_body]
    pub(crate) fn new() -> (r: DisasmMap)
        ensures
            (disasm_map_contents(r) == Map::<u64, Seq<char>>::empty()),
    {
        DisasmMap { inner: hashbrown::HashMap::new() }
    }

    /// Relies on hashbrown::HashMap::insert: after the call the map holds
    /// `text` under `addr` and is otherwise unchanged.
    #[verifier::external_body]
    pub(crate) fn insert(&mut self, addr: u64, text: String)
        ensures
            disasm_map_contents(*final(self)) == disasm_map_contents(*old(self)).insert(addr, text@),
    {
        self.inner.insert(addr, text);
    }

    /// Relies on hashbrown::HashMap::get: returns a copy of the text stored
    /// under `addr`, and nothing when `addr` is absent.
    #[verifier::external_body]
    pub(crate) fn get(&self, addr: u64) -> (r: Option<String>)
        ensures
            r matches Some(text) ==> disasm_map_contents(*self).contains_key(addr)
                && disasm_map_contents(*self)[addr] == text@,
            r is None ==> !disasm_map_contents(*self).contains_key(addr),
    {
        self.inner.get(&addr).cloned()
    }

    /// Relies on hashbrown::HashMap::clear: after the call the map holds no
    /// entries.
    #[verifier::external_body]
    pub(crate) fn clear(&mut self)
        ensures
            (disasm_map_contents(*final(self)) == Map::<u64, Seq<char>>::empty()),
    {
        self.inner.clear();
    }
}

} // verus!
