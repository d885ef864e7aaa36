//! Persistent substrate: the stable memory, the identifier cell and the
//! stable B-tree map that holds the books. Every item here is a thin
//! wrapper over `ic_stable_structures`; the logic lives in `store`.
use ic_stable_structures::memory_manager::{MemoryId, MemoryManager, VirtualMemory};
use ic_stable_structures::{Cell, DefaultMemoryImpl, StableBTreeMap};
use vstd::prelude::*;

verus! {

/// What the table keeps for one identifier:
/// `((created_at, (updated, updated_at)), title, author)`, where `updated`
/// is 0 while the book was never updated. The leading pair has a fixed size,
/// so the map stores it without length prefixes.
pub type StoredBook = ((u64, (u64, u64)), String, String);

/// The mathematical value of a stored entry:
/// `(created_at, updated_at, title, author)`.
pub type StoredView = (u64, Option<u64>, Seq<char>, Seq<char>);

/// The update time that a stored `(updated, updated_at)` pair stands for.
pub open spec fn stored_update(u: (u64, u64)) -> Option<u64> {
    if u.0 == 0 {
        None
    } else {
        Some(u.1)
    }
}

pub open spec fn stored_view(v: StoredBook) -> StoredView {
    (v.0.0, stored_update(v.0.1), v.1@, v.2@)
}

/// The stable memory of the process, split into virtual regions.
/// (The memory types behind it differ by target, so the manager is held
/// in a field that Verus does not read.)
#[verifier::external_body]
pub struct StableMemory {
    manager: MemoryManager<DefaultMemoryImpl>,
}

/// One virtual region of the stable memory.
#[verifier::external_body]
pub struct MemoryRegion {
    memory: VirtualMemory<DefaultMemoryImpl>,
}

/// A persistent `u64` cell.
#[verifier::external_body]
pub struct IdCell {
    cell: Cell<u64, VirtualMemory<DefaultMemoryImpl>>,
}

/// A persistent ordered map from identifier to stored entry.
#[verifier::external_body]
pub struct BookTable {
    map: StableBTreeMap<u64, StoredBook, VirtualMemory<DefaultMemoryImpl>>,
}

/// The value held by a cell.
pub uninterp spec fn cell_value(c: IdCell) -> u64;

/// The entries held by a table.
pub uninterp spec fn table_contents(t: BookTable) -> Map<u64, StoredView>;

/// The number of pages a region holds; 0 for a region never written.
pub uninterp spec fn region_pages(m: MemoryRegion) -> u64;

impl StableMemory {
    /// Relies on `MemoryManager::init` over `DefaultMemoryImpl::default()`:
    /// opens the process's stable memory (a fresh vector off the canister).
    #[verifier::external_body]
    pub(crate) fn open() -> (r: StableMemory) {
        StableMemory { manager: MemoryManager::init(DefaultMemoryImpl::default()) }
    }

    /// Relies on `MemoryManager::get`: the virtual region with the given id.
    /// `MemoryId::new` asserts that the id is not 255, the marker of an
    /// unallocated bucket.
    #[verifier::external_body]
    pub(crate) fn region(&self, id: u8) -> (r: MemoryRegion)
        requires
            id != 255,
    {
        MemoryRegion { memory: self.manager.get(MemoryId::new(id)) }
    }
}

impl IdCell {
    /// Relies on `Cell::init`: loads the cell kept in `region`, or writes
    /// `default_value` there when the region holds none (in particular when
    /// it has no page); `None` when the region holds a cell of an
    /// incompatible layout, or cannot grow to hold the new one.
    #[verifier::external_body]
    pub(crate) fn init(region: MemoryRegion, default_value: u64) -> (r: Option<IdCell>)
        ensures
            r is Some && region_pages(region) == 0 ==> cell_value(r->Some_0) == default_value,
    {
        Cell::init(region.memory, default_value).ok().map(|cell| IdCell { cell })
    }

    /// Relies on `Cell::get`: the current value.
    #[verifier::external_body]
    pub(crate) fn get(&self) -> (r: u64)
        ensures
            r == cell_value(*self),
    {
        *self.cell.get()
    }

    /// Relies on `Cell::set`: stores `value` and hands back the previous one.
    /// `set` fails only when the encoded value does not fit the region and the
    /// region cannot grow; a created cell already owns at least one page, and
    /// the eight bytes of a `u64` always fit there.
    #[verifier::external_body]
    pub(crate) fn set(&mut self, value: u64) -> (r: u64)
        ensures
            r == cell_value(*old(self)),
            cell_value(*final(self)) == value,
    {
        self.cell.set(value).expect("a u64 always fits a created cell")
    }
}

impl BookTable {
    /// Relies on `StableBTreeMap::init`: loads the map kept in `region`, or
    /// creates an empty one when the region holds none (in particular when
    /// it has no page).
    #[verifier::external_body]
    pub(crate) fn init(region: MemoryRegion) -> (r: BookTable)
        ensures
            region_pages(region) == 0 ==> table_contents(r).is_empty(),
    {
        BookTable { map: StableBTreeMap::init(region.memory) }
    }

    /// Relies on `StableBTreeMap::get`: the entry at `key`, if any.
    #[verifier::external_body]
    pub(crate) fn get(&self, key: u64) -> (r: Option<StoredBook>)
        ensures
            match r {
                Some(v) => table_contents(*self).contains_key(key) && stored_view(v)
                    == table_contents(*self)[key],
                None => !table_contents(*self).contains_key(key),
            },
    {
        self.map.get(&key)
    }

    /// Relies on `StableBTreeMap::insert`: puts `value` at `key`, replacing
    /// any entry there, which it hands back.
    #[verifier::external_body]
    pub(crate) fn insert(&mut self, key: u64, value: StoredBook) -> (r: Option<StoredBook>)
        ensures
            table_contents(*final(self)) == table_contents(*old(self)).insert(
                key,
                stored_view(value),
            ),
            match r {
                Some(v) => table_contents(*old(self)).contains_key(key) && stored_view(v)
                    == table_contents(*old(self))[key],
                None => !table_contents(*old(self)).contains_key(key),
            },
    {
        self.map.insert(key, value)
    }

    /// Relies on `StableBTreeMap::remove`: takes out the entry at `key`, if
    /// any, and hands it back.
    #[verifier::external_body]
    pub(crate) fn remove(&mut self, key: u64) -> (r: Option<StoredBook>)
        ensures
            table_contents(*final(self)) == table_contents(*old(self)).remove(key),
            match r {
                Some(v) => table_contents(*old(self)).contains_key(key) && stored_view(v)
                    == table_contents(*old(self))[key],
                None => !table_contents(*old(self)).contains_key(key),
            },
    {
        self.map.remove(&key)
    }

    /// Relies on `StableBTreeMap::last_key_value`: the largest key, if any.
    #[verifier::external_body]
    pub(crate) fn last_key(&self) -> (r: Option<u64>)
        ensures
            match r {
                Some(k) => table_contents(*self).contains_key(k) && forall|j: u64|
                    #[trigger] table_contents(*self).contains_key(j) ==> j <= k,
                None => table_contents(*self).is_empty(),
            },
    {
        self.map.last_key_value().map(|e| e.0)
    }
}

} // verus!
