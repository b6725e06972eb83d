//! The generic four-level page-table engine.
//!
//! The engine is written once against [`GenericPTE`] and knows nothing of
//! any descriptor layout. Its tables live in a contiguous pool of frames
//! that starts at the root table's physical address; a table pointer holds
//! the frame address of the table it points to.
//!
//! Invalidation policy: a new mapping fills an unused entry, which no
//! translation cache can hold, so `map` asks for no invalidation. `unmap`
//! and `update_flags` change an entry that may be cached and always hand
//! back the invalidation sequence for the address, which the caller must
//! execute before relying on the change.
//!
//! `unmap` clears the entry that ends the translation and keeps the
//! intermediate tables, so a region that was mapped once can be mapped
//! again without allocation.
//!
//! The engine keeps the tables in memory of its own. Whoever owns the
//! frames writes each table, as `table` hands it out, to the frame that
//! `frame_paddr` names, where the hardware table walker reads it.

use vstd::prelude::*;
use core::marker::PhantomData;
use crate::consts::PAGE_SIZE;
use crate::memory::addr::{PhysAddr, VirtAddr};
use crate::memory::flags::MemFlags;
use crate::memory::paging::{
    GenericPTE,
    PageTableLevel,
    PagingError,
    PagingInstr,
    PagingOp,
    PagingResult,
    ENTRY_COUNT,
};
use crate::memory::tree::{spec_index_at, spec_is_link, spec_same_region, spec_terminal, TableTree};

verus! {

/// A table of unused entries.
fn fresh_table<E: GenericPTE>() -> (table: Vec<E>)
    ensures
        table@ =~= Seq::new(512, |j: int| E::spec_unused()),
{
    let mut table: Vec<E> = Vec::new();
    let mut n: usize = 0;
    while n < ENTRY_COUNT
        invariant
            n <= ENTRY_COUNT,
            table@.len() == n,
            forall|j: int| 0 <= j < n ==> table@[j] == E::spec_unused(),
        decreases ENTRY_COUNT - n,
    {
        table.push(E::unused());
        n = n + 1;
    }
    table
}

/// The read-only view of a translation tree. Lookups never write, so any
/// number of them may run on a shared reference.
pub struct Level4PageTableImmut<E: GenericPTE> {
    root: PhysAddr,
    tables: Vec<Vec<E>>,
    paths: Ghost<Seq<Seq<int>>>,
}

impl<E: GenericPTE> View for Level4PageTableImmut<E> {
    type V = TableTree<E>;

    closed spec fn view(&self) -> TableTree<E> {
        TableTree {
            root: self.root,
            tables: Seq::new(self.tables@.len(), |t: int| self.tables@[t]@),
            paths: self.paths@,
        }
    }
}

impl<E: GenericPTE> Level4PageTableImmut<E> {
    /// The tree is well formed and every table has a frame address.
    pub open spec fn wf(&self) -> bool {
        &&& self@.wf()
        &&& self@.root + self@.tables.len() * PAGE_SIZE <= u64::MAX
    }

    /// Physical address of the root table.
    pub fn root_paddr(&self) -> (r: PhysAddr)
        ensures
            r == self@.root,
    {
        self.root
    }

    /// Number of tables in the tree, the root included.
    pub fn table_count(&self) -> (r: usize)
        ensures
            r == self@.tables.len(),
    {
        self.tables.len()
    }

    /// Physical address of the frame that holds table `index`.
    pub fn frame_paddr(&self, index: usize) -> (r: PhysAddr)
        requires
            self.wf(),
            index < self@.tables.len(),
        ensures
            r == self@.root + index * PAGE_SIZE,
    {
        let count: usize = self.tables.len();
        self.root + (index as u64) * PAGE_SIZE
    }

    /// The entries of table `index`, in the order in which they lie in its
    /// frame.
    pub fn table(&self, index: usize) -> (r: &[E])
        requires
            index < self@.tables.len(),
        ensures
            r@ == self@.tables[index as int],
    {
        self.tables[index].as_slice()
    }

    /// The table and the distance from the root at which the walk of
    /// `vaddr` ends.
    fn find_slot(&self, vaddr: VirtAddr) -> (r: PagingResult<(usize, usize)>)
        requires
            self.wf(),
        ensures
            match r {
                Ok((t, d)) => {
                    &&& d <= 3
                    &&& t < self.tables@.len()
                    &&& self@.table_at(vaddr, d as nat) == Some(t as int)
                    &&& !self@.tables[t as int][spec_index_at(vaddr, d as nat)].spec_is_unused()
                    &&& d >= 3 || self@.tables[t as int][spec_index_at(
                        vaddr,
                        d as nat,
                    )].spec_is_leaf()
                    &&& self@.lookup(vaddr) == Ok::<(E, PageTableLevel), PagingError>(
                        (
                            self@.tables[t as int][spec_index_at(vaddr, d as nat)],
                            PageTableLevel::spec_from_depth(d as nat),
                        ),
                    )
                },
                Err(e) => self@.lookup(vaddr) == Err::<(E, PageTableLevel), PagingError>(e),
            },
    {
        let mut t: usize = 0;
        let mut d: usize = 0;
        loop
            invariant
                self.wf(),
                d <= 3,
                self@.table_at(vaddr, d as nat) == Some(t as int),
                self@.lookup(vaddr) == self@.lookup_at(vaddr, d as nat),
            decreases 3 - d,
        {
            proof {
                self@.lemma_reach(vaddr, d as nat);
            }
            let level = PageTableLevel::from_depth(d);
            let i = level.index(vaddr);
            let e = self.tables[t][i];
            if e.is_unused() {
                return Err(PagingError::NotMapped);
            }
            if d >= 3 || e.is_leaf() {
                return Ok((t, d));
            }
            if !e.is_present() {
                return Err(PagingError::NotMapped);
            }
            assert(spec_is_link(self@.tables[t as int][i as int]));
            assert(self@.link_ok(t as int, i as int));
            let child: u64 = (e.addr() - self.root) / PAGE_SIZE;
            assert(child as int == self@.child(e));
            assert(self@.table_at(vaddr, (d + 1) as nat) == Some(child as int));
            let count: usize = self.tables.len();
            assert(child < count);
            t = child as usize;
            d = d + 1;
        }
    }

    /// Walks the tree as the hardware would and returns the entry that ends
    /// the translation of `vaddr` with the level of its table. A miss is an
    /// error; nothing is allocated.
    pub fn lookup(&self, vaddr: VirtAddr) -> (r: PagingResult<(E, PageTableLevel)>)
        requires
            self.wf(),
        ensures
            r == self@.lookup(vaddr),
    {
        match self.find_slot(vaddr) {
            Ok((t, d)) => {
                let level = PageTableLevel::from_depth(d);
                let i = level.index(vaddr);
                Ok((self.tables[t][i], level))
            },
            Err(e) => Err(e),
        }
    }

    /// The table and the distance from the root of the first unused entry
    /// on the way to the entry that translates `vaddr` at distance `target`.
    fn probe(&self, vaddr: VirtAddr, target: usize) -> (r: PagingResult<(usize, usize)>)
        requires
            self.wf(),
            target <= 3,
        ensures
            match r {
                Ok((t, d)) => {
                    &&& d <= target
                    &&& t < self.tables@.len()
                    &&& self@.table_at(vaddr, d as nat) == Some(t as int)
                    &&& self@.tables[t as int][spec_index_at(vaddr, d as nat)].spec_is_unused()
                    &&& self@.probe_at(vaddr, target as nat, 0) == Ok::<nat, PagingError>(d as nat)
                },
                Err(e) => self@.probe_at(vaddr, target as nat, 0) == Err::<nat, PagingError>(e),
            },
    {
        let mut t: usize = 0;
        let mut d: usize = 0;
        loop
            invariant
                self.wf(),
                d <= target <= 3,
                self@.table_at(vaddr, d as nat) == Some(t as int),
                self@.probe_at(vaddr, target as nat, 0) == self@.probe_at(
                    vaddr,
                    target as nat,
                    d as nat,
                ),
            decreases 3 - d,
        {
            proof {
                self@.lemma_reach(vaddr, d as nat);
            }
            let level = PageTableLevel::from_depth(d);
            let i = level.index(vaddr);
            let e = self.tables[t][i];
            if e.is_unused() {
                return Ok((t, d));
            }
            if d >= target {
                return Err(PagingError::AlreadyMapped);
            }
            if e.is_leaf() {
                return Err(PagingError::MappedToHugePage);
            }
            if !e.is_present() {
                return Err(PagingError::NotMapped);
            }
            assert(spec_is_link(self@.tables[t as int][i as int]));
            assert(self@.link_ok(t as int, i as int));
            let child: u64 = (e.addr() - self.root) / PAGE_SIZE;
            assert(child as int == self@.child(e));
            assert(self@.table_at(vaddr, (d + 1) as nat) == Some(child as int));
            let count: usize = self.tables.len();
            assert(child < count);
            t = child as usize;
            d = d + 1;
        }
    }
}

/// The physical address of frame `k` of the pool that starts at `root`.
pub open spec fn spec_frame_addr(root: PhysAddr, k: nat) -> int {
    root + k * PAGE_SIZE
}

/// Whether a pool of `capacity` frames at `root` lies within the address
/// space and the descriptor format `E` can point to each of its frames.
pub open spec fn spec_pool_fits<E: GenericPTE>(root: PhysAddr, capacity: nat) -> bool {
    &&& root + capacity * PAGE_SIZE <= u64::MAX
    &&& forall|k: nat|
        k < capacity ==> E::spec_addr_fits((#[trigger] spec_frame_addr(root, k)) as u64)
}

/// The descriptor of a mapping to `paddr` with `flags` at `level`: a page
/// descriptor at the last level and a block descriptor above it.
pub open spec fn spec_leaf<E: GenericPTE>(paddr: PhysAddr, flags: MemFlags, level: PageTableLevel) -> E {
    E::spec_unused().spec_set_addr(paddr).spec_set_flags(flags, level != PageTableLevel::L1)
}

/// Whether `map` accepts a request on a tree with room for `capacity`
/// tables, and if not, why. The conditions are tried in this order: a block
/// at the root level; a virtual or physical address that is not a multiple
/// of the size mapped at the level; a physical address that the descriptor
/// cannot hold; an obstacle on the walk; too few free frames for the
/// missing tables.
pub open spec fn spec_map_result<E: GenericPTE>(
    tree: TableTree<E>,
    capacity: nat,
    vaddr: VirtAddr,
    paddr: PhysAddr,
    level: PageTableLevel,
) -> PagingResult<()> {
    if level == PageTableLevel::L4 {
        Err(PagingError::HugeNotAllowed)
    } else if !level.spec_is_aligned(vaddr) || !level.spec_is_aligned(paddr) {
        Err(PagingError::NotAligned)
    } else if E::spec_unused().spec_set_addr(paddr).spec_addr() != paddr {
        Err(PagingError::OutOfRange)
    } else {
        match tree.probe_at(vaddr, level.spec_depth(), 0) {
            Err(e) => Err(e),
            Ok(d) => if tree.tables.len() + (level.spec_depth() - d) > capacity {
                Err(PagingError::NoMemory)
            } else {
                Ok(())
            },
        }
    }
}

/// A translation tree with exclusive access: the owner of the tables, on
/// which mappings are made, changed and removed. `I` names the paging
/// instructions of the architecture and stage that walks the tree.
pub struct Level4PageTableUnlocked<E: GenericPTE, I: PagingInstr> {
    inner: Level4PageTableImmut<E>,
    capacity: usize,
    _phantom: PhantomData<I>,
}

impl<E: GenericPTE, I: PagingInstr> View for Level4PageTableUnlocked<E, I> {
    type V = TableTree<E>;

    closed spec fn view(&self) -> TableTree<E> {
        self.inner@
    }
}

impl<E: GenericPTE, I: PagingInstr> Level4PageTableUnlocked<E, I> {
    /// Number of frames in the pool that holds the tables.
    pub closed spec fn spec_capacity(&self) -> nat {
        self.capacity as nat
    }

    /// The tree is well formed, its tables fit the pool, and every frame of
    /// the pool can be pointed to.
    pub open spec fn wf(&self) -> bool {
        &&& self@.wf()
        &&& self@.tables.len() <= self.spec_capacity()
        &&& spec_pool_fits::<E>(self@.root, self.spec_capacity())
    }

    /// Why no tree can be made in a pool of `capacity` frames at `root`, if
    /// none can.
    pub open spec fn spec_new_error(root: PhysAddr, capacity: nat) -> Option<PagingError> {
        if capacity == 0 {
            Some(PagingError::NoMemory)
        } else if root % PAGE_SIZE != 0 {
            Some(PagingError::NotAligned)
        } else if !spec_pool_fits::<E>(root, capacity) {
            Some(PagingError::OutOfRange)
        } else {
            None
        }
    }

    /// An empty tree whose root table lies at `root` and whose tables may
    /// fill `capacity` frames from there on.
    pub fn new(root: PhysAddr, capacity: usize) -> (r: PagingResult<Self>)
        ensures
            match r {
                Ok(pt) => {
                    &&& Self::spec_new_error(root, capacity as nat) is None
                    &&& pt.wf()
                    &&& pt@ == TableTree::<E>::spec_empty(root)
                    &&& pt.spec_capacity() == capacity
                    &&& forall|v: VirtAddr| #[trigger]
                        pt@.lookup(v) == Err::<(E, PageTableLevel), PagingError>(
                            PagingError::NotMapped,
                        )
                },
                Err(e) => Self::spec_new_error(root, capacity as nat) == Some(e),
            },
    {
        if capacity == 0 {
            return Err(PagingError::NoMemory);
        }
        if root % PAGE_SIZE != 0 {
            return Err(PagingError::NotAligned);
        }
        if capacity as u64 > (u64::MAX - root) / PAGE_SIZE {
            return Err(PagingError::OutOfRange);
        }
        let mut k: usize = 0;
        while k < capacity
            invariant
                1 <= capacity,
                k <= capacity,
                root % PAGE_SIZE == 0,
                root + capacity * PAGE_SIZE <= u64::MAX,
                forall|j: nat| j < k ==> E::spec_addr_fits((#[trigger] spec_frame_addr(root, j)) as u64),
            decreases capacity - k,
        {
            let mut scratch = E::unused();
            let frame: u64 = root + (k as u64) * PAGE_SIZE;
            assert(frame == spec_frame_addr(root, k as nat));
            match scratch.set_table(frame, PageTableLevel::L3, true) {
                Ok(_) => {},
                Err(_) => {
                    assert(!E::spec_addr_fits(spec_frame_addr(root, k as nat) as u64));
                    return Err(PagingError::OutOfRange);
                },
            }
            k = k + 1;
        }
        let mut tables: Vec<Vec<E>> = Vec::new();
        tables.push(fresh_table::<E>());
        let paths: Ghost<Seq<Seq<int>>> = Ghost(Seq::<Seq<int>>::empty().push(Seq::<int>::empty()));
        let inner = Level4PageTableImmut { root, tables, paths };
        let pt = Level4PageTableUnlocked { inner, capacity, _phantom: PhantomData };
        proof {
            assert(pt@.tables =~~= TableTree::<E>::spec_empty(root).tables);
            assert forall|v: VirtAddr| #[trigger]
                pt@.lookup(v) == Err::<(E, PageTableLevel), PagingError>(
                    PagingError::NotMapped,
                ) by {
                TableTree::<E>::lemma_empty(root, v);
            }
            TableTree::<E>::lemma_empty(root, 0);
        }
        Ok(pt)
    }

    /// The read-only view of the tree.
    pub fn immut(&self) -> (r: &Level4PageTableImmut<E>)
        requires
            self.wf(),
        ensures
            r@ == self@,
            r.wf(),
    {
        &self.inner
    }

    /// Physical address of the root table.
    pub fn root_paddr(&self) -> (r: PhysAddr)
        ensures
            r == self@.root,
    {
        self.inner.root
    }

    /// Number of frames in the pool that holds the tables.
    pub fn capacity(&self) -> (r: usize)
        ensures
            r == self.spec_capacity(),
    {
        self.capacity
    }

    /// Number of tables in the tree, the root included.
    pub fn table_count(&self) -> (r: usize)
        ensures
            r == self@.tables.len(),
    {
        self.inner.tables.len()
    }

    /// The entry that ends the translation of `vaddr` and the level of its
    /// table.
    pub fn lookup(&self, vaddr: VirtAddr) -> (r: PagingResult<(E, PageTableLevel)>)
        requires
            self.wf(),
        ensures
            r == self@.lookup(vaddr),
    {
        self.inner.lookup(vaddr)
    }

    /// The instruction sequence that makes this tree the active one.
    pub fn activate(&self) -> (ops: Vec<PagingOp>)
        ensures
            ops@ == I::spec_activate(self@.root),
    {
        I::activate(self.inner.root)
    }

    /// The instruction sequence that invalidates the cached translation of
    /// `vaddr`, or every cached translation for `None`.
    pub fn flush(&self, vaddr: Option<VirtAddr>) -> (ops: Vec<PagingOp>)
        ensures
            ops@ == I::spec_flush(vaddr),
    {
        I::flush(vaddr)
    }

    /// Hangs a new empty table under the unused entry that the walk of
    /// `vaddr` reads in table `t` at distance `d`, and returns the new
    /// table's index.
    fn link_table(&mut self, vaddr: VirtAddr, t: usize, d: usize) -> (c: usize)
        requires
            old(self).wf(),
            d < 3,
            old(self)@.table_at(vaddr, d as nat) == Some(t as int),
            old(self)@.tables[t as int][spec_index_at(vaddr, d as nat)].spec_is_unused(),
            old(self)@.tables.len() < old(self).spec_capacity(),
        ensures
            final(self).wf(),
            final(self).spec_capacity() == old(self).spec_capacity(),
            final(self)@.root == old(self)@.root,
            final(self)@.tables.len() == old(self)@.tables.len() + 1,
            c == old(self)@.tables.len(),
            final(self)@.table_at(vaddr, (d + 1) as nat) == Some(c as int),
            final(self)@.tables[c as int][spec_index_at(vaddr, (d + 1) as nat)].spec_is_unused(),
            forall|v: VirtAddr| #[trigger] final(self)@.lookup(v) == old(self)@.lookup(v),
    {
        let ghost before = self@;
        proof {
            before.lemma_reach(vaddr, d as nat);
            E::lemma_unused();
        }
        let i = PageTableLevel::from_depth(d).index(vaddr);
        let c: usize = self.inner.tables.len();
        assert(E::spec_addr_fits(spec_frame_addr(before.root, c as nat) as u64));
        let frame: u64 = self.inner.root + (c as u64) * PAGE_SIZE;
        let mut e = E::unused();
        let linked = e.set_table(frame, PageTableLevel::from_depth(d + 1), true);
        assert(linked is Ok);
        proof {
            E::lemma_set_table(E::spec_unused(), frame, PageTableLevel::spec_from_depth((d + 1) as nat), true);
        }
        self.inner.tables.push(fresh_table::<E>());
        self.inner.tables[t][i] = e;
        proof {
            self.inner.paths@ = before.paths.push(before.paths[t as int].push(i as int));
            let target = before.with_table(t as int, i as int).with_entry(t as int, i as int, e);
            assert(self@.tables =~~= target.tables);
            assert(self@ == target);
            before.lemma_with_table_wf(t as int, i as int, e);
            assert forall|v: VirtAddr| #[trigger] self@.lookup(v) == before.lookup(v) by {
                before.lemma_link(self@, vaddr, d as nat, v);
            }
            before.lemma_link(self@, vaddr, d as nat, vaddr);
            assert forall|k: nat| k < self.spec_capacity() implies E::spec_addr_fits(
                (#[trigger] spec_frame_addr(self@.root, k)) as u64,
            ) by {
                assert(spec_frame_addr(self@.root, k) == spec_frame_addr(before.root, k));
            }
        }
        c
    }

    /// Maps the block or page of `level` at `vaddr` to `paddr` with `flags`.
    ///
    /// Tables that are missing on the way are taken from the pool, one for
    /// each level between the first unused entry on the walk and the level
    /// of the mapping. A request that is rejected changes nothing: whether
    /// the pool has room for the missing tables is settled before the first
    /// of them is made.
    /// After success the addresses of the mapped region, and no others,
    /// translate through the new descriptor, which holds `paddr` exactly and
    /// reads back `flags` whenever the descriptor format encodes them
    /// without loss.
    pub fn map(&mut self, vaddr: VirtAddr, paddr: PhysAddr, flags: MemFlags, level: PageTableLevel) -> (r:
        PagingResult<()>)
        requires
            old(self).wf(),
        ensures
            final(self).wf(),
            final(self).spec_capacity() == old(self).spec_capacity(),
            final(self)@.root == old(self)@.root,
            r == spec_map_result::<E>(old(self)@, old(self).spec_capacity(), vaddr, paddr, level),
            r is Err ==> final(self)@ == old(self)@,
            r is Ok ==> forall|v: VirtAddr| #[trigger]
                final(self)@.lookup(v) == if spec_same_region(level, vaddr, v) {
                    Ok::<(E, PageTableLevel), PagingError>(
                        (spec_leaf::<E>(paddr, flags, level), level),
                    )
                } else {
                    old(self)@.lookup(v)
                },
            r is Ok ==> spec_leaf::<E>(paddr, flags, level).spec_addr() == paddr,
            r is Ok && E::spec_lossless(flags) ==> spec_leaf::<E>(paddr, flags, level).spec_flags()
                == flags,
            r is Ok ==> final(self)@.tables.len() == old(self)@.tables.len() + level.spec_depth()
                - old(self)@.probe_at(vaddr, level.spec_depth(), 0).unwrap(),
    {
        let ghost before = self@;
        let target = level.depth();
        if target == 0 {
            return Err(PagingError::HugeNotAllowed);
        }
        if !level.is_aligned(vaddr) || !level.is_aligned(paddr) {
            return Err(PagingError::NotAligned);
        }
        let mut leaf = E::unused();
        leaf.set_addr(paddr);
        if leaf.addr() != paddr {
            return Err(PagingError::OutOfRange);
        }
        let encoded = leaf.set_flags(flags, target < 3);
        assert(encoded is Ok);
        let (first, found) = match self.inner.probe(vaddr, target) {
            Ok(slot) => slot,
            Err(e) => {
                return Err(e);
            },
        };
        if target - found > self.capacity - self.inner.tables.len() {
            return Err(PagingError::NoMemory);
        }
        let mut t: usize = first;
        let mut d: usize = found;
        while d < target
            invariant
                self.wf(),
                self.spec_capacity() == old(self).spec_capacity(),
                self@.root == before.root,
                d <= target <= 3,
                self@.table_at(vaddr, d as nat) == Some(t as int),
                self@.tables[t as int][spec_index_at(vaddr, d as nat)].spec_is_unused(),
                self@.tables.len() + (target - d) <= self.spec_capacity(),
                self@.tables.len() - d == before.tables.len() - found,
                found <= d,
                forall|v: VirtAddr| #[trigger] self@.lookup(v) == before.lookup(v),
            decreases target - d,
        {
            t = self.link_table(vaddr, t, d);
            d = d + 1;
        }
        proof {
            E::lemma_set_flags(E::spec_unused().spec_set_addr(paddr), flags, target < 3);
        }
        self.write_slot(vaddr, t, d, leaf);
        Ok(())
    }

    /// Replaces the entry that the walk of `vaddr` reads in table `t` at
    /// distance `d` by `e`, an entry that ends a walk or an unused one.
    fn write_slot(&mut self, vaddr: VirtAddr, t: usize, d: usize, e: E)
        requires
            old(self).wf(),
            d <= 3,
            old(self)@.table_at(vaddr, d as nat) == Some(t as int),
            e.spec_is_unused() || d >= 3 || e.spec_is_leaf(),
        ensures
            final(self).wf(),
            final(self).spec_capacity() == old(self).spec_capacity(),
            final(self)@.root == old(self)@.root,
            final(self)@.tables.len() == old(self)@.tables.len(),
            forall|v: VirtAddr| #[trigger]
                final(self)@.lookup(v) == if spec_same_region(
                    PageTableLevel::spec_from_depth(d as nat),
                    vaddr,
                    v,
                ) {
                    spec_terminal(e, d as nat)
                } else {
                    old(self)@.lookup(v)
                },
    {
        let ghost before = self@;
        proof {
            before.lemma_reach(vaddr, d as nat);
            assert(before.tables[t as int].len() == 512);
        }
        let i = PageTableLevel::from_depth(d).index(vaddr);
        self.inner.tables[t][i] = e;
        proof {
            let target = before.with_entry(t as int, i as int, e);
            assert(self@.tables =~~= target.tables);
            assert(self@ == target);
            before.lemma_with_entry_wf(t as int, i as int, e);
            assert forall|v: VirtAddr| #[trigger]
                self@.lookup(v) == if spec_same_region(
                    PageTableLevel::spec_from_depth(d as nat),
                    vaddr,
                    v,
                ) {
                    spec_terminal(e, d as nat)
                } else {
                    before.lookup(v)
                } by {
                before.lemma_write(self@, vaddr, d as nat, v);
            }
            assert forall|k: nat| k < self.spec_capacity() implies E::spec_addr_fits(
                (#[trigger] spec_frame_addr(self@.root, k)) as u64,
            ) by {
                assert(spec_frame_addr(self@.root, k) == spec_frame_addr(before.root, k));
            }
        }
    }

    /// Removes the mapping that translates `vaddr` and returns the physical
    /// address it mapped to, the level of the mapping, and the instruction
    /// sequence that invalidates the address. The tables above the mapping
    /// stay in place.
    pub fn unmap(&mut self, vaddr: VirtAddr) -> (r: PagingResult<(PhysAddr, PageTableLevel, Vec<PagingOp>)>)
        requires
            old(self).wf(),
        ensures
            final(self).wf(),
            final(self).spec_capacity() == old(self).spec_capacity(),
            final(self)@.root == old(self)@.root,
            final(self)@.tables.len() == old(self)@.tables.len(),
            match r {
                Ok((paddr, level, ops)) => {
                    &&& old(self)@.lookup(vaddr) is Ok
                    &&& paddr == old(self)@.lookup(vaddr).unwrap().0.spec_addr()
                    &&& level == old(self)@.lookup(vaddr).unwrap().1
                    &&& ops@ == I::spec_flush(Some(vaddr))
                    &&& forall|v: VirtAddr| #[trigger]
                        final(self)@.lookup(v) == if spec_same_region(level, vaddr, v) {
                            Err::<(E, PageTableLevel), PagingError>(PagingError::NotMapped)
                        } else {
                            old(self)@.lookup(v)
                        }
                },
                Err(e) => {
                    &&& old(self)@.lookup(vaddr) == Err::<(E, PageTableLevel), PagingError>(e)
                    &&& final(self)@ == old(self)@
                },
            },
    {
        let (t, d) = match self.inner.find_slot(vaddr) {
            Ok(slot) => slot,
            Err(e) => {
                return Err(e);
            },
        };
        let level = PageTableLevel::from_depth(d);
        let i = level.index(vaddr);
        let mut entry = self.inner.tables[t][i];
        let paddr = entry.addr();
        entry.clear();
        proof {
            E::lemma_unused();
        }
        self.write_slot(vaddr, t, d, entry);
        Ok((paddr, level, I::flush(Some(vaddr))))
    }

    /// Replaces the attributes of the mapping that translates `vaddr` by
    /// `flags` and returns the instruction sequence that invalidates the
    /// address. The physical address and the level of the mapping stay.
    pub fn update_flags(&mut self, vaddr: VirtAddr, flags: MemFlags) -> (r: PagingResult<Vec<PagingOp>>)
        requires
            old(self).wf(),
        ensures
            final(self).wf(),
            final(self).spec_capacity() == old(self).spec_capacity(),
            final(self)@.root == old(self)@.root,
            final(self)@.tables.len() == old(self)@.tables.len(),
            match r {
                Ok(ops) => {
                    &&& old(self)@.lookup(vaddr) is Ok
                    &&& ops@ == I::spec_flush(Some(vaddr))
                    &&& forall|v: VirtAddr| #[trigger]
                        final(self)@.lookup(v) == if spec_same_region(
                            old(self)@.lookup(vaddr).unwrap().1,
                            vaddr,
                            v,
                        ) {
                            Ok::<(E, PageTableLevel), PagingError>(
                                (
                                    old(self)@.lookup(vaddr).unwrap().0.spec_set_flags(
                                        flags,
                                        old(self)@.lookup(vaddr).unwrap().1 != PageTableLevel::L1,
                                    ),
                                    old(self)@.lookup(vaddr).unwrap().1,
                                ),
                            )
                        } else {
                            old(self)@.lookup(v)
                        }
                    &&& final(self)@.lookup(vaddr).unwrap().0.spec_addr() == old(self)@.lookup(
                        vaddr,
                    ).unwrap().0.spec_addr()
                    &&& E::spec_lossless(flags) ==> final(self)@.lookup(vaddr).unwrap().0.spec_flags()
                        == flags
                },
                Err(e) => {
                    &&& old(self)@.lookup(vaddr) == Err::<(E, PageTableLevel), PagingError>(e)
                    &&& final(self)@ == old(self)@
                },
            },
    {
        let (t, d) = match self.inner.find_slot(vaddr) {
            Ok(slot) => slot,
            Err(e) => {
                return Err(e);
            },
        };
        let level = PageTableLevel::from_depth(d);
        let i = level.index(vaddr);
        let mut entry = self.inner.tables[t][i];
        let ghost found = entry;
        let encoded = entry.set_flags(flags, d < 3);
        assert(encoded is Ok);
        proof {
            E::lemma_set_flags(found, flags, d < 3);
        }
        self.write_slot(vaddr, t, d, entry);
        Ok(I::flush(Some(vaddr)))
    }
}

} // verus!
