//! The mathematical model of a four-level translation tree and the laws of
//! the table walk on it.
//!
//! A tree is a sequence of tables of 512 entries each. Table `t` lives in
//! the frame at `root + t * PAGE_SIZE`, table 0 is the root, and an entry
//! that points to a table holds that table's frame address. Every table
//! records the indices that lead to it from the root, so no two entries
//! point to the same table.

use vstd::prelude::*;
use crate::consts::PAGE_SIZE;
use crate::memory::addr::{PhysAddr, VirtAddr};
use crate::memory::paging::{GenericPTE, PageTableLevel, PagingError, PagingResult};

verus! {

/// The index that a walk of `vaddr` uses in the table at distance `depth`
/// from the root.
pub open spec fn spec_index_at(vaddr: VirtAddr, depth: nat) -> int {
    PageTableLevel::spec_from_depth(depth).spec_index(vaddr)
}

/// The indices that a walk of `vaddr` uses above distance `depth`.
pub open spec fn spec_path(vaddr: VirtAddr, depth: nat) -> Seq<int> {
    Seq::new(depth, |k: int| spec_index_at(vaddr, k as nat))
}

/// Whether `a` and `b` are translated by the same entry of a table of
/// `level`: their walks use the same index at that level and at every
/// level above it.
pub open spec fn spec_same_region(level: PageTableLevel, a: VirtAddr, b: VirtAddr) -> bool {
    &&& spec_index_at(a, 0) == spec_index_at(b, 0)
    &&& level.spec_depth() >= 1 ==> spec_index_at(a, 1) == spec_index_at(b, 1)
    &&& level.spec_depth() >= 2 ==> spec_index_at(a, 2) == spec_index_at(b, 2)
    &&& level.spec_depth() >= 3 ==> spec_index_at(a, 3) == spec_index_at(b, 3)
}

proof fn lemma_index_bits(a: u64, b: u64)
    by (bit_vector)
    ensures
        ((a / 0x80_0000_0000) % 512 == (b / 0x80_0000_0000) % 512) <==> ((a % 0x1_0000_0000_0000)
            / 0x80_0000_0000 == (b % 0x1_0000_0000_0000) / 0x80_0000_0000),
        ((a / 0x80_0000_0000) % 512 == (b / 0x80_0000_0000) % 512 && (a / 0x4000_0000) % 512 == (b
            / 0x4000_0000) % 512) <==> ((a % 0x1_0000_0000_0000) / 0x4000_0000 == (b
            % 0x1_0000_0000_0000) / 0x4000_0000),
        ((a / 0x80_0000_0000) % 512 == (b / 0x80_0000_0000) % 512 && (a / 0x4000_0000) % 512 == (b
            / 0x4000_0000) % 512 && (a / 0x20_0000) % 512 == (b / 0x20_0000) % 512) <==> ((a
            % 0x1_0000_0000_0000) / 0x20_0000 == (b % 0x1_0000_0000_0000) / 0x20_0000),
        ((a / 0x80_0000_0000) % 512 == (b / 0x80_0000_0000) % 512 && (a / 0x4000_0000) % 512 == (b
            / 0x4000_0000) % 512 && (a / 0x20_0000) % 512 == (b / 0x20_0000) % 512 && (a / 0x1000)
            % 512 == (b / 0x1000) % 512) <==> ((a % 0x1_0000_0000_0000) / 0x1000 == (b
            % 0x1_0000_0000_0000) / 0x1000),
{
}

/// Two addresses lie in the same region of a level exactly if, taken modulo
/// the 48 bits that a walk reads, they lie in the same aligned block of the
/// size that one entry of that level translates.
pub proof fn lemma_same_region_is_same_block(level: PageTableLevel, a: VirtAddr, b: VirtAddr)
    ensures
        spec_same_region(level, a, b) <==> (a as int % 0x1_0000_0000_0000) / (
        level.spec_span() as int) == (b as int % 0x1_0000_0000_0000) / (level.spec_span() as int),
{
    lemma_index_bits(a, b);
}

proof fn lemma_block_bits(a: u64, b: u64)
    by (bit_vector)
    requires
        a < 0x1_0000_0000_0000,
        b < 0x1_0000_0000_0000,
    ensures
        a % 0x1_0000_0000_0000 == a,
        b % 0x1_0000_0000_0000 == b,
        a % 0x80_0000_0000 == 0 ==> ((a / 0x80_0000_0000 == b / 0x80_0000_0000) <==> (a <= b && b
            - a < 0x80_0000_0000)),
        a % 0x4000_0000 == 0 ==> ((a / 0x4000_0000 == b / 0x4000_0000) <==> (a <= b && b - a
            < 0x4000_0000)),
        a % 0x20_0000 == 0 ==> ((a / 0x20_0000 == b / 0x20_0000) <==> (a <= b && b - a
            < 0x20_0000)),
        a % 0x1000 == 0 ==> ((a / 0x1000 == b / 0x1000) <==> (a <= b && b - a < 0x1000)),
{
}

/// Below 2^48, the region of a level that starts at an aligned address is
/// the interval of as many bytes as one entry of that level translates.
pub proof fn lemma_region_is_interval(level: PageTableLevel, base: VirtAddr, v: VirtAddr)
    requires
        level.spec_is_aligned(base),
        base < 0x1_0000_0000_0000,
        v < 0x1_0000_0000_0000,
    ensures
        spec_same_region(level, base, v) <==> base <= v < base + level.spec_span(),
{
    lemma_same_region_is_same_block(level, base, v);
    lemma_block_bits(base, v);
}

/// Whether a walk that reads `e` above the last level goes on to the table
/// that `e` points to.
pub open spec fn spec_is_link<E: GenericPTE>(e: E) -> bool {
    !e.spec_is_unused() && !e.spec_is_leaf() && e.spec_is_present()
}

/// What a walk returns when it ends at `e`, read at distance `depth` from
/// the root.
pub open spec fn spec_terminal<E: GenericPTE>(e: E, depth: nat) -> PagingResult<(E, PageTableLevel)> {
    if e.spec_is_unused() {
        Err(PagingError::NotMapped)
    } else {
        Ok((e, PageTableLevel::spec_from_depth(depth)))
    }
}

/// A translation tree.
pub struct TableTree<E> {
    /// Physical address of the frame that holds the root table.
    pub root: PhysAddr,
    /// The tables, in the order of their frames.
    pub tables: Seq<Seq<E>>,
    /// For each table, the indices that lead to it from the root.
    pub paths: Seq<Seq<int>>,
}

impl<E: GenericPTE> TableTree<E> {
    /// The tree that consists of an empty root table.
    pub open spec fn spec_empty(root: PhysAddr) -> Self {
        TableTree {
            root,
            tables: seq![Seq::new(512, |i: int| E::spec_unused())],
            paths: seq![Seq::<int>::empty()],
        }
    }

    /// The table whose frame address `e` holds.
    pub open spec fn child(self, e: E) -> int {
        (e.spec_addr() - self.root) / (PAGE_SIZE as int)
    }

    /// Whether the entry `i` of table `t` points to a table of the tree
    /// whose recorded path is that of `t` followed by `i`.
    pub open spec fn link_ok(self, t: int, i: int) -> bool {
        let e = self.tables[t][i];
        &&& e.spec_addr() >= self.root
        &&& (e.spec_addr() - self.root) % (PAGE_SIZE as int) == 0
        &&& 0 <= self.child(e) < self.tables.len()
        &&& self.paths[self.child(e)] == self.paths[t].push(i)
    }

    /// Well-formedness: every table has 512 entries and lies at most three
    /// steps below the root, and every entry that a walk would follow
    /// points to the table that its position determines.
    pub open spec fn wf(self) -> bool {
        &&& self.tables.len() >= 1
        &&& self.paths.len() == self.tables.len()
        &&& self.paths[0] =~= Seq::<int>::empty()
        &&& forall|t: int|
            0 <= t < self.tables.len() ==> (#[trigger] self.tables[t]).len() == 512
                && self.paths[t].len() <= 3
        &&& forall|t: int, i: int|
            0 <= t < self.tables.len() && 0 <= i < 512 && self.paths[t].len() < 3 && spec_is_link(
                #[trigger] self.tables[t][i],
            ) ==> self.link_ok(t, i)
    }

    /// The table that a walk of `vaddr` reads at distance `depth` from the
    /// root, if the walk gets that far.
    pub open spec fn table_at(self, vaddr: VirtAddr, depth: nat) -> Option<int>
        decreases depth,
    {
        if depth == 0 {
            Some(0)
        } else {
            match self.table_at(vaddr, (depth - 1) as nat) {
                None => None,
                Some(p) => {
                    let e = self.tables[p][spec_index_at(vaddr, (depth - 1) as nat)];
                    if spec_is_link(e) {
                        Some(self.child(e))
                    } else {
                        None
                    }
                },
            }
        }
    }

    /// The result of the part of a walk of `vaddr` that starts at distance
    /// `depth` from the root.
    pub open spec fn lookup_at(self, vaddr: VirtAddr, depth: nat) -> PagingResult<(E, PageTableLevel)>
        decreases 4 - depth,
    {
        match self.table_at(vaddr, depth) {
            None => Err(PagingError::NotMapped),
            Some(t) => {
                let e = self.tables[t][spec_index_at(vaddr, depth)];
                if e.spec_is_unused() {
                    Err(PagingError::NotMapped)
                } else if depth >= 3 || e.spec_is_leaf() {
                    Ok((e, PageTableLevel::spec_from_depth(depth)))
                } else if !e.spec_is_present() {
                    Err(PagingError::NotMapped)
                } else {
                    self.lookup_at(vaddr, depth + 1)
                }
            },
        }
    }

    /// The walk of a hardware table walker: the entry that ends the
    /// translation of `vaddr` and the level of its table, or `NotMapped`
    /// where the walk meets an unused entry or a table pointer that is not
    /// present.
    pub open spec fn lookup(self, vaddr: VirtAddr) -> PagingResult<(E, PageTableLevel)> {
        self.lookup_at(vaddr, 0)
    }

    /// The search for the entry that is to hold a new mapping of `vaddr`
    /// at distance `target` from the root, from distance `depth` on: the
    /// distance of the first unused entry on the way, or the reason why the
    /// mapping cannot be made.
    pub open spec fn probe_at(self, vaddr: VirtAddr, target: nat, depth: nat) -> PagingResult<nat>
        decreases 4 - depth,
    {
        match self.table_at(vaddr, depth) {
            None => Err(PagingError::NotMapped),
            Some(t) => {
                let e = self.tables[t][spec_index_at(vaddr, depth)];
                if e.spec_is_unused() {
                    Ok(depth)
                } else if depth >= target || depth >= 3 {
                    Err(PagingError::AlreadyMapped)
                } else if e.spec_is_leaf() {
                    Err(PagingError::MappedToHugePage)
                } else if !e.spec_is_present() {
                    Err(PagingError::NotMapped)
                } else {
                    self.probe_at(vaddr, target, depth + 1)
                }
            },
        }
    }

    /// Whether `other` has the tables of `self`, and possibly more, with the
    /// same entries everywhere but at entry `i` of table `t`.
    pub open spec fn agrees_except(self, other: Self, t: int, i: int) -> bool {
        &&& other.root == self.root
        &&& other.tables.len() >= self.tables.len()
        &&& forall|u: int, j: int|
            0 <= u < self.tables.len() && 0 <= j < 512 && !(u == t && j == i)
                ==> #[trigger] other.tables[u][j] == self.tables[u][j]
    }

    /// A table that a walk reaches is a table of the tree, and its recorded
    /// path is the walk's.
    pub proof fn lemma_reach(self, vaddr: VirtAddr, depth: nat)
        requires
            self.wf(),
            depth <= 3,
            self.table_at(vaddr, depth) is Some,
        ensures
            0 <= self.table_at(vaddr, depth).unwrap() < self.tables.len(),
            self.paths[self.table_at(vaddr, depth).unwrap()] =~= spec_path(vaddr, depth),
        decreases depth,
    {
        if depth > 0 {
            let prev = (depth - 1) as nat;
            self.lemma_reach(vaddr, prev);
            let p = self.table_at(vaddr, prev).unwrap();
            let i = spec_index_at(vaddr, prev);
            assert(self.paths[p].len() == prev);
            assert(spec_is_link(self.tables[p][i]));
            assert(self.link_ok(p, i));
        }
    }

    /// Walks of addresses with the same indices reach the same tables.
    pub proof fn lemma_same_path(self, a: VirtAddr, b: VirtAddr, depth: nat)
        requires
            forall|k: nat| k < depth ==> spec_index_at(a, k) == spec_index_at(b, k),
        ensures
            self.table_at(a, depth) == self.table_at(b, depth),
        decreases depth,
    {
        if depth > 0 {
            self.lemma_same_path(a, b, (depth - 1) as nat);
        }
    }

    /// A walk that reaches a table at some distance has the result of its
    /// remainder from there.
    pub proof fn lemma_descend(self, vaddr: VirtAddr, depth: nat)
        requires
            depth <= 3,
            self.table_at(vaddr, depth) is Some,
        ensures
            self.lookup(vaddr) == self.lookup_at(vaddr, depth),
        decreases depth,
    {
        if depth > 0 {
            self.lemma_descend(vaddr, (depth - 1) as nat);
        }
    }

    /// A change of one entry does not move the tables that a walk reaches
    /// before it reads that entry.
    pub proof fn lemma_frame_table_at(
        self,
        other: Self,
        t: int,
        i: int,
        vaddr: VirtAddr,
        depth: nat,
    )
        requires
            self.wf(),
            0 <= t < self.tables.len(),
            self.agrees_except(other, t, i),
            depth <= 3,
            depth <= self.paths[t].len() || !(spec_path(vaddr, self.paths[t].len()) =~= self.paths[t]
                && spec_index_at(vaddr, self.paths[t].len()) == i),
        ensures
            other.table_at(vaddr, depth) == self.table_at(vaddr, depth),
        decreases depth,
    {
        if depth > 0 {
            let prev = (depth - 1) as nat;
            self.lemma_frame_table_at(other, t, i, vaddr, prev);
            if self.table_at(vaddr, prev) is Some {
                self.lemma_reach(vaddr, prev);
                let p = self.table_at(vaddr, prev).unwrap();
                let j = spec_index_at(vaddr, prev);
                assert(self.paths[p].len() == prev);
                assert(!(p == t && j == i));
                assert(other.tables[p][j] == self.tables[p][j]);
            }
        }
    }

    /// A change of one entry does not change the walk of an address that
    /// the entry does not translate.
    pub proof fn lemma_frame_lookup(
        self,
        other: Self,
        t: int,
        i: int,
        vaddr: VirtAddr,
        depth: nat,
    )
        requires
            self.wf(),
            0 <= t < self.tables.len(),
            self.agrees_except(other, t, i),
            depth <= 3,
            !(spec_path(vaddr, self.paths[t].len()) =~= self.paths[t] && spec_index_at(
                vaddr,
                self.paths[t].len(),
            ) == i),
        ensures
            other.lookup_at(vaddr, depth) == self.lookup_at(vaddr, depth),
        decreases 4 - depth,
    {
        self.lemma_frame_table_at(other, t, i, vaddr, depth);
        if self.table_at(vaddr, depth) is Some {
            self.lemma_reach(vaddr, depth);
            let p = self.table_at(vaddr, depth).unwrap();
            let j = spec_index_at(vaddr, depth);
            assert(self.paths[p].len() == depth);
            assert(!(p == t && j == i));
            assert(other.tables[p][j] == self.tables[p][j]);
            if depth < 3 {
                self.lemma_frame_lookup(other, t, i, vaddr, depth + 1);
            }
        }
    }

    /// An address is translated by the entry that the walk of `vaddr` reads
    /// at distance `depth` exactly if it lies in the same region at that
    /// level.
    pub proof fn lemma_region(self, vaddr: VirtAddr, other: VirtAddr, depth: nat)
        requires
            depth <= 3,
        ensures
            spec_same_region(PageTableLevel::spec_from_depth(depth), vaddr, other) <==> (spec_path(
                other,
                depth,
            ) =~= spec_path(vaddr, depth) && spec_index_at(other, depth) == spec_index_at(
                vaddr,
                depth,
            )),
            spec_same_region(PageTableLevel::spec_from_depth(depth), vaddr, other) ==> forall|k: nat|
                k <= depth ==> spec_index_at(other, k) == spec_index_at(vaddr, k),
    {
        let pa = spec_path(other, depth);
        let pb = spec_path(vaddr, depth);
        if pa =~= pb {
            assert forall|k: nat| k < depth implies spec_index_at(other, k) == spec_index_at(
                vaddr,
                k,
            ) by {
                assert(pa[k as int] == pb[k as int]);
            }
        }
    }

    /// Writing an entry that ends a walk, or an unused one, where the walk
    /// of `vaddr` reads at distance `depth` changes the walk of the
    /// addresses of that region to what the new entry says, and no other.
    pub proof fn lemma_write(self, other: Self, vaddr: VirtAddr, depth: nat, v: VirtAddr)
        requires
            self.wf(),
            depth <= 3,
            self.table_at(vaddr, depth) is Some,
            self.agrees_except(
                other,
                self.table_at(vaddr, depth).unwrap(),
                spec_index_at(vaddr, depth),
            ),
            ({
                let e = other.tables[self.table_at(vaddr, depth).unwrap()][spec_index_at(
                    vaddr,
                    depth,
                )];
                e.spec_is_unused() || depth >= 3 || e.spec_is_leaf()
            }),
        ensures
            other.lookup(v) == if spec_same_region(
                PageTableLevel::spec_from_depth(depth),
                vaddr,
                v,
            ) {
                spec_terminal(
                    other.tables[self.table_at(vaddr, depth).unwrap()][spec_index_at(vaddr, depth)],
                    depth,
                )
            } else {
                self.lookup(v)
            },
    {
        let t = self.table_at(vaddr, depth).unwrap();
        let i = spec_index_at(vaddr, depth);
        self.lemma_reach(vaddr, depth);
        self.lemma_region(vaddr, v, depth);
        if spec_same_region(PageTableLevel::spec_from_depth(depth), vaddr, v) {
            self.lemma_same_path(v, vaddr, depth);
            self.lemma_frame_table_at(other, t, i, v, depth);
            other.lemma_descend(v, depth);
        } else {
            self.lemma_frame_lookup(other, t, i, v, 0);
        }
    }

    /// Hanging an empty table under an unused entry on the walk of `vaddr`
    /// changes no walk, and the walk of `vaddr` then reaches the new table.
    pub proof fn lemma_link(self, other: Self, vaddr: VirtAddr, depth: nat, v: VirtAddr)
        requires
            self.wf(),
            depth < 3,
            self.table_at(vaddr, depth) is Some,
            self.tables[self.table_at(vaddr, depth).unwrap()][spec_index_at(
                vaddr,
                depth,
            )].spec_is_unused(),
            self.agrees_except(
                other,
                self.table_at(vaddr, depth).unwrap(),
                spec_index_at(vaddr, depth),
            ),
            other.tables.len() == self.tables.len() + 1,
            other.tables[self.tables.len() as int].len() == 512,
            forall|j: int|
                0 <= j < 512 ==> (#[trigger] other.tables[self.tables.len() as int][j]).spec_is_unused(),
            ({
                let e = other.tables[self.table_at(vaddr, depth).unwrap()][spec_index_at(
                    vaddr,
                    depth,
                )];
                spec_is_link(e) && other.child(e) == self.tables.len()
            }),
        ensures
            other.lookup(v) == self.lookup(v),
            other.table_at(vaddr, depth + 1) == Some(self.tables.len() as int),
    {
        let t = self.table_at(vaddr, depth).unwrap();
        let i = spec_index_at(vaddr, depth);
        self.lemma_reach(vaddr, depth);
        self.lemma_frame_table_at(other, t, i, vaddr, depth);
        self.lemma_region(vaddr, v, depth);
        if spec_same_region(PageTableLevel::spec_from_depth(depth), vaddr, v) {
            self.lemma_same_path(v, vaddr, depth);
            self.lemma_frame_table_at(other, t, i, v, depth);
            self.lemma_descend(v, depth);
            assert(other.table_at(v, depth + 1) == Some(self.tables.len() as int));
            other.lemma_descend(v, depth + 1);
            let j = spec_index_at(v, depth + 1);
            assert(other.tables[self.tables.len() as int][j].spec_is_unused());
        } else {
            self.lemma_frame_lookup(other, t, i, v, 0);
        }
    }

    /// The tree with entry `i` of table `t` replaced by `e`.
    pub open spec fn with_entry(self, t: int, i: int, e: E) -> Self {
        TableTree {
            root: self.root,
            tables: self.tables.update(t, self.tables[t].update(i, e)),
            paths: self.paths,
        }
    }

    /// The tree with one more table, all unused, reached from entry `i` of
    /// table `t`.
    pub open spec fn with_table(self, t: int, i: int) -> Self {
        TableTree {
            root: self.root,
            tables: self.tables.push(Seq::new(512, |j: int| E::spec_unused())),
            paths: self.paths.push(self.paths[t].push(i)),
        }
    }

    /// Replacing an entry by one that no walk follows keeps the tree well
    /// formed.
    pub proof fn lemma_with_entry_wf(self, t: int, i: int, e: E)
        requires
            self.wf(),
            0 <= t < self.tables.len(),
            0 <= i < 512,
            !spec_is_link(e) || self.paths[t].len() >= 3,
        ensures
            self.with_entry(t, i, e).wf(),
            self.agrees_except(self.with_entry(t, i, e), t, i),
            self.with_entry(t, i, e).tables[t][i] == e,
    {
        let other = self.with_entry(t, i, e);
        assert forall|u: int, j: int|
            0 <= u < other.tables.len() && 0 <= j < 512 && other.paths[u].len() < 3 && spec_is_link(
                #[trigger] other.tables[u][j],
            ) implies other.link_ok(u, j) by {
            assert(other.tables[u][j] == self.tables[u][j]);
            assert(self.link_ok(u, j));
        }
    }

    /// Hanging a new empty table under an entry, with the new table's frame
    /// address in that entry, keeps the tree well formed.
    pub proof fn lemma_with_table_wf(self, t: int, i: int, e: E)
        requires
            self.wf(),
            0 <= t < self.tables.len(),
            0 <= i < 512,
            self.paths[t].len() < 3,
            e.spec_addr() == self.root + self.tables.len() * PAGE_SIZE,
        ensures
            self.with_table(t, i).with_entry(t, i, e).wf(),
            self.agrees_except(self.with_table(t, i).with_entry(t, i, e), t, i),
            self.with_table(t, i).with_entry(t, i, e).tables[t][i] == e,
            self.with_table(t, i).with_entry(t, i, e).child(e) == self.tables.len(),
    {
        let n = self.tables.len() as int;
        let other = self.with_table(t, i).with_entry(t, i, e);
        E::lemma_unused();
        assert(other.child(e) == n) by (nonlinear_arith)
            requires
                other.child(e) == (e.spec_addr() - self.root) / 0x1000,
                e.spec_addr() - self.root == n * 0x1000,
        ;
        assert((e.spec_addr() - self.root) % 0x1000 == 0) by (nonlinear_arith)
            requires
                e.spec_addr() - self.root == n * 0x1000,
        ;
        assert forall|u: int, j: int|
            0 <= u < other.tables.len() && 0 <= j < 512 && other.paths[u].len() < 3 && spec_is_link(
                #[trigger] other.tables[u][j],
            ) implies other.link_ok(u, j) by {
            if u == t && j == i {
                assert(other.paths[n] == other.paths[t].push(i));
            } else if u < n {
                assert(other.tables[u][j] == self.tables[u][j]);
                assert(self.link_ok(u, j));
            } else {
                assert(other.tables[u][j] == E::spec_unused());
            }
        }
    }

    /// No address is mapped in a tree that consists of an empty root table.
    pub proof fn lemma_empty(root: PhysAddr, v: VirtAddr)
        ensures
            Self::spec_empty(root).wf(),
            Self::spec_empty(root).lookup(v) == Err::<(E, PageTableLevel), PagingError>(
                PagingError::NotMapped,
            ),
    {
        E::lemma_unused();
        let s = Self::spec_empty(root);
        assert(s.tables[0][spec_index_at(v, 0)] == E::spec_unused());
    }
}

} // verus!
