//! Allocation of guest-physical shared-memory windows for virtio-fs devices
//! and the GPU: each window is page-rounded and placed right after the
//! previous one, so windows never overlap.

use vstd::prelude::*;
use std::collections::BTreeMap;
use vstd::laws_cmp::obeys_cmp;
use vstd::std_specs::btree::increasing_seq;
use vstd::std_specs::iter::IteratorSpec;

verus! {

broadcast use {vstd::std_specs::btree::group_btree_axioms, vstd::laws_cmp::group_laws_cmp};

#[derive(Clone, Copy, Debug, PartialEq, Eq, Structural)]
pub enum ShmError {
    /// A GPU window was already allocated.
    DuplicatedGpuRegion,
    /// The window would extend past the end of the guest address space.
    OutOfSpace,
}

/// A shared-memory window of guest physical memory.
#[derive(Clone, Copy, Debug, PartialEq, Eq, Structural)]
pub struct ShmRegion {
    pub guest_addr: u64,
    pub size: usize,
}

/// `size` rounded up to a multiple of `page_size`.
pub open spec fn align_up_spec(size: int, page_size: int) -> int {
    ((size + page_size - 1) / page_size) * page_size
}

pub open spec fn region_end(r: ShmRegion) -> int {
    r.guest_addr + r.size
}

/// Two windows share no byte.
pub open spec fn disjoint(a: ShmRegion, b: ShmRegion) -> bool {
    region_end(a) <= b.guest_addr || region_end(b) <= a.guest_addr
}

/// Position in the old window list of the window at position `i` of the new
/// list, after the window at `k` was replaced (`replace`) or inserted among
/// `nfs` filesystem windows.
pub open spec fn old_position(i: int, k: int, replace: bool, nfs: int) -> int {
    if replace || i < k {
        i
    } else {
        i - 1
    }
}

/// Hands out shared-memory windows from `shm_start_addr` upwards.
pub struct ShmManager {
    next_guest_addr: u64,
    page_size: usize,
    /// Filesystem windows by device index.
    fs_regions: BTreeMap<usize, ShmRegion>,
    /// The same windows in increasing index order.
    fs_order: Ghost<Seq<(usize, ShmRegion)>>,
    gpu_region: Option<ShmRegion>,
}

impl ShmManager {
    pub closed spec fn next_addr(&self) -> u64 {
        self.next_guest_addr
    }

    pub closed spec fn page(&self) -> usize {
        self.page_size
    }

    /// Filesystem windows keyed by device index, in increasing index order.
    pub closed spec fn fs_view(&self) -> Seq<(usize, ShmRegion)> {
        self.fs_order@
    }

    /// The map holds exactly the windows of the ordered list.
    pub closed spec fn store_matches(&self) -> bool {
        &&& forall|i: int|
            0 <= i < self.fs_order@.len() ==> self.fs_regions@.contains_key(
                (#[trigger] self.fs_order@[i]).0,
            ) && self.fs_regions@[self.fs_order@[i].0] == self.fs_order@[i].1
        &&& forall|k: usize|
            #[trigger] self.fs_regions@.contains_key(k) ==> exists|i: int|
                0 <= i < self.fs_order@.len() && self.fs_order@[i].0 == k
    }

    pub closed spec fn gpu_view(&self) -> Option<ShmRegion> {
        self.gpu_region
    }

    /// Every window handed out so far: filesystem windows in index order,
    /// then the GPU window.
    pub open spec fn all_regions(&self) -> Seq<ShmRegion> {
        let fs = self.fs_view().map_values(|e: (usize, ShmRegion)| e.1);
        match self.gpu_view() {
            Some(g) => fs.push(g),
            None => fs,
        }
    }

    /// Indices strictly increase, every window lies below the next free
    /// address, and no two windows overlap.
    pub open spec fn wf(&self) -> bool {
        &&& self.page() > 0
        &&& self.store_matches()
        &&& forall|i: int, j: int|
            0 <= i < j < self.fs_view().len() ==> (#[trigger] self.fs_view()[i]).0
                < (#[trigger] self.fs_view()[j]).0
        &&& forall|i: int|
            0 <= i < self.all_regions().len() ==> region_end(#[trigger] self.all_regions()[i])
                <= self.next_addr()
        &&& forall|i: int, j: int|
            0 <= i < self.all_regions().len() && 0 <= j < self.all_regions().len() && i != j
                ==> disjoint(#[trigger] self.all_regions()[i], #[trigger] self.all_regions()[j])
    }

    pub fn new(shm_start_addr: u64, page_size: usize) -> (m: ShmManager)
        requires
            page_size > 0,
        ensures
            m.wf(),
            m.next_addr() == shm_start_addr,
            m.page() == page_size,
            m.fs_view().len() == 0,
            m.gpu_view().is_none(),
    {
        let m = ShmManager {
            next_guest_addr: shm_start_addr,
            page_size,
            fs_regions: BTreeMap::new(),
            fs_order: Ghost(Seq::empty()),
            gpu_region: None,
        };
        assert(m.all_regions() =~= Seq::<ShmRegion>::empty());
        m
    }

    pub fn next_guest_addr(&self) -> (a: u64)
        ensures
            a == self.next_addr(),
    {
        self.next_guest_addr
    }

    /// The GPU window, if one was allocated.
    pub fn gpu_region(&self) -> (r: Option<ShmRegion>)
        ensures
            r == self.gpu_view(),
    {
        self.gpu_region
    }

    /// The window of filesystem device `index`, if one was allocated.
    pub fn fs_region(&self, index: usize) -> (r: Option<ShmRegion>)
        requires
            self.wf(),
        ensures
            r.is_some() <==> exists|i: int|
                0 <= i < self.fs_view().len() && (#[trigger] self.fs_view()[i]).0 == index,
            forall|i: int|
                0 <= i < self.fs_view().len() && (#[trigger] self.fs_view()[i]).0 == index ==> r
                    == Some(self.fs_view()[i].1),
    {
        proof {
            assert(obeys_cmp::<usize>());
        }
        match self.fs_regions.get(&index) {
            Some(r) => Some(*r),
            None => None,
        }
    }

    /// Every window handed out so far, as (guest address, size): filesystem
    /// windows in device-index order, then the GPU window.
    pub fn regions(&self) -> (v: Vec<(u64, usize)>)
        requires
            self.wf(),
        ensures
            v@.len() == self.all_regions().len(),
            forall|i: int|
                0 <= i < v@.len() ==> #[trigger] v@[i] == (
                    self.all_regions()[i].guest_addr,
                    self.all_regions()[i].size,
                ),
    {
        let mut v: Vec<(u64, usize)> = Vec::new();
        proof {
            assert(obeys_cmp::<usize>());
        }
        let vals = self.fs_regions.values();
        let ghost keys = choose|ks: Seq<usize>|
            {
                &&& increasing_seq(ks)
                &&& ks.to_set() == self.fs_regions@.dom()
                &&& ks.no_duplicates()
                &&& IteratorSpec::remaining(&vals) == ks.map(|i: int, k: usize| &self.fs_regions@[k])
            };
        proof {
            assert(self.fs_view() == self.fs_order@);
            lemma_window_order(self.fs_order@, self.fs_regions@, keys);
        }
        for r in it: vals
            invariant
                keys.len() == self.fs_order@.len(),
                it.seq() == keys.map(|i: int, k: usize| &self.fs_regions@[k]),
                forall|j: int| 0 <= j < keys.len() ==> #[trigger] keys[j] == self.fs_order@[j].0,
                forall|j: int|
                    0 <= j < self.fs_order@.len() ==> self.fs_regions@[(#[trigger] self.fs_order@[j]).0]
                        == self.fs_order@[j].1,
                v@.len() == it.index(),
                forall|j: int|
                    0 <= j < it.index() ==> #[trigger] v@[j] == (
                        self.fs_order@[j].1.guest_addr,
                        self.fs_order@[j].1.size,
                    ),
        {
            v.push((r.guest_addr, r.size));
        }
        if let Some(r) = self.gpu_region {
            v.push((r.guest_addr, r.size));
        }
        v
    }

    /// Places a window of `size` bytes, rounded up to the page size, at the
    /// next free address and moves the next free address past it.
    fn create_region(&mut self, size: usize) -> (r: Result<ShmRegion, ShmError>)
        requires
            old(self).wf(),
            size + old(self).page() - 1 <= usize::MAX,
        ensures
            final(self).page() == old(self).page(),
            final(self).fs_view() == old(self).fs_view(),
            final(self).fs_regions@ == old(self).fs_regions@,
            final(self).gpu_view() == old(self).gpu_view(),
            match r {
                Ok(region) => {
                    &&& region.guest_addr == old(self).next_addr()
                    &&& region.size == align_up_spec(size as int, old(self).page() as int)
                    &&& final(self).next_addr() == old(self).next_addr() + region.size
                },
                Err(e) => {
                    &&& e == ShmError::OutOfSpace
                    &&& old(self).next_addr() + align_up_spec(size as int, old(self).page() as int)
                        > u64::MAX
                    &&& final(self).next_addr() == old(self).next_addr()
                },
            },
    {
        let ps = self.page_size;
        let s1: usize = size + (ps - 1);
        let q: usize = s1 / ps;
        assert(q * ps <= s1) by (nonlinear_arith)
            requires
                ps > 0,
                q == s1 / ps,
        ;
        let aligned: usize = q * ps;
        let region = ShmRegion { guest_addr: self.next_guest_addr, size: aligned };
        match self.next_guest_addr.checked_add(aligned as u64) {
            Some(addr) => {
                self.next_guest_addr = addr;
                Ok(region)
            },
            None => Err(ShmError::OutOfSpace),
        }
    }

    /// Allocates the GPU window; fails if one exists or the address space is
    /// exhausted, leaving the manager unchanged.
    pub fn create_gpu_region(&mut self, size: usize) -> (r: Result<(), ShmError>)
        requires
            old(self).wf(),
            size + old(self).page() - 1 <= usize::MAX,
        ensures
            final(self).wf(),
            final(self).page() == old(self).page(),
            final(self).fs_view() == old(self).fs_view(),
            old(self).gpu_view().is_some() ==> r == Err::<(), ShmError>(
                ShmError::DuplicatedGpuRegion,
            ) && final(self).next_addr() == old(self).next_addr() && final(self).gpu_view()
                == old(self).gpu_view(),
            old(self).gpu_view().is_none() ==> match r {
                Ok(_) => {
                    &&& final(self).gpu_view() == Some(
                        ShmRegion {
                            guest_addr: old(self).next_addr(),
                            size: align_up_spec(size as int, old(self).page() as int) as usize,
                        },
                    )
                    &&& final(self).next_addr() == old(self).next_addr() + align_up_spec(
                        size as int,
                        old(self).page() as int,
                    )
                },
                Err(e) => {
                    &&& e == ShmError::OutOfSpace
                    &&& old(self).next_addr() + align_up_spec(size as int, old(self).page() as int)
                        > u64::MAX
                    &&& final(self).next_addr() == old(self).next_addr()
                    &&& final(self).gpu_view().is_none()
                },
            },
    {
        if self.gpu_region.is_some() {
            return Err(ShmError::DuplicatedGpuRegion);
        }
        let ghost before = *self;
        match self.create_region(size) {
            Ok(region) => {
                self.gpu_region = Some(region);
                proof {
                    let fs = before.fs_view().map_values(|e: (usize, ShmRegion)| e.1);
                    assert(before.all_regions() =~= fs);
                    assert(self.all_regions() =~= fs.push(region));
                    assert forall|i: int, j: int|
                        0 <= i < self.all_regions().len() && 0 <= j < self.all_regions().len()
                            && i != j implies disjoint(
                        #[trigger] self.all_regions()[i],
                        #[trigger] self.all_regions()[j],
                    ) by {
                        if i < fs.len() && j < fs.len() {
                            assert(before.all_regions()[i] == self.all_regions()[i]);
                            assert(before.all_regions()[j] == self.all_regions()[j]);
                        } else if i < fs.len() {
                            assert(before.all_regions()[i] == self.all_regions()[i]);
                        } else {
                            assert(before.all_regions()[j] == self.all_regions()[j]);
                        }
                    }
                    assert forall|i: int|
                        0 <= i < self.all_regions().len() implies region_end(
                        #[trigger] self.all_regions()[i],
                    ) <= self.next_addr() by {
                        if i < fs.len() {
                            assert(before.all_regions()[i] == self.all_regions()[i]);
                        }
                    }
                }
                Ok(())
            },
            Err(e) => {
                proof {
                    assert(self.all_regions() =~= before.all_regions());
                }
                Err(e)
            },
        }
    }

    /// Allocates the window of filesystem device `index`, replacing any
    /// earlier window of that index; fails, leaving the manager unchanged,
    /// if the address space is exhausted.
    #[verifier::rlimit(50)]
    pub fn create_fs_region(&mut self, index: usize, size: usize) -> (r: Result<(), ShmError>)
        requires
            old(self).wf(),
            size + old(self).page() - 1 <= usize::MAX,
        ensures
            final(self).wf(),
            final(self).page() == old(self).page(),
            final(self).gpu_view() == old(self).gpu_view(),
            match r {
                Ok(_) => {
                    &&& final(self).next_addr() == old(self).next_addr() + align_up_spec(
                        size as int,
                        old(self).page() as int,
                    )
                    &&& exists|i: int|
                        0 <= i < final(self).fs_view().len() && #[trigger] final(self).fs_view()[i]
                            == (
                            index,
                            ShmRegion {
                                guest_addr: old(self).next_addr(),
                                size: align_up_spec(size as int, old(self).page() as int) as usize,
                            },
                        )
                    &&& forall|e: (usize, ShmRegion)|
                        e.0 != index ==> (old(self).fs_view().contains(e)
                            <==> final(self).fs_view().contains(e))
                },
                Err(e) => {
                    &&& e == ShmError::OutOfSpace
                    &&& old(self).next_addr() + align_up_spec(size as int, old(self).page() as int)
                        > u64::MAX
                    &&& final(self).next_addr() == old(self).next_addr()
                    &&& final(self).fs_view() == old(self).fs_view()
                },
            },
    {
        let ghost before = *self;
        let region = match self.create_region(size) {
            Ok(region) => region,
            Err(e) => {
                proof {
                    assert(self.all_regions() =~= before.all_regions());
                }
                return Err(e);
            },
        };
        // Position: first entry whose index is at least `index`.
        let ghost ofs = self.fs_order@;
        let ghost kk = insert_position(ofs, index);
        let ghost replace = kk < ofs.len() && ofs[kk].0 == index;
        proof {
            lemma_insert_position(ofs, index);
        }
        store_insert(&mut self.fs_regions, index, region);
        self.fs_order = Ghost(
            if replace {
                ofs.update(kk, (index, region))
            } else {
                ofs.insert(kk, (index, region))
            },
        );
        proof {
            let fs = self.fs_order@;
            // Indices still strictly increase.
            assert forall|i: int, j: int|
                0 <= i < j < fs.len() implies (#[trigger] fs[i]).0 < (#[trigger] fs[j]).0 by {
                if replace {
                    if i != kk && j != kk {
                        assert(ofs[i].0 < ofs[j].0);
                    } else if i == kk {
                        assert(ofs[kk].0 < ofs[j].0);
                    }
                } else {
                    if j < kk {
                        assert(ofs[i].0 < ofs[j].0);
                    } else if j == kk {
                    } else if i < kk {
                        assert(fs[j] == ofs[j - 1]);
                        if j - 1 > kk {
                            assert(ofs[kk].0 < ofs[j - 1].0);
                        }
                    } else if i == kk {
                        assert(fs[j] == ofs[j - 1]);
                        if j - 1 > kk {
                            assert(ofs[kk].0 < ofs[j - 1].0);
                        }
                    } else {
                        assert(fs[i] == ofs[i - 1]);
                        assert(fs[j] == ofs[j - 1]);
                        assert(ofs[i - 1].0 < ofs[j - 1].0);
                    }
                }
            }
            let all = self.all_regions();
            let oall = before.all_regions();
            let nfs = fs.len() as int;
            let onfs = ofs.len() as int;
            assert(all.len() == nfs + (if self.gpu_region.is_some() { 1int } else { 0int }));
            assert(oall.len() == onfs + (if self.gpu_region.is_some() { 1int } else { 0int }));
            // Each window other than the new one is an old window, and
            // distinct positions come from distinct old positions.
            assert forall|i: int|
                0 <= i < all.len() && i != kk implies 0 <= #[trigger] old_position(i, kk, replace, nfs)
                < oall.len() && all[i] == oall[old_position(i, kk, replace, nfs)] by {
                if i < nfs {
                    if replace || i < kk {
                        assert(all[i] == fs[i].1);
                        assert(oall[i] == ofs[i].1);
                    } else {
                        assert(all[i] == fs[i].1);
                        assert(oall[i - 1] == ofs[i - 1].1);
                    }
                }
            }
            assert(all[kk] == region);
            assert forall|i: int, j: int|
                0 <= i < all.len() && 0 <= j < all.len() && i != j implies disjoint(
                #[trigger] all[i],
                #[trigger] all[j],
            ) by {
                if i != kk && j != kk {
                    let pi = old_position(i, kk, replace, nfs);
                    let pj = old_position(j, kk, replace, nfs);
                    assert(oall[pi] == all[i]);
                    assert(oall[pj] == all[j]);
                    assert(disjoint(oall[pi], oall[pj]));
                } else if i == kk {
                    let pj = old_position(j, kk, replace, nfs);
                    assert(oall[pj] == all[j]);
                    assert(region_end(oall[pj]) <= before.next_addr());
                } else {
                    let pi = old_position(i, kk, replace, nfs);
                    assert(oall[pi] == all[i]);
                    assert(region_end(oall[pi]) <= before.next_addr());
                }
            }
            assert forall|i: int|
                0 <= i < all.len() implies region_end(#[trigger] all[i]) <= self.next_addr() by {
                if i != kk {
                    let pi = old_position(i, kk, replace, nfs);
                    assert(oall[pi] == all[i]);
                    assert(region_end(oall[pi]) <= before.next_addr());
                }
            }
            // Entries of other indices are kept.
            assert(fs[kk] == (index, region));
            assert forall|e: (usize, ShmRegion)|
                e.0 != index implies (ofs.contains(e) <==> fs.contains(e)) by {
                if ofs.contains(e) {
                    let p = choose|p: int| 0 <= p < ofs.len() && ofs[p] == e;
                    if replace || p < kk {
                        assert(fs[p] == e);
                    } else {
                        assert(fs[p + 1] == e);
                    }
                }
                if fs.contains(e) {
                    let p = choose|p: int| 0 <= p < fs.len() && fs[p] == e;
                    if replace || p < kk {
                        assert(ofs[p] == e);
                    } else {
                        assert(ofs[p - 1] == e);
                    }
                }
            }
            lemma_store_after_insert(before.fs_regions@, self.fs_regions@, ofs, fs, index, region);
        }
        Ok(())
    }
}

/// The map of windows and the ordered list stay in step when the window of
/// `index` is stored in both.
proof fn lemma_store_after_insert(
    om: Map<usize, ShmRegion>,
    m: Map<usize, ShmRegion>,
    ofs: Seq<(usize, ShmRegion)>,
    fs: Seq<(usize, ShmRegion)>,
    index: usize,
    region: ShmRegion,
)
    requires
        m == om.insert(index, region),
        forall|i: int, j: int| 0 <= i < j < ofs.len() ==> (#[trigger] ofs[i]).0 < (#[trigger] ofs[j]).0,
        forall|i: int|
            0 <= i < ofs.len() ==> om.contains_key((#[trigger] ofs[i]).0) && om[ofs[i].0] == ofs[i].1,
        forall|k: usize| #[trigger] om.contains_key(k) ==> exists|i: int| 0 <= i < ofs.len() && ofs[i].0 == k,
        ({
            let kk = insert_position(ofs, index);
            let replace = kk < ofs.len() && ofs[kk].0 == index;
            fs == if replace {
                ofs.update(kk, (index, region))
            } else {
                ofs.insert(kk, (index, region))
            }
        }),
    ensures
        forall|i: int|
            0 <= i < fs.len() ==> m.contains_key((#[trigger] fs[i]).0) && m[fs[i].0] == fs[i].1,
        forall|k: usize| #[trigger] m.contains_key(k) ==> exists|i: int| 0 <= i < fs.len() && fs[i].0 == k,
{
    lemma_insert_position(ofs, index);
    let kk = insert_position(ofs, index);
    let replace = kk < ofs.len() && ofs[kk].0 == index;
    assert forall|i: int| 0 <= i < ofs.len() && i != kk implies (#[trigger] ofs[i]).0 != index by {
        if i > kk {
            assert(ofs[kk].0 < ofs[i].0);
        }
    }
    if !replace && kk < ofs.len() {
        assert(ofs[kk].0 != index);
    }
    assert forall|i: int| 0 <= i < fs.len() implies m.contains_key((#[trigger] fs[i]).0) && m[fs[i].0]
        == fs[i].1 by {
        if i != kk {
            if replace || i < kk {
                assert(fs[i] == ofs[i]);
                assert(om.contains_key(ofs[i].0));
            } else {
                assert(fs[i] == ofs[i - 1]);
                assert(om.contains_key(ofs[i - 1].0));
            }
        }
    }
    assert forall|key: usize| #[trigger] m.contains_key(key) implies exists|i: int|
        0 <= i < fs.len() && fs[i].0 == key by {
        if key == index {
            assert(fs[kk].0 == key);
        } else {
            assert(om.contains_key(key));
            let p = choose|p: int| 0 <= p < ofs.len() && ofs[p].0 == key;
            if replace || p < kk {
                assert(fs[p] == ofs[p]);
            } else {
                assert(fs[p + 1] == ofs[p]);
            }
        }
    }
}

/// Stores `region` as the window of device `index`.
fn store_insert(map: &mut BTreeMap<usize, ShmRegion>, index: usize, region: ShmRegion)
    ensures
        final(map)@ == old(map)@.insert(index, region),
{
    proof {
        assert(obeys_cmp::<usize>());
    }
    map.insert(index, region);
}

/// Position of the first window whose index is at least `index`.
spec fn insert_position(s: Seq<(usize, ShmRegion)>, index: usize) -> int
    decreases s.len(),
{
    if s.len() == 0 {
        0
    } else if s[0].0 < index {
        1 + insert_position(s.drop_first(), index)
    } else {
        0
    }
}

proof fn lemma_insert_position(s: Seq<(usize, ShmRegion)>, index: usize)
    requires
        forall|i: int, j: int| 0 <= i < j < s.len() ==> (#[trigger] s[i]).0 < (#[trigger] s[j]).0,
    ensures
        0 <= insert_position(s, index) <= s.len(),
        forall|i: int| 0 <= i < insert_position(s, index) ==> (#[trigger] s[i]).0 < index,
        insert_position(s, index) < s.len() ==> s[insert_position(s, index)].0 >= index,
    decreases s.len(),
{
    if s.len() > 0 && s[0].0 < index {
        let t = s.drop_first();
        assert forall|i: int, j: int| 0 <= i < j < t.len() implies (#[trigger] t[i]).0 < (
        #[trigger] t[j]).0 by {
            assert(t[i] == s[i + 1]);
            assert(t[j] == s[j + 1]);
        }
        lemma_insert_position(t, index);
        assert forall|i: int| 0 <= i < insert_position(s, index) implies (#[trigger] s[i]).0 < index by {
            if i > 0 {
                assert(s[i] == t[i - 1]);
            }
        }
        if insert_position(s, index) < s.len() {
            assert(s[insert_position(s, index)] == t[insert_position(t, index)]);
        }
    }
}

/// Keys that a map yields in increasing order strictly increase.
proof fn lemma_increasing_keys(s: Seq<usize>)
    requires
        increasing_seq(s),
    ensures
        forall|i: int, j: int| 0 <= i < j < s.len() ==> s[i] < s[j],
{
    assert(obeys_cmp::<usize>());
    assert forall|i: int, j: int| 0 <= i < j < s.len() implies s[i] < s[j] by {
        assert(vstd::std_specs::cmp::OrdSpec::cmp_spec(&s[i], &s[j]) is Less);
    }
}

/// Two strictly increasing sequences with the same elements are equal.
proof fn lemma_increasing_same_elements(a: Seq<usize>, b: Seq<usize>)
    requires
        forall|i: int, j: int| 0 <= i < j < a.len() ==> a[i] < a[j],
        forall|i: int, j: int| 0 <= i < j < b.len() ==> b[i] < b[j],
        forall|x: usize| a.contains(x) <==> b.contains(x),
    ensures
        a == b,
    decreases a.len(),
{
    if a.len() == 0 {
        if b.len() > 0 {
            assert(b.contains(b[0]));
        }
        assert(a =~= b);
    } else {
        assert(a.contains(a[0]));
        let j = choose|j: int| 0 <= j < b.len() && b[j] == a[0];
        assert(b.contains(b[0]));
        let i = choose|i: int| 0 <= i < a.len() && a[i] == b[0];
        assert(a[0] <= a[i]);
        assert(b[0] <= b[j]);
        let a1 = a.drop_first();
        let b1 = b.drop_first();
        assert forall|x: usize| a1.contains(x) <==> b1.contains(x) by {
            if a1.contains(x) {
                let k = choose|k: int| 0 <= k < a1.len() && a1[k] == x;
                assert(a[k + 1] == x);
                assert(b.contains(x));
                let m = choose|m: int| 0 <= m < b.len() && b[m] == x;
                assert(m != 0);
                assert(b1[m - 1] == x);
            }
            if b1.contains(x) {
                let k = choose|k: int| 0 <= k < b1.len() && b1[k] == x;
                assert(b[k + 1] == x);
                assert(a.contains(x));
                let m = choose|m: int| 0 <= m < a.len() && a[m] == x;
                assert(m != 0);
                assert(a1[m - 1] == x);
            }
        }
        lemma_increasing_same_elements(a1, b1);
        assert(a[0] == b[0]);
        assert(a.len() == b.len());
        assert forall|k: int| 0 <= k < a.len() implies a[k] == b[k] by {
            if k > 0 {
                assert(a[k] == a1[k - 1]);
                assert(b[k] == b1[k - 1]);
            }
        }
        assert(a =~= b);
    }
}

/// The keys a map of windows yields in increasing order are those of the
/// ordered list of windows, position by position.
proof fn lemma_window_order(fs: Seq<(usize, ShmRegion)>, m: Map<usize, ShmRegion>, keys: Seq<usize>)
    requires
        forall|i: int, j: int| 0 <= i < j < fs.len() ==> (#[trigger] fs[i]).0 < (#[trigger] fs[j]).0,
        forall|i: int| 0 <= i < fs.len() ==> m.contains_key((#[trigger] fs[i]).0),
        forall|k: usize| #[trigger] m.contains_key(k) ==> exists|i: int| 0 <= i < fs.len() && fs[i].0 == k,
        increasing_seq(keys),
        keys.to_set() == m.dom(),
    ensures
        keys.len() == fs.len(),
        forall|j: int| 0 <= j < keys.len() ==> #[trigger] keys[j] == fs[j].0,
{
    lemma_increasing_keys(keys);
    let order = fs.map_values(|e: (usize, ShmRegion)| e.0);
    assert forall|x: usize| keys.contains(x) <==> order.contains(x) by {
        if keys.contains(x) {
            assert(keys.to_set().contains(x));
            let i = choose|i: int| 0 <= i < fs.len() && fs[i].0 == x;
            assert(order[i] == x);
        }
        if order.contains(x) {
            let i = choose|i: int| 0 <= i < order.len() && order[i] == x;
            assert(m.contains_key(fs[i].0));
            assert(keys.to_set().contains(x));
        }
    }
    lemma_increasing_same_elements(keys, order);
}

/// Windows handed out by one manager never overlap, and all of them end at
/// or below the next free address.
pub proof fn lemma_regions_disjoint(m: ShmManager, i: int, j: int)
    requires
        m.wf(),
        0 <= i < m.all_regions().len(),
        0 <= j < m.all_regions().len(),
        i != j,
    ensures
        disjoint(m.all_regions()[i], m.all_regions()[j]),
        region_end(m.all_regions()[i]) <= m.next_addr(),
{
}

/// A window's size is the requested size rounded up to whole pages: at
/// least the request, a multiple of the page size, and less than one page
/// more than the request.
pub proof fn lemma_align_up(size: int, page_size: int)
    requires
        size >= 0,
        page_size > 0,
    ensures
        align_up_spec(size, page_size) >= size,
        align_up_spec(size, page_size) % page_size == 0,
        align_up_spec(size, page_size) < size + page_size,
{
    let q = (size + page_size - 1) / page_size;
    let r = (size + page_size - 1) % page_size;
    assert(q * page_size + r == size + page_size - 1 && 0 <= r < page_size) by (nonlinear_arith)
        requires
            page_size > 0,
            q == (size + page_size - 1) / page_size,
            r == (size + page_size - 1) % page_size,
    ;
    assert((q * page_size) % page_size == 0) by (nonlinear_arith)
        requires
            page_size > 0,
    ;
}

} // verus!
