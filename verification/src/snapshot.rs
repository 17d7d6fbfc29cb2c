//! Snapshots backed by a guest-RAM file: the layout of the RAM regions in
//! that file, the serialisable mirrors of virtio device state, and the
//! decisions around syncing the file.

use vstd::prelude::*;
use vstd::string::*;

verus! {

/// Serialisable mirror of a virtio queue's state.
#[derive(Clone, Copy, Debug, Default, PartialEq, Eq, Structural)]
pub struct QueueStateSer {
    pub size: u16,
    pub ready: bool,
    pub desc_table: u64,
    pub avail_ring: u64,
    pub used_ring: u64,
    pub next_avail: u16,
    pub next_used: u16,
    pub event_idx_enabled: bool,
    pub num_added: u16,
}

/// Serialisable mirror of a virtio-mmio device's transport state.
#[derive(Clone, Debug, Default, PartialEq, Eq)]
pub struct MmioDeviceStateSer {
    pub device_type: u32,
    pub features_select: u32,
    pub acked_features_select: u32,
    pub queue_select: u32,
    pub device_status: u32,
    pub config_generation: u32,
    pub acked_features: u64,
    pub queues: Vec<QueueStateSer>,
    pub device_blob: Vec<u8>,
}

/// A whole snapshot: hypervisor VM state `V`, one vCPU state `C` per vCPU,
/// the RAM file layout and the virtio device states keyed by MMIO base.
#[derive(Clone, Debug)]
pub struct SnapshotState<V, C> {
    pub vm_state: V,
    pub vcpu_states: Vec<C>,
    /// RAM file layout: (guest address, size, file offset) per region.
    pub mem_layout: Vec<(u64, usize, u64)>,
    /// virtio device state keyed by MMIO base address.
    pub device_states: Vec<(u64, MmioDeviceStateSer)>,
}

#[derive(Clone, Copy, Debug, PartialEq, Eq, Structural)]
pub enum SnapshotError {
    /// Guest RAM is not backed by a file, so there is nothing to sync.
    NotFileBacked,
    /// The snapshot holds a different number of vCPU states than the VM has
    /// vCPUs.
    VcpuCountMismatch,
}

impl SnapshotError {
    /// The message shown to the user.
    pub fn message(&self) -> (s: String)
        ensures
            *self == SnapshotError::NotFileBacked ==> s@
                == "guest RAM is not file-backed (KRUN_SNAPSHOT_MEM_FILE unset)"@,
            *self == SnapshotError::VcpuCountMismatch ==> s@ == "snapshot vcpu count mismatch"@,
    {
        match self {
            SnapshotError::NotFileBacked => String::from_str(
                "guest RAM is not file-backed (KRUN_SNAPSHOT_MEM_FILE unset)",
            ),
            SnapshotError::VcpuCountMismatch => String::from_str("snapshot vcpu count mismatch"),
        }
    }
}

/// Whether the RAM file may be flushed: only when guest RAM is file-backed.
/// On `Ok` the caller syncs the file and reports how that went.
pub fn sync_mem_backing(file_backed: bool) -> (r: Result<(), SnapshotError>)
    ensures
        file_backed <==> r.is_ok(),
        !file_backed ==> r == Err::<(), SnapshotError>(SnapshotError::NotFileBacked),
{
    if file_backed {
        Ok(())
    } else {
        Err(SnapshotError::NotFileBacked)
    }
}

/// A path setting counts only when set and not empty.
pub fn nonempty_setting(value: Option<String>) -> (r: Option<String>)
    ensures
        r.is_some() <==> (value.is_some() && value.unwrap()@.len() > 0),
        r.is_some() ==> r == value,
{
    match value {
        Some(v) => {
            if v.as_str().unicode_len() == 0 {
                None
            } else {
                Some(v)
            }
        },
        None => None,
    }
}

/// A snapshot can be restored onto a VM only with one state per vCPU.
pub fn check_vcpu_count(snapshot_vcpus: usize, vm_vcpus: usize) -> (r: Result<(), SnapshotError>)
    ensures
        r.is_ok() <==> snapshot_vcpus == vm_vcpus,
        r.is_err() ==> r == Err::<(), SnapshotError>(SnapshotError::VcpuCountMismatch),
{
    if snapshot_vcpus != vm_vcpus {
        Err(SnapshotError::VcpuCountMismatch)
    } else {
        Ok(())
    }
}

/// Total size of the regions `0..k`.
pub open spec fn sizes_before(regions: Seq<(u64, usize)>, k: int) -> int
    decreases k,
{
    if k <= 0 {
        0
    } else {
        sizes_before(regions, k - 1) + regions[k - 1].1
    }
}

proof fn lemma_sizes_before_mono(regions: Seq<(u64, usize)>, a: int, b: int)
    requires
        0 <= a <= b <= regions.len(),
    ensures
        sizes_before(regions, a) <= sizes_before(regions, b),
    decreases b - a,
{
    if a < b {
        lemma_sizes_before_mono(regions, a, b - 1);
    }
}

/// Where each RAM region lives in the backing file: regions are stored back
/// to back in order, so region `i` starts at the total size of the regions
/// before it. Also returns the file's total size.
pub fn file_backed_layout(regions: &Vec<(u64, usize)>) -> (r: (Vec<(u64, usize, u64)>, u64))
    requires
        sizes_before(regions@, regions@.len() as int) <= u64::MAX,
    ensures
        r.0@.len() == regions@.len(),
        forall|i: int|
            0 <= i < regions@.len() ==> #[trigger] r.0@[i] == (
                regions@[i].0,
                regions@[i].1,
                sizes_before(regions@, i) as u64,
            ),
        r.1 == sizes_before(regions@, regions@.len() as int),
{
    let mut layout: Vec<(u64, usize, u64)> = Vec::new();
    let mut offset: u64 = 0;
    let mut i: usize = 0;
    while i < regions.len()
        invariant
            i <= regions@.len(),
            sizes_before(regions@, regions@.len() as int) <= u64::MAX,
            offset == sizes_before(regions@, i as int),
            layout@.len() == i,
            forall|j: int|
                0 <= j < i ==> #[trigger] layout@[j] == (
                    regions@[j].0,
                    regions@[j].1,
                    sizes_before(regions@, j) as u64,
                ),
        decreases regions@.len() - i,
    {
        let (addr, size) = regions[i];
        proof {
            lemma_sizes_before_mono(regions@, i + 1, regions@.len() as int);
        }
        layout.push((addr, size, offset));
        offset = offset + size as u64;
        i = i + 1;
    }
    (layout, offset)
}

/// Regions laid out by `file_backed_layout` occupy disjoint, adjacent byte
/// ranges of the file, in order, and together fill it exactly.
pub proof fn lemma_layout_contiguous(regions: Seq<(u64, usize)>, i: int, j: int)
    requires
        0 <= i < j < regions.len(),
    ensures
        sizes_before(regions, i) + regions[i].1 <= sizes_before(regions, j),
        sizes_before(regions, i + 1) == sizes_before(regions, i) + regions[i].1,
        sizes_before(regions, j) + regions[j].1 <= sizes_before(regions, regions.len() as int),
{
    lemma_sizes_before_mono(regions, i + 1, j);
    lemma_sizes_before_mono(regions, j + 1, regions.len() as int);
}

} // verus!
