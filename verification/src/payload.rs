//! What the guest boots and how it gets into guest memory: the choice
//! between a bundled kernel, a kernel file and firmware; the checks on a
//! bundled kernel; locating and inflating a gzip-compressed kernel image;
//! and the shared-memory windows and firmware placement of guest memory.

use vstd::prelude::*;
use std::io::Error as IoError;
use flate2::read::GzDecoder;
use std::io::Read;
use crate::config::{ExternalKernel, KernelBundle, KernelFormat};
use crate::errors::StartMicrovmError;
use crate::shm::{ShmManager, ShmError, ShmRegion, align_up_spec};

verus! {

/// What the guest boots.
#[derive(Debug)]
pub enum Payload {
    /// The kernel bundled by the firmware library, copied into guest memory.
    KernelMmap,
    /// A kernel read from a file.
    ExternalKernel(ExternalKernel),
    /// Firmware, entered at the reset vector.
    Firmware,
}

/// A bundled kernel comes first, then a kernel file, then firmware; with
/// none of them the VM cannot start.
pub fn choose_payload(has_kernel_bundle: bool, external_kernel: Option<ExternalKernel>, has_firmware: bool) -> (r: Result<Payload, StartMicrovmError>)
    ensures
        has_kernel_bundle ==> r matches Ok(Payload::KernelMmap),
        !has_kernel_bundle && external_kernel.is_some() ==> (r matches Ok(
            Payload::ExternalKernel(k),
        ) && k == external_kernel.unwrap()),
        !has_kernel_bundle && external_kernel.is_none() && has_firmware ==> r matches Ok(
            Payload::Firmware,
        ),
        !has_kernel_bundle && external_kernel.is_none() && !has_firmware ==> r matches Err(
            StartMicrovmError::MissingKernelConfig,
        ),
{
    if has_kernel_bundle {
        Ok(Payload::KernelMmap)
    } else if let Some(kernel) = external_kernel {
        Ok(Payload::ExternalKernel(kernel))
    } else if has_firmware {
        Ok(Payload::Firmware)
    } else {
        Err(StartMicrovmError::MissingKernelConfig)
    }
}

/// Where a bundled kernel is copied from and to, and where it is entered.
#[derive(Clone, Copy, Debug, PartialEq, Eq, Structural)]
pub struct KernelCopy {
    pub host_addr: u64,
    pub guest_addr: u64,
    pub size: usize,
    pub entry_addr: u64,
}

/// The copy of a bundled kernel into guest memory, refused when there is no
/// bundle or the kernel would end past the last RAM address.
pub fn bundled_kernel_copy(bundle: Option<KernelBundle>, ram_last_addr: u64) -> (r: Result<KernelCopy, StartMicrovmError>)
    requires
        bundle matches Some(b) ==> b.guest_addr + b.size <= u64::MAX,
    ensures
        bundle.is_none() ==> r matches Err(StartMicrovmError::MissingKernelConfig),
        bundle matches Some(b) ==> (b.guest_addr + b.size > ram_last_addr ==> (r matches Err(
            StartMicrovmError::KernelDoesNotFit(a, s),
        ) && a == b.guest_addr && s == b.size)),
        bundle matches Some(b) ==> (b.guest_addr + b.size <= ram_last_addr ==> r == Ok::<
            KernelCopy,
            StartMicrovmError,
        >(
            KernelCopy {
                host_addr: b.host_addr,
                guest_addr: b.guest_addr,
                size: b.size,
                entry_addr: b.entry_addr,
            },
        )),
{
    match bundle {
        None => Err(StartMicrovmError::MissingKernelConfig),
        Some(b) => {
            if b.guest_addr + b.size as u64 > ram_last_addr {
                Err(StartMicrovmError::KernelDoesNotFit(b.guest_addr, b.size))
            } else {
                Ok(
                    KernelCopy {
                        host_addr: b.host_addr,
                        guest_addr: b.guest_addr,
                        size: b.size,
                        entry_addr: b.entry_addr,
                    },
                )
            }
        },
    }
}

/// How a kernel file of a given format is loaded on this host.
#[derive(Clone, Copy, Debug, PartialEq, Eq, Structural)]
pub enum KernelFileLoad {
    /// Load the file's ELF segments.
    Elf,
    /// Find the gzip stream in the file, inflate it, load the ELF result.
    GzipElf,
}

/// Raw images are handled as bundled kernels on this host, so they never
/// reach here; ELF files and gzip Image files are supported, other formats
/// are not.
pub fn kernel_file_load(format: KernelFormat) -> (r: Result<KernelFileLoad, StartMicrovmError>)
    requires
        format != KernelFormat::Raw,
    ensures
        format == KernelFormat::Elf ==> r matches Ok(KernelFileLoad::Elf),
        format == KernelFormat::ImageGz ==> r matches Ok(KernelFileLoad::GzipElf),
        format != KernelFormat::Elf && format != KernelFormat::ImageGz ==> r matches Err(
            StartMicrovmError::KernelFormatUnsupported,
        ),
{
    match format {
        KernelFormat::Elf => Ok(KernelFileLoad::Elf),
        KernelFormat::ImageGz => Ok(KernelFileLoad::GzipElf),
        _ => Err(StartMicrovmError::KernelFormatUnsupported),
    }
}

/// Magic bytes that start a gzip member using deflate.
pub open spec fn gzip_magic() -> Seq<u8> {
    seq![0x1fu8, 0x8bu8, 0x08u8]
}

/// `magic` occurs in `data` at position `p`.
pub open spec fn occurs_at(data: Seq<u8>, magic: Seq<u8>, p: int) -> bool {
    0 <= p && p + magic.len() <= data.len() && data.subrange(p, p + magic.len()) == magic
}

/// First position where `magic` occurs in `data`, if any.
pub fn find_magic(data: &[u8], magic: &[u8]) -> (r: Option<usize>)
    requires
        magic@.len() > 0,
    ensures
        r matches Some(p) ==> occurs_at(data@, magic@, p as int) && forall|q: int|
            0 <= q < p ==> !occurs_at(data@, magic@, q),
        r.is_none() ==> forall|q: int| !occurs_at(data@, magic@, q),
{
    let n = data.len();
    let m = magic.len();
    if m > n {
        return None;
    }
    let mut p: usize = 0;
    while p <= n - m
        invariant
            n == data@.len(),
            m == magic@.len(),
            0 < m <= n,
            p <= n - m + 1,
            forall|q: int| 0 <= q < p ==> !occurs_at(data@, magic@, q),
        decreases n - p,
    {
        let mut k: usize = 0;
        while k < m && data[p + k] == magic[k]
            invariant
                n == data@.len(),
                m == magic@.len(),
                p + m <= n,
                k <= m,
                forall|j: int| 0 <= j < k ==> data@[p + j] == magic@[j],
            decreases m - k,
        {
            k = k + 1;
        }
        if k == m {
            assert(data@.subrange(p as int, p + m) =~= magic@);
            return Some(p);
        }
        assert(data@.subrange(p as int, p + m)[k as int] != magic@[k as int]);
        p = p + 1;
    }
    None
}

/// The bytes `GzDecoder` produces from `data` when it reads the first gzip
/// member to its end; `None` where decoding fails.
pub uninterp spec fn gzip_member_decoded(data: Seq<u8>) -> Option<Seq<u8>>;

/// Inflates the first gzip member of `compressed` with `flate2`'s
/// `read::GzDecoder` and `Read::read_to_end`. The contract claims only
/// that success and the output are those of that decoder on these bytes;
/// the I/O error returned on failure is not described.
#[verifier::external_body]
fn gunzip(compressed: &[u8]) -> (r: Result<Vec<u8>, IoError>)
    ensures
        r matches Ok(v) ==> gzip_member_decoded(compressed@) == Some(v@),
        r.is_err() ==> gzip_member_decoded(compressed@).is_none(),
{
    let mut gz = GzDecoder::new(compressed);
    let mut out: Vec<u8> = Vec::new();
    match gz.read_to_end(&mut out) {
        Ok(_) => Ok(out),
        Err(e) => Err(e),
    }
}

/// The kernel image a gzip decoder result stands for: the inflated bytes,
/// or the decoder's own error carried as an image-decoding failure.
pub fn gzip_kernel_from_decoded(decoded: Result<Vec<u8>, IoError>) -> (r: Result<Vec<u8>, StartMicrovmError>)
    ensures
        decoded matches Ok(v) ==> (r matches Ok(w) && w@ == v@),
        decoded matches Err(e) ==> (r matches Err(StartMicrovmError::ImageGzDecoder(e2)) && e2 == e),
{
    match decoded {
        Ok(v) => Ok(v),
        Err(e) => Err(StartMicrovmError::ImageGzDecoder(e)),
    }
}

/// The ELF kernel inside a gzip-compressed Image file: the file is
/// inflated from the first gzip magic on; without one the file is refused.
pub fn extract_gzip_kernel(data: &[u8]) -> (r: Result<Vec<u8>, StartMicrovmError>)
    ensures
        (forall|q: int| !occurs_at(data@, gzip_magic(), q)) ==> r matches Err(
            StartMicrovmError::ImageGzInvalid,
        ),
        forall|p: int|
            occurs_at(data@, gzip_magic(), p) && (forall|q: int|
                0 <= q < p ==> !occurs_at(data@, gzip_magic(), q)) ==> match gzip_member_decoded(
                data@.subrange(p, data@.len() as int),
            ) {
                Some(v) => (r matches Ok(w) && w@ == v),
                None => r matches Err(StartMicrovmError::ImageGzDecoder(_)),
            },
{
    let magic: [u8; 3] = [0x1f, 0x8b, 0x08];
    assert(magic@ =~= gzip_magic());
    match find_magic(data, &magic) {
        None => Err(StartMicrovmError::ImageGzInvalid),
        Some(p) => {
            let compressed = slice_from(data, p);
            let decoded = gunzip(compressed);
            proof {
                assert forall|p2: int|
                    occurs_at(data@, gzip_magic(), p2) && (forall|q: int|
                        0 <= q < p2 ==> !occurs_at(data@, gzip_magic(), q)) implies p2 == p by {
                    if p2 < p {
                    } else if p2 > p {
                        assert(!occurs_at(data@, gzip_magic(), p as int));
                    }
                }
            }
            gzip_kernel_from_decoded(decoded)
        },
    }
}

/// The bytes of `data` from position `from` on.
fn slice_from(data: &[u8], from: usize) -> (s: &[u8])
    requires
        from <= data@.len(),
    ensures
        s@ == data@.subrange(from as int, data@.len() as int),
{
    let (_, tail) = data.split_at(from);
    tail
}

/// An initrd placed in guest memory.
#[derive(Clone, Copy, Debug, PartialEq, Eq, Structural)]
pub struct InitrdConfig {
    pub address: u64,
    pub size: usize,
}

/// Where the initial ramdisk of a kernel file goes: at the layout's initrd
/// address, with the size of the image read, when one is configured.
pub fn initrd_placement(initrd_addr: u64, image_len: Option<usize>) -> (r: Option<InitrdConfig>)
    ensures
        match image_len {
            Some(n) => r == Some(InitrdConfig { address: initrd_addr, size: n }),
            None => r.is_none(),
        },
{
    match image_len {
        Some(n) => Some(InitrdConfig { address: initrd_addr, size: n }),
        None => None,
    }
}

/// Size given to the GPU window when none was configured: 8 GiB.
pub const DEFAULT_GPU_SHM_SIZE: u64 = 0x2_0000_0000;

/// Bytes a filesystem device's window takes: its size rounded up to the
/// page size, or nothing for a device without a window.
pub open spec fn shm_slot(e: Option<usize>, page: int) -> int {
    match e {
        Some(s) => align_up_spec(s as int, page),
        None => 0,
    }
}

/// The next free address once the windows of the first `n` filesystem
/// devices are placed one after another from `start`.
pub open spec fn fs_windows_end(start: int, page: int, sizes: Seq<Option<usize>>, n: nat) -> int
    decreases n,
{
    if n == 0 {
        start
    } else {
        fs_windows_end(start, page, sizes, (n - 1) as nat) + shm_slot(sizes[n - 1], page)
    }
}

/// Size asked for the GPU window: the configured one, else 8 GiB.
pub open spec fn gpu_window_request(gpu_shm_size: Option<usize>) -> int {
    match gpu_shm_size {
        Some(s) => s as int,
        None => DEFAULT_GPU_SHM_SIZE as int,
    }
}

/// Whether every window fits below the end of the guest address space and
/// a requested GPU window does not exist yet.
pub open spec fn shm_allocation_fits(m: ShmManager, sizes: Seq<Option<usize>>, gpu_enabled: bool, gpu_shm_size: Option<usize>) -> bool {
    let end = fs_windows_end(m.next_addr() as int, m.page() as int, sizes, sizes.len());
    &&& end <= u64::MAX
    &&& gpu_enabled ==> {
        &&& m.gpu_view().is_none()
        &&& end + align_up_spec(gpu_window_request(gpu_shm_size), m.page() as int) <= u64::MAX
    }
}

proof fn lemma_fs_windows_end_mono(start: int, page: int, sizes: Seq<Option<usize>>, a: nat, b: nat)
    requires
        page > 0,
        a <= b <= sizes.len(),
    ensures
        fs_windows_end(start, page, sizes, a) <= fs_windows_end(start, page, sizes, b),
    decreases b - a,
{
    if a < b {
        lemma_fs_windows_end_mono(start, page, sizes, a, (b - 1) as nat);
        if let Some(s) = sizes[b - 1] {
            crate::shm::lemma_align_up(s as int, page);
        }
    }
}


/// Each of the first `n` devices with a window size has its window at
/// `fs_windows_end` of the devices before it.
#[verifier::opaque]
spec fn fs_windows_placed(fs: Seq<(usize, ShmRegion)>, start: int, page: int, sizes: Seq<Option<usize>>, n: int) -> bool {
    forall|k: int|
        0 <= k < n ==> (#[trigger] sizes[k] matches Some(s) ==> fs.contains(
            (
                k as usize,
                ShmRegion {
                    guest_addr: fs_windows_end(start, page, sizes, k as nat) as u64,
                    size: align_up_spec(s as int, page) as usize,
                },
            ),
        ))
}

/// The windows of devices other than the first `n` with a window size are
/// those of `fs0`.
#[verifier::opaque]
spec fn fs_windows_kept(fs0: Seq<(usize, ShmRegion)>, fs: Seq<(usize, ShmRegion)>, sizes: Seq<Option<usize>>, n: int) -> bool {
    forall|e: (usize, ShmRegion)|
        !(e.0 < n && sizes[e.0 as int] is Some) ==> (fs0.contains(e) <==> #[trigger] fs.contains(e))
}

proof fn lemma_fs_windows_start(fs0: Seq<(usize, ShmRegion)>, start: int, page: int, sizes: Seq<Option<usize>>)
    ensures
        fs_windows_placed(fs0, start, page, sizes, 0),
        fs_windows_kept(fs0, fs0, sizes, 0),
{
    reveal(fs_windows_placed);
    reveal(fs_windows_kept);
}

proof fn lemma_fs_windows_skip(fs0: Seq<(usize, ShmRegion)>, fs: Seq<(usize, ShmRegion)>, start: int, page: int, sizes: Seq<Option<usize>>, i: int)
    requires
        0 <= i < sizes.len(),
        sizes[i] is None,
        fs_windows_placed(fs, start, page, sizes, i),
        fs_windows_kept(fs0, fs, sizes, i),
    ensures
        fs_windows_placed(fs, start, page, sizes, i + 1),
        fs_windows_kept(fs0, fs, sizes, i + 1),
{
    reveal(fs_windows_placed);
    reveal(fs_windows_kept);
    assert forall|e: (usize, ShmRegion)|
        !(e.0 < i + 1 && sizes[e.0 as int] is Some) implies (fs0.contains(e)
        <==> #[trigger] fs.contains(e)) by {
        if e.0 == i {
        }
    }
}

proof fn lemma_fs_windows_place(
    fs0: Seq<(usize, ShmRegion)>,
    before: Seq<(usize, ShmRegion)>,
    after: Seq<(usize, ShmRegion)>,
    start: int,
    page: int,
    sizes: Seq<Option<usize>>,
    i: int,
    region: ShmRegion,
)
    requires
        0 <= i < sizes.len(),
        i <= usize::MAX,
        sizes[i] is Some,
        region == (ShmRegion {
            guest_addr: fs_windows_end(start, page, sizes, i as nat) as u64,
            size: align_up_spec(sizes[i].unwrap() as int, page) as usize,
        }),
        after.contains((i as usize, region)),
        forall|e: (usize, ShmRegion)|
            e.0 != i ==> (before.contains(e) <==> after.contains(e)),
        fs_windows_placed(before, start, page, sizes, i),
        fs_windows_kept(fs0, before, sizes, i),
    ensures
        fs_windows_placed(after, start, page, sizes, i + 1),
        fs_windows_kept(fs0, after, sizes, i + 1),
{
    reveal(fs_windows_placed);
    reveal(fs_windows_kept);
    assert forall|k: int|
        0 <= k < i + 1 implies (#[trigger] sizes[k] matches Some(s) ==> after.contains(
        (
            k as usize,
            ShmRegion {
                guest_addr: fs_windows_end(start, page, sizes, k as nat) as u64,
                size: align_up_spec(s as int, page) as usize,
            },
        ),
    )) by {
        if k < i {
            if let Some(s) = sizes[k] {
                let e = (
                    k as usize,
                    ShmRegion {
                        guest_addr: fs_windows_end(start, page, sizes, k as nat) as u64,
                        size: align_up_spec(s as int, page) as usize,
                    },
                );
                assert(before.contains(e));
                assert(e.0 != i);
            }
        }
    }
    assert forall|e: (usize, ShmRegion)|
        !(e.0 < i + 1 && sizes[e.0 as int] is Some) implies (fs0.contains(e)
        <==> #[trigger] after.contains(e)) by {
        assert(fs0.contains(e) <==> before.contains(e));
        assert(e.0 != i);
        assert(before.contains(e) <==> after.contains(e));
    }
}

/// Allocates the shared-memory windows of guest memory: one per filesystem
/// device with a window size, in device order, then the GPU window when the
/// GPU is enabled. Stops at the first failure.
pub fn allocate_shm_regions(m: &mut ShmManager, fs_shm_sizes: &Vec<Option<usize>>, gpu_enabled: bool, gpu_shm_size: Option<usize>) -> (r: Result<(), StartMicrovmError>)
    requires
        old(m).wf(),
        gpu_enabled && gpu_shm_size.is_none() ==> 0x2_0000_0000 + old(m).page() - 1 <= usize::MAX,
        forall|i: int|
            0 <= i < fs_shm_sizes@.len() ==> (#[trigger] fs_shm_sizes@[i] matches Some(s) ==> s
                + old(m).page() - 1 <= usize::MAX),
        gpu_shm_size matches Some(s) ==> s + old(m).page() - 1 <= usize::MAX,
    ensures
        final(m).wf(),
        final(m).page() == old(m).page(),
        r.is_ok() <==> shm_allocation_fits(*old(m), fs_shm_sizes@, gpu_enabled, gpu_shm_size),
        fs_windows_end(old(m).next_addr() as int, old(m).page() as int, fs_shm_sizes@, fs_shm_sizes@.len())
            > u64::MAX ==> r matches Err(StartMicrovmError::ShmCreate(ShmError::OutOfSpace)),
        fs_windows_end(old(m).next_addr() as int, old(m).page() as int, fs_shm_sizes@, fs_shm_sizes@.len())
            <= u64::MAX && gpu_enabled && old(m).gpu_view().is_some() ==> r matches Err(
            StartMicrovmError::ShmCreate(ShmError::DuplicatedGpuRegion),
        ),
        fs_windows_end(old(m).next_addr() as int, old(m).page() as int, fs_shm_sizes@, fs_shm_sizes@.len())
            <= u64::MAX && gpu_enabled && old(m).gpu_view().is_none() && fs_windows_end(
            old(m).next_addr() as int,
            old(m).page() as int,
            fs_shm_sizes@,
            fs_shm_sizes@.len(),
        ) + align_up_spec(gpu_window_request(gpu_shm_size), old(m).page() as int) > u64::MAX
            ==> r matches Err(StartMicrovmError::ShmCreate(ShmError::OutOfSpace)),
        !gpu_enabled ==> final(m).gpu_view() == old(m).gpu_view(),
        r.is_ok() && !gpu_enabled ==> final(m).next_addr() == fs_windows_end(
            old(m).next_addr() as int,
            old(m).page() as int,
            fs_shm_sizes@,
            fs_shm_sizes@.len(),
        ),
        r.is_ok() && gpu_enabled ==> {
            let end = fs_windows_end(
                old(m).next_addr() as int,
                old(m).page() as int,
                fs_shm_sizes@,
                fs_shm_sizes@.len(),
            );
            let gsize = align_up_spec(gpu_window_request(gpu_shm_size), old(m).page() as int);
            &&& final(m).gpu_view() == Some(ShmRegion { guest_addr: end as u64, size: gsize as usize })
            &&& final(m).next_addr() == end + gsize
        },
        r.is_ok() ==> forall|i: int|
            0 <= i < fs_shm_sizes@.len() ==> (#[trigger] fs_shm_sizes@[i] matches Some(s)
                ==> final(m).fs_view().contains(
                (
                    i as usize,
                    ShmRegion {
                        guest_addr: fs_windows_end(
                            old(m).next_addr() as int,
                            old(m).page() as int,
                            fs_shm_sizes@,
                            i as nat,
                        ) as u64,
                        size: align_up_spec(s as int, old(m).page() as int) as usize,
                    },
                ),
            )),
        r.is_ok() ==> forall|e: (usize, ShmRegion)|
            !(e.0 < fs_shm_sizes@.len() && fs_shm_sizes@[e.0 as int] is Some) ==> (old(
                m,
            ).fs_view().contains(e) <==> #[trigger] final(m).fs_view().contains(e)),
{
    let ghost m0 = *m;
    let ghost start = m0.next_addr() as int;
    let ghost page = m0.page() as int;
    let ghost sizes = fs_shm_sizes@;
    proof {
        lemma_fs_windows_start(m0.fs_view(), start, page, sizes);
    }
    let mut i: usize = 0;
    while i < fs_shm_sizes.len()
        invariant
            m.wf(),
            m.page() == m0.page(),
            m0 == *old(m),
            m0.page() > 0,
            start == m0.next_addr() as int,
            page == m0.page() as int,
            sizes == fs_shm_sizes@,
            i <= sizes.len(),
            forall|k: int|
                0 <= k < sizes.len() ==> (#[trigger] sizes[k] matches Some(s) ==> s + m.page() - 1
                    <= usize::MAX),
            m.next_addr() == fs_windows_end(start, page, sizes, i as nat),
            m.gpu_view() == m0.gpu_view(),
            fs_windows_placed(m.fs_view(), start, page, sizes, i as int),
            fs_windows_kept(m0.fs_view(), m.fs_view(), sizes, i as int),
        decreases sizes.len() - i,
    {
        if let Some(size) = fs_shm_sizes[i] {
            let ghost before = *m;
            assert(sizes[i as int] == Some(size));
            match m.create_fs_region(i, size) {
                Ok(()) => {
                    proof {
                        let region = ShmRegion {
                            guest_addr: before.next_addr(),
                            size: align_up_spec(size as int, page) as usize,
                        };
                        let j = choose|j: int|
                            0 <= j < m.fs_view().len() && #[trigger] m.fs_view()[j] == (i, region);
                        assert(m.fs_view().contains((i, region)));
                        lemma_fs_windows_place(
                            m0.fs_view(),
                            before.fs_view(),
                            m.fs_view(),
                            start,
                            page,
                            sizes,
                            i as int,
                            region,
                        );
                    }
                },
                Err(e) => {
                    proof {
                        lemma_fs_windows_end_mono(start, page, sizes, (i + 1) as nat, sizes.len());
                    }
                    return Err(StartMicrovmError::ShmCreate(e));
                },
            }
        } else {
            proof {
                lemma_fs_windows_skip(m0.fs_view(), m.fs_view(), start, page, sizes, i as int);
            }
        }
        i = i + 1;
    }
    proof {
        reveal(fs_windows_placed);
        reveal(fs_windows_kept);
    }
    if gpu_enabled {
        let size = match gpu_shm_size {
            Some(s) => s,
            None => DEFAULT_GPU_SHM_SIZE as usize,
        };
        match m.create_gpu_region(size) {
            Ok(()) => {},
            Err(e) => return Err(StartMicrovmError::ShmCreate(e)),
        }
    }
    Ok(())
}

/// Whether firmware is written into guest memory: when there is firmware,
/// the VM is not being restored, and the payload is not a kernel file
/// (which is booted directly).
pub fn writes_firmware(payload: &Payload, restoring: bool, has_firmware: bool) -> (b: bool)
    ensures
        b == (has_firmware && !restoring && !(*payload is ExternalKernel)),
{
    let external = match payload {
        Payload::ExternalKernel(_) => true,
        _ => false,
    };
    has_firmware && !restoring && !external
}

} // verus!
