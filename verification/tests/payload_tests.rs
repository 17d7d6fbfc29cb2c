use flate2::write::GzEncoder;
use flate2::Compression;
use krun_vmm::config::{ExternalKernel, KernelBundle, KernelFormat};
use krun_vmm::errors::{StartMicrovmError, VmError};
use krun_vmm::mmio::MmioError;
use krun_vmm::payload::{
    allocate_shm_regions, bundled_kernel_copy, choose_payload, extract_gzip_kernel, find_magic,
    kernel_file_load, writes_firmware, KernelCopy, KernelFileLoad, Payload,
};
use krun_vmm::shm::{ShmError, ShmManager};
use krun_vmm::snapshot::{
    check_vcpu_count, file_backed_layout, nonempty_setting, sync_mem_backing, MmioDeviceStateSer,
    QueueStateSer, SnapshotError, SnapshotState,
};
use std::io::Write;
use std::path::PathBuf;

#[test]
fn payload_choice_order() {
    assert!(matches!(choose_payload(true, None, true), Ok(Payload::KernelMmap)));
    let k = ExternalKernel { path: PathBuf::from("/k"), format: KernelFormat::Elf, ..Default::default() };
    match choose_payload(false, Some(k), true) {
        Ok(Payload::ExternalKernel(k)) => assert_eq!(k.path, PathBuf::from("/k")),
        _ => panic!("expected a kernel file"),
    }
    assert!(matches!(choose_payload(false, None, true), Ok(Payload::Firmware)));
    assert!(matches!(
        choose_payload(false, None, false),
        Err(StartMicrovmError::MissingKernelConfig)
    ));
}

#[test]
fn bundled_kernel_must_fit() {
    let b = KernelBundle { host_addr: 0x7000_0000, guest_addr: 0x100_0000, entry_addr: 0x100_0200, size: 0x1000 };
    assert_eq!(
        bundled_kernel_copy(Some(b), 0x100_1000).unwrap(),
        KernelCopy { host_addr: 0x7000_0000, guest_addr: 0x100_0000, size: 0x1000, entry_addr: 0x100_0200 }
    );
    assert!(matches!(
        bundled_kernel_copy(Some(b), 0x100_0fff),
        Err(StartMicrovmError::KernelDoesNotFit(0x100_0000, 0x1000))
    ));
    assert!(matches!(bundled_kernel_copy(None, 0), Err(StartMicrovmError::MissingKernelConfig)));
}

#[test]
fn kernel_formats_on_this_host() {
    assert_eq!(kernel_file_load(KernelFormat::Elf).unwrap(), KernelFileLoad::Elf);
    assert_eq!(kernel_file_load(KernelFormat::ImageGz).unwrap(), KernelFileLoad::GzipElf);
    for f in [KernelFormat::PeGz, KernelFormat::ImageBz2, KernelFormat::ImageZstd] {
        assert!(matches!(kernel_file_load(f), Err(StartMicrovmError::KernelFormatUnsupported)));
    }
}

#[test]
fn magic_search_finds_first_occurrence() {
    assert_eq!(find_magic(&[0, 0x1f, 0x8b, 0x08, 0x1f, 0x8b, 0x08], &[0x1f, 0x8b, 0x08]), Some(1));
    assert_eq!(find_magic(&[0x1f, 0x8b], &[0x1f, 0x8b, 0x08]), None);
    assert_eq!(find_magic(&[1, 2, 3], &[3]), Some(2));
}

#[test]
fn gzip_kernel_is_inflated_from_the_magic_on() {
    let kernel: Vec<u8> = (0..5000u32).map(|i| (i % 251) as u8).collect();
    let mut e = GzEncoder::new(Vec::new(), Compression::default());
    e.write_all(&kernel).unwrap();
    let gz = e.finish().unwrap();
    let mut image = b"MZ header bytes".to_vec();
    image.extend_from_slice(&gz);
    let out = extract_gzip_kernel(&image).unwrap();
    assert_eq!(out, kernel);

    assert!(matches!(extract_gzip_kernel(b"no magic here"), Err(StartMicrovmError::ImageGzInvalid)));
    let broken = [0x00, 0x1f, 0x8b, 0x08, 0x00, 0x00];
    assert!(matches!(extract_gzip_kernel(&broken), Err(StartMicrovmError::ImageGzDecoder(_))));
}

#[test]
fn shared_memory_windows_for_fs_and_gpu() {
    let mut m = ShmManager::new(0x1_0000_0000, 4096);
    allocate_shm_regions(&mut m, &vec![Some(100), None, Some(8192)], true, None).unwrap();
    assert_eq!(
        m.regions(),
        vec![(0x1_0000_0000, 4096), (0x1_0000_1000, 8192), (0x1_0000_3000, 1 << 33)]
    );
    let mut m = ShmManager::new(u64::MAX - 0x1000, 4096);
    assert!(matches!(
        allocate_shm_regions(&mut m, &vec![Some(0x2000)], false, None),
        Err(StartMicrovmError::ShmCreate(ShmError::OutOfSpace))
    ));
}

#[test]
fn shared_memory_gpu_window_uses_configured_size() {
    let mut m = ShmManager::new(0x1000, 4096);
    allocate_shm_regions(&mut m, &vec![None, Some(1)], true, Some(5000)).unwrap();
    assert_eq!(m.fs_region(0), None);
    assert_eq!(m.fs_region(1).map(|r| (r.guest_addr, r.size)), Some((0x1000, 4096)));
    assert_eq!(m.gpu_region().map(|r| (r.guest_addr, r.size)), Some((0x2000, 8192)));
    assert_eq!(m.next_guest_addr(), 0x4000);

    // A second GPU window is refused.
    assert!(matches!(
        allocate_shm_regions(&mut m, &vec![], true, Some(4096)),
        Err(StartMicrovmError::ShmCreate(ShmError::DuplicatedGpuRegion))
    ));

    // No GPU: the GPU window is left alone.
    let mut m = ShmManager::new(0x1000, 4096);
    allocate_shm_regions(&mut m, &vec![Some(4096)], false, Some(4096)).unwrap();
    assert_eq!(m.gpu_region(), None);
    assert_eq!(m.next_guest_addr(), 0x2000);

    // The GPU window alone overflows the address space.
    let mut m = ShmManager::new(u64::MAX - 0x3fff, 4096);
    assert!(matches!(
        allocate_shm_regions(&mut m, &vec![Some(4096)], true, None),
        Err(StartMicrovmError::ShmCreate(ShmError::OutOfSpace))
    ));
}

#[test]
fn firmware_placement() {
    assert!(writes_firmware(&Payload::Firmware, false, true));
    assert!(!writes_firmware(&Payload::Firmware, true, true));
    assert!(!writes_firmware(&Payload::KernelMmap, false, false));
    assert!(!writes_firmware(&Payload::ExternalKernel(ExternalKernel::default()), false, true));
}

#[test]
fn start_error_messages() {
    assert_eq!(
        StartMicrovmError::MissingKernelConfig.message(),
        "Cannot start microvm without kernel configuration."
    );
    assert_eq!(
        StartMicrovmError::KernelDoesNotFit(4096, 77).message(),
        "The kernel doesn't fit in the microVM memory (load_addr=4096, size=77)"
    );
    assert_eq!(
        StartMicrovmError::LoadCommandline("\"too\" large".to_string()).message(),
        "Cannot load command line string. too large"
    );
    assert_eq!(
        StartMicrovmError::ShmCreate(ShmError::OutOfSpace).message(),
        "Error while creating an SHM region. OutOfSpace"
    );
    assert_eq!(
        StartMicrovmError::RegisterNetDevice(MmioError::Cmdline("\"x\"".to_string())).message(),
        "Cannot initialize a MMIO Network Device or add a device to the MMIO Bus. unable to add device to kernel command line: x"
    );
    assert_eq!(
        StartMicrovmError::RestoreState(VmError::VcpuRun).message(),
        "Cannot restore VM/vCPU state from snapshot. Cannot run the VCPUs"
    );
    let e = StartMicrovmError::OpenBlockDevice(std::io::Error::new(std::io::ErrorKind::Other, "x"));
    let m = e.message();
    assert!(m.starts_with("Cannot open the block device backing file. "));
    assert!(!m.contains('"'));
    let e = StartMicrovmError::InvalidKernelBundle(std::io::Error::new(
        std::io::ErrorKind::Other,
        "bad \"bundle\"",
    ));
    assert_eq!(
        e.message(),
        "Cannot inject the kernel into the guest memory due to a problem with the bundle. bad bundle"
    );
    let e = StartMicrovmError::ImageGzOpenKernel(std::io::Error::new(std::io::ErrorKind::Other, "nope"));
    assert_eq!(e.message(), "Cannot open the file containing the kernel code. nope");
    assert_eq!(VmError::VmSetup.message(), "Cannot configure the microvm");
    assert!(VmError::VcpuSpawn(std::io::Error::new(std::io::ErrorKind::Other, "spawn"))
        .message()
        .contains("Cannot spawn a new vCPU thread"));
}

#[test]
fn snapshot_decisions() {
    assert!(sync_mem_backing(true).is_ok());
    assert_eq!(sync_mem_backing(false), Err(SnapshotError::NotFileBacked));
    assert_eq!(
        SnapshotError::NotFileBacked.message(),
        "guest RAM is not file-backed (KRUN_SNAPSHOT_MEM_FILE unset)"
    );
    assert_eq!(check_vcpu_count(2, 2), Ok(()));
    assert_eq!(check_vcpu_count(1, 2), Err(SnapshotError::VcpuCountMismatch));
    assert_eq!(nonempty_setting(None), None);
    assert_eq!(nonempty_setting(Some(String::new())), None);
    assert_eq!(nonempty_setting(Some("/tmp/ram".to_string())), Some("/tmp/ram".to_string()));
    let (layout, total) = file_backed_layout(&vec![(0, 0x1000), (0x10_0000, 0x3000), (0x1_0000_0000, 0x20)]);
    assert_eq!(layout, vec![(0, 0x1000, 0), (0x10_0000, 0x3000, 0x1000), (0x1_0000_0000, 0x20, 0x4000)]);
    assert_eq!(total, 0x4020);
    let state: SnapshotState<u8, u8> = SnapshotState {
        vm_state: 1,
        vcpu_states: vec![2],
        mem_layout: layout,
        device_states: vec![(0xd000_0000, MmioDeviceStateSer { queues: vec![QueueStateSer::default()], ..Default::default() })],
    };
    assert_eq!(state.device_states[0].1.queues.len(), 1);
}
