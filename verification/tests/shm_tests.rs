use krun_vmm::shm::{ShmError, ShmManager, ShmRegion};

fn create_test_manager() -> ShmManager {
    ShmManager::new(0x1_0000_0000, 4096)
}

#[test]
fn test_shm_manager_new() {
    let manager = create_test_manager();
    assert!(manager.regions().is_empty());
    assert!(manager.gpu_region().is_none());
}

#[test]
fn test_shm_region_clone() {
    let region = ShmRegion {
        guest_addr: 0x1000,
        size: 4096,
    };
    let cloned = region.clone();
    assert_eq!(region.guest_addr, cloned.guest_addr);
    assert_eq!(region.size, cloned.size);
}

#[test]
fn test_shm_manager_regions_empty() {
    let manager = create_test_manager();
    let regions = manager.regions();
    assert!(regions.is_empty());
}

#[test]
fn test_create_region() {
    let mut manager = create_test_manager();
    manager.create_fs_region(0, 4096).unwrap();
    let region = manager.fs_region(0).unwrap();
    assert_eq!(region.guest_addr, 0x1_0000_0000);
    assert_eq!(region.size, 4096);
}

#[test]
fn test_create_region_aligned() {
    let mut manager = create_test_manager();
    // Request size that is not page-aligned
    manager.create_fs_region(0, 100).unwrap();
    let region = manager.fs_region(0).unwrap();
    // Should be aligned up to page size
    assert!(region.size >= 100);
    assert_eq!(region.size % 4096, 0);
}

#[test]
fn test_create_region_out_of_space() {
    // Next free address close to overflow
    let mut manager = ShmManager::new(u64::MAX - 100, 4096);
    let result = manager.create_gpu_region(4096);
    assert!(matches!(result, Err(ShmError::OutOfSpace)));
    assert_eq!(manager.next_guest_addr(), u64::MAX - 100);
}

#[test]
fn test_create_gpu_region() {
    let mut manager = create_test_manager();
    let result = manager.create_gpu_region(8192);
    assert!(result.is_ok());
    let gpu_region = manager.gpu_region();
    assert!(gpu_region.is_some());
    assert_eq!(gpu_region.unwrap().size, 8192);
}

#[test]
fn test_create_gpu_region_duplicated() {
    let mut manager = create_test_manager();
    manager.create_gpu_region(4096).unwrap();
    let result = manager.create_gpu_region(4096);
    assert!(matches!(result, Err(ShmError::DuplicatedGpuRegion)));
}

#[test]
fn test_regions_with_gpu() {
    let mut manager = create_test_manager();
    manager.create_gpu_region(4096).unwrap();
    let regions = manager.regions();
    assert_eq!(regions.len(), 1);
    assert_eq!(regions[0].0, 0x1_0000_0000);
    assert_eq!(regions[0].1, 4096);
}

#[test]
fn test_error_debug() {
    let err = ShmError::DuplicatedGpuRegion;
    assert_eq!(format!("{:?}", err), "DuplicatedGpuRegion");
    let err = ShmError::OutOfSpace;
    assert_eq!(format!("{:?}", err), "OutOfSpace");
}

#[test]
fn windows_follow_each_other_without_overlap() {
    let mut manager = create_test_manager();
    manager.create_fs_region(2, 5000).unwrap();
    manager.create_fs_region(0, 1).unwrap();
    manager.create_gpu_region(4096).unwrap();
    let regions = manager.regions();
    // Filesystem windows in index order, then the GPU window.
    assert_eq!(
        regions,
        vec![(0x1_0000_2000, 4096), (0x1_0000_0000, 8192), (0x1_0000_3000, 4096)]
    );
    assert_eq!(manager.next_guest_addr(), 0x1_0000_4000);
}

#[test]
fn replacing_a_filesystem_window_keeps_one_entry() {
    let mut manager = create_test_manager();
    manager.create_fs_region(1, 4096).unwrap();
    manager.create_fs_region(1, 4096).unwrap();
    assert_eq!(manager.regions(), vec![(0x1_0000_1000, 4096)]);
    assert_eq!(manager.fs_region(1).unwrap().guest_addr, 0x1_0000_1000);
    assert!(manager.fs_region(0).is_none());
}
