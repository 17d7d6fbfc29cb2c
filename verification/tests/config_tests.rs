use krun_vmm::config::{
    BlockConfigError, BlockRootConfig, BlockWindowsConfig, BlockWindowsError, ExternalKernel,
    FirmwareConfig, FsDeviceConfig, InitrdBundle, InstanceInfo, KernelBundle, KernelBundleError,
    KernelCmdlineConfig, KernelCmdlineConfigError, KernelFormat, NetWindowsError, QbootBundle,
    QbootBundleError, DEFAULT_KERNEL_CMDLINE,
};
use std::path::PathBuf;

#[test]
fn test_kernel_format_default() {
    let format = KernelFormat::default();
    assert!(matches!(format, KernelFormat::Raw));
}

#[test]
fn test_kernel_format_variants() {
    assert!(matches!(KernelFormat::Raw, KernelFormat::Raw));
    assert!(matches!(KernelFormat::Elf, KernelFormat::Elf));
    assert!(matches!(KernelFormat::PeGz, KernelFormat::PeGz));
    assert!(matches!(KernelFormat::ImageBz2, KernelFormat::ImageBz2));
    assert!(matches!(KernelFormat::ImageGz, KernelFormat::ImageGz));
    assert!(matches!(KernelFormat::ImageZstd, KernelFormat::ImageZstd));
}

#[test]
fn test_kernel_format_clone() {
    let format = KernelFormat::ImageGz;
    let cloned = format.clone();
    assert!(matches!(cloned, KernelFormat::ImageGz));
}

#[test]
fn test_kernel_format_debug() {
    let format = KernelFormat::PeGz;
    let debug_str = format!("{:?}", format);
    assert_eq!(debug_str, "PeGz");
}

#[test]
fn test_external_kernel_default() {
    let kernel = ExternalKernel::default();
    assert!(kernel.path.as_os_str().is_empty());
    assert!(matches!(kernel.format, KernelFormat::Raw));
    assert!(kernel.initramfs_path.is_none());
    assert_eq!(kernel.initramfs_size, 0);
    assert!(kernel.cmdline.is_none());
}

#[test]
fn test_external_kernel_clone() {
    let kernel = ExternalKernel {
        path: PathBuf::from("/boot/vmlinuz"),
        format: KernelFormat::ImageGz,
        initramfs_path: Some(PathBuf::from("/boot/initrd")),
        initramfs_size: 0x5000,
        cmdline: Some("console=ttyS0".to_string()),
    };
    let cloned = kernel.clone();
    assert_eq!(kernel.path, cloned.path);
    assert_eq!(kernel.format, cloned.format);
    assert_eq!(kernel.initramfs_path, cloned.initramfs_path);
    assert_eq!(kernel.initramfs_size, cloned.initramfs_size);
    assert_eq!(kernel.cmdline, cloned.cmdline);
}

#[test]
fn test_external_kernel_with_cmdline() {
    let kernel = ExternalKernel {
        path: PathBuf::from("/kernel"),
        format: KernelFormat::Elf,
        initramfs_path: None,
        initramfs_size: 0,
        cmdline: Some("quiet".to_string()),
    };
    assert_eq!(kernel.cmdline, Some("quiet".to_string()));
}

#[test]
fn test_external_kernel_with_initramfs() {
    let kernel = ExternalKernel {
        path: PathBuf::from("/kernel"),
        format: KernelFormat::Raw,
        initramfs_path: Some(PathBuf::from("/initramfs.cpio")),
        initramfs_size: 0x1234,
        cmdline: None,
    };
    assert!(kernel.initramfs_path.is_some());
    assert_eq!(kernel.initramfs_size, 0x1234);
}

#[test]
fn test_firmware_config_default() {
    let config = FirmwareConfig::default();
    assert!(config.path.as_os_str().is_empty());
}

#[test]
fn test_firmware_config_clone() {
    let config = FirmwareConfig {
        path: PathBuf::from("/usr/share/krun/firmware.bin"),
    };
    let cloned = config.clone();
    assert_eq!(config.path, cloned.path);
}

#[test]
fn test_firmware_config_with_path() {
    let config = FirmwareConfig {
        path: PathBuf::from("/firmware/ovmf.bin"),
    };
    assert_eq!(config.path.to_str(), Some("/firmware/ovmf.bin"));
}

#[test]
fn test_firmware_config_debug() {
    let config = FirmwareConfig {
        path: PathBuf::from("/test/firmware"),
    };
    let debug_str = format!("{:?}", config);
    assert!(debug_str.contains("FirmwareConfig"));
    assert!(debug_str.contains("/test/firmware"));
}

#[test]
fn test_fs_device_config_clone() {
    let config = FsDeviceConfig {
        fs_id: "myfs".to_string(),
        shared_dir: "/shared".to_string(),
        shm_size: Some(256 * 1024 * 1024),
        no_fsync: false,
    };
    let cloned = config.clone();
    assert_eq!(config.fs_id, cloned.fs_id);
    assert_eq!(config.shared_dir, cloned.shared_dir);
    assert_eq!(config.shm_size, cloned.shm_size);
    assert_eq!(config.no_fsync, cloned.no_fsync);
}

#[test]
fn test_fs_device_config_eq() {
    let config1 = FsDeviceConfig {
        fs_id: "myfs".to_string(),
        shared_dir: "/shared".to_string(),
        shm_size: Some(256 * 1024 * 1024),
        no_fsync: false,
    };
    let config2 = FsDeviceConfig {
        fs_id: "myfs".to_string(),
        shared_dir: "/shared".to_string(),
        shm_size: Some(256 * 1024 * 1024),
        no_fsync: false,
    };
    assert_eq!(config1, config2);
}

#[test]
fn test_fs_device_config_neq() {
    let config1 = FsDeviceConfig {
        fs_id: "fs1".to_string(),
        shared_dir: "/shared".to_string(),
        shm_size: None,
        no_fsync: true,
    };
    let config2 = FsDeviceConfig {
        fs_id: "fs2".to_string(),
        shared_dir: "/shared".to_string(),
        shm_size: None,
        no_fsync: true,
    };
    assert_ne!(config1, config2);
}

#[test]
fn test_fs_device_config_debug() {
    let config = FsDeviceConfig {
        fs_id: "myfs".to_string(),
        shared_dir: "/tmp/share".to_string(),
        shm_size: Some(1024),
        no_fsync: true,
    };
    let debug_str = format!("{:?}", config);
    assert!(debug_str.contains("myfs"));
    assert!(debug_str.contains("/tmp/share"));
    assert!(debug_str.contains("no_fsync"));
}

#[test]
fn test_fs_device_config_no_shm_size() {
    let config = FsDeviceConfig {
        fs_id: "fs0".to_string(),
        shared_dir: "/tmp".to_string(),
        shm_size: None,
        no_fsync: false,
    };
    assert!(config.shm_size.is_none());
}

#[test]
fn test_instance_info_debug() {
    let info = InstanceInfo {
        id: "test-vm".to_string(),
        started: false,
        vmm_version: "1.0.0".to_string(),
        app_name: "test-app".to_string(),
    };
    let debug_str = format!("{:?}", info);
    assert!(debug_str.contains("test-vm"));
    assert!(debug_str.contains("1.0.0"));
    assert!(debug_str.contains("test-app"));
}

#[test]
fn test_instance_info_clone() {
    let info = InstanceInfo {
        id: "test-vm".to_string(),
        started: true,
        vmm_version: "1.0.0".to_string(),
        app_name: "test-app".to_string(),
    };
    let cloned = info.clone();
    assert_eq!(info.id, cloned.id);
    assert_eq!(info.started, cloned.started);
    assert_eq!(info.vmm_version, cloned.vmm_version);
    assert_eq!(info.app_name, cloned.app_name);
}

#[test]
fn test_instance_info_default_started() {
    let info = InstanceInfo {
        id: "vm1".to_string(),
        started: true,
        vmm_version: "2.0.0".to_string(),
        app_name: "app1".to_string(),
    };
    assert!(info.started);
}

#[test]
fn test_instance_info_empty_strings() {
    let info = InstanceInfo {
        id: String::new(),
        started: false,
        vmm_version: String::new(),
        app_name: String::new(),
    };
    assert_eq!(info.id, "");
    assert_eq!(info.vmm_version, "");
    assert_eq!(info.app_name, "");
    assert!(!info.started);
}

#[test]
fn test_kernel_bundle_default() {
    let bundle = KernelBundle::default();
    assert_eq!(bundle.host_addr, 0);
    assert_eq!(bundle.guest_addr, 0);
    assert_eq!(bundle.entry_addr, 0);
    assert_eq!(bundle.size, 0);
}

#[test]
fn test_kernel_bundle_clone() {
    let bundle = KernelBundle {
        host_addr: 0x1000,
        guest_addr: 0x2000,
        entry_addr: 0x3000,
        size: 4096,
    };
    let cloned = bundle.clone();
    assert_eq!(bundle.host_addr, cloned.host_addr);
    assert_eq!(bundle.guest_addr, cloned.guest_addr);
    assert_eq!(bundle.entry_addr, cloned.entry_addr);
    assert_eq!(bundle.size, cloned.size);
}

#[test]
fn test_kernel_bundle_error_debug() {
    let error = KernelBundleError::InvalidGuestAddress;
    assert_eq!(format!("{:?}", error), "InvalidGuestAddress");

    let error = KernelBundleError::InvalidHostAddress;
    assert_eq!(format!("{:?}", error), "InvalidHostAddress");

    let error = KernelBundleError::InvalidSize;
    assert_eq!(format!("{:?}", error), "InvalidSize");
}

#[test]
fn test_kernel_bundle_error_display() {
    let error = KernelBundleError::InvalidGuestAddress;
    assert!(error.message().contains("Guest address"));

    let error = KernelBundleError::InvalidHostAddress;
    assert!(error.message().contains("Host address"));

    let error = KernelBundleError::InvalidSize;
    assert!(error.message().contains("Kernel size"));
}

#[test]
fn test_qboot_bundle_default() {
    let bundle = QbootBundle::default();
    assert_eq!(bundle.host_addr, 0);
    assert_eq!(bundle.size, 0);
}

#[test]
fn test_qboot_bundle_error_debug() {
    let error = QbootBundleError::InvalidSize;
    assert_eq!(format!("{:?}", error), "InvalidSize");
}

#[test]
fn test_qboot_bundle_error_display() {
    let error = QbootBundleError::InvalidSize;
    assert!(error.message().contains("64K"));
}

#[test]
fn test_initrd_bundle_default() {
    let bundle = InitrdBundle::default();
    assert_eq!(bundle.host_addr, 0);
    assert_eq!(bundle.size, 0);
}

#[test]
fn test_initrd_bundle_clone() {
    let bundle = InitrdBundle {
        host_addr: 0x5000,
        size: 8192,
    };
    let cloned = bundle.clone();
    assert_eq!(bundle.host_addr, cloned.host_addr);
    assert_eq!(bundle.size, cloned.size);
}

#[test]
fn test_kernel_cmdline_config_default() {
    let config = KernelCmdlineConfig::default();
    assert!(config.prolog.is_none());
    assert!(config.krun_env.is_none());
    assert!(config.epilog.is_none());
}

#[test]
fn test_kernel_cmdline_config_clone() {
    let config = KernelCmdlineConfig {
        prolog: Some("earlyprintk=ttyS0".to_string()),
        krun_env: Some("HOME=/".to_string()),
        epilog: Some("quiet".to_string()),
    };
    let cloned = config.clone();
    assert_eq!(config, cloned);
}

#[test]
fn test_kernel_cmdline_config_eq() {
    let config1 = KernelCmdlineConfig {
        prolog: Some("console=ttyS0".to_string()),
        krun_env: None,
        epilog: Some("quiet".to_string()),
    };
    let config2 = KernelCmdlineConfig {
        prolog: Some("console=ttyS0".to_string()),
        krun_env: None,
        epilog: Some("quiet".to_string()),
    };
    assert_eq!(config1, config2);
}

#[test]
fn test_kernel_cmdline_config_neq() {
    let config1 = KernelCmdlineConfig {
        prolog: Some("console=ttyS0".to_string()),
        krun_env: None,
        epilog: None,
    };
    let config2 = KernelCmdlineConfig {
        prolog: Some("console=ttyS1".to_string()),
        krun_env: None,
        epilog: None,
    };
    assert_ne!(config1, config2);
}

#[test]
fn test_kernel_cmdline_config_error_debug() {
    let error = KernelCmdlineConfigError::InvalidKernelCommandLine("bad cmdline".to_string());
    let debug_str = format!("{:?}", error);
    assert!(debug_str.contains("InvalidKernelCommandLine"));
    assert!(debug_str.contains("bad cmdline"));
}

#[test]
fn test_kernel_cmdline_config_error_display() {
    let error = KernelCmdlineConfigError::InvalidKernelCommandLine("empty command".to_string());
    let display_str = error.message();
    assert!(display_str.contains("The kernel command line is invalid"));
    assert!(display_str.contains("empty command"));
}

#[test]
fn test_default_kernel_cmdline_not_empty() {
    // Verify that the default kernel cmdline is not empty for all platforms
    assert!(!DEFAULT_KERNEL_CMDLINE.is_empty());
    assert!(DEFAULT_KERNEL_CMDLINE.contains("reboot=k"));
    assert!(DEFAULT_KERNEL_CMDLINE.contains("panic="));
}

#[test]
fn test_kernel_cmdline_config_with_all_fields() {
    let config = KernelCmdlineConfig {
        prolog: Some("earlyprintk".to_string()),
        krun_env: Some("DEBUG=1".to_string()),
        epilog: Some("quiet splash".to_string()),
    };
    assert!(config.prolog.is_some());
    assert!(config.krun_env.is_some());
    assert!(config.epilog.is_some());
}

#[test]
fn test_block_config_error_debug() {
    let io_error = std::io::Error::new(std::io::ErrorKind::Other, "test error");
    let error = BlockConfigError::CreateBlockDevice(io_error);
    let debug_str = format!("{:?}", error);
    assert!(debug_str.contains("CreateBlockDevice"));
}

#[test]
fn test_block_config_error_display() {
    let io_error = std::io::Error::new(std::io::ErrorKind::NotFound, "file not found");
    let error = BlockConfigError::CreateBlockDevice(io_error);
    let display_str = error.message();
    assert!(display_str.contains("Cannot create block device"));
}

#[test]
fn test_block_root_config_with_values() {
    let config = BlockRootConfig {
        device: "/dev/sda1".to_string(),
        fstype: Some("ext4".to_string()),
        options: Some("rw".to_string()),
    };
    assert_eq!(config.device, "/dev/sda1");
    assert_eq!(config.fstype, Some("ext4".to_string()));
    assert_eq!(config.options, Some("rw".to_string()));
}

#[test]
fn kernel_cmdline_error_message_is_prefix_then_text() {
    let error = KernelCmdlineConfigError::InvalidKernelCommandLine("x y".to_string());
    assert_eq!(error.message(), "The kernel command line is invalid: x y");
}

#[test]
fn io_error_messages_start_with_their_prefix() {
    let e = BlockWindowsError::OpenDisk(std::io::Error::new(std::io::ErrorKind::NotFound, "gone"));
    assert_eq!(e.message(), "BlockWindows disk open failed: gone");
    let e = NetWindowsError::ConnectBackend(std::io::Error::new(
        std::io::ErrorKind::Other,
        "refused",
    ));
    assert_eq!(e.message(), "TCP backend connect failed: refused");
    let e = NetWindowsError::CreateDevice(std::io::Error::new(std::io::ErrorKind::Other, "nodev"));
    assert_eq!(e.message(), "NetWindows device creation failed: nodev");
    let e = BlockConfigError::CreateBlockDevice(std::io::Error::new(
        std::io::ErrorKind::Other,
        "bad",
    ));
    assert!(e.message().starts_with("Cannot create block device: Custom"));
}

#[test]
fn bundle_error_messages_are_exact() {
    assert_eq!(
        KernelBundleError::InvalidGuestAddress.message(),
        "Guest address is not page-aligned"
    );
    assert_eq!(
        KernelBundleError::InvalidHostAddress.message(),
        "Host address is zero or not page-aligned"
    );
    assert_eq!(
        KernelBundleError::InvalidSize.message(),
        "Kernel size is zero or not a multiple of the page size"
    );
    assert_eq!(QbootBundleError::InvalidSize.message(), "qboot binary is not 64K long.");
}

#[test]
fn block_windows_config_holds_values() {
    let config = BlockWindowsConfig {
        block_id: "disk0".to_string(),
        disk_image_path: "C:\\disk.img".to_string(),
        is_disk_read_only: true,
    };
    assert_eq!(config.clone(), config);
}
