use krun_vmm::config::{BlockConfigError, BlockRootConfig, BlockWindowsError, NetWindowsError};
use krun_vmm::errors::StartMicrovmError::{
    AttachBlockDevice, CreateRateLimiter, Internal, InvalidKernelBundle, KernelCmdline,
    LoadCommandline, MicroVMAlreadyRunning, MissingKernelConfig, MissingMemSizeConfig,
    NetDeviceNotConfigured, OpenBlockDevice, RegisterBlockDevice, RegisterEvent,
    RegisterNetDevice, RegisterVsockDevice,
};
use krun_vmm::errors::{StartMicrovmError, VmError};
use krun_vmm::mmio::MmioError;
use std::io;

fn shown(err: &StartMicrovmError) -> String {
    format!("{}{:?}", err.message(), err)
}

#[test]
fn builder_test_error_messages() {
    let err = AttachBlockDevice(io::Error::from_raw_os_error(0));
    assert!(shown(&err).starts_with("Unable to attach block device to Vmm. Error: "));

    let err = CreateRateLimiter(io::Error::from_raw_os_error(0));
    assert!(shown(&err).starts_with("Cannot create RateLimiter: "));

    let err = Internal("serial".to_string());
    assert!(shown(&err).starts_with("Internal error while starting microVM: serial"));

    let err = InvalidKernelBundle(io::Error::from_raw_os_error(0));
    assert!(shown(&err).starts_with(
        "Cannot inject the kernel into the guest memory due to a problem with the bundle. "
    ));

    let err = KernelCmdline(String::from("dummy --cmdline"));
    assert!(shown(&err).starts_with("Invalid kernel command line: dummy --cmdline"));

    let err = LoadCommandline("TooLarge".to_string());
    assert!(shown(&err).starts_with("Cannot load command line string. TooLarge"));

    let err = MicroVMAlreadyRunning;
    assert!(shown(&err).starts_with("Microvm already running."));

    let err = MissingKernelConfig;
    assert!(shown(&err).starts_with("Cannot start microvm without kernel configuration."));

    let err = MissingMemSizeConfig;
    assert!(shown(&err).starts_with("Cannot start microvm without guest mem_size config."));

    let err = NetDeviceNotConfigured;
    assert!(shown(&err).starts_with("The net device configuration is missing the tap device."));

    let err = OpenBlockDevice(io::Error::from_raw_os_error(0));
    assert!(shown(&err).starts_with("Cannot open the block device backing file. "));

    let err = RegisterBlockDevice(MmioError::EventFd(io::Error::from_raw_os_error(0)));
    assert!(shown(&err).starts_with(
        "Cannot initialize a MMIO Block Device or add a device to the MMIO Bus. failed to create or clone event descriptor: "
    ));

    let err = RegisterEvent("EpollCreate".to_string());
    assert!(shown(&err).starts_with("Cannot register EventHandler. EpollCreate"));

    let err = RegisterNetDevice(MmioError::EventFd(io::Error::from_raw_os_error(0)));
    assert!(shown(&err).starts_with("Cannot initialize a MMIO Network Device"));

    let err = RegisterVsockDevice(MmioError::EventFd(io::Error::from_raw_os_error(0)));
    assert!(shown(&err).starts_with("Cannot initialize a MMIO Vsock Device"));
}

#[test]
fn mmio_test_error_messages() {
    let e = MmioError::Cmdline("String contains an equals sign".to_string());
    assert_eq!(
        e.message(),
        format!(
            "unable to add device to kernel command line: {}",
            "String contains an equals sign"
        ),
    );
    assert_eq!(MmioError::UpdateFailed.message(), "failed to update the mmio device");
    assert_eq!(MmioError::IrqsExhausted.message(), "no more IRQs are available");
}

#[test]
fn test_error_display_messages() {
    assert!(VmError::VmSetup.message().contains("Cannot configure the microvm"));
    assert!(VmError::VcpuRun.message().contains("Cannot run the VCPUs"));
    assert!(VmError::VcpuSpawn(io::Error::new(io::ErrorKind::Other, "spawn"))
        .message()
        .contains("Cannot spawn a new vCPU thread"));
}

#[test]
fn test_block_root_config_default() {
    let config = BlockRootConfig::default();
    assert_eq!(config.device, "");
    assert!(config.fstype.is_none());
    assert!(config.options.is_none());
}

#[test]
fn messages_carry_the_io_error_text() {
    let spawn = VmError::VcpuSpawn(io::Error::new(io::ErrorKind::Other, "boom"));
    assert_eq!(spawn.message_with_io_text("boom"), "Cannot spawn a new vCPU thread: boom");
    assert_eq!(spawn.message(), "Cannot spawn a new vCPU thread: boom");

    let e = MmioError::EventFd(io::Error::from_raw_os_error(0));
    assert_eq!(
        e.message_with_io_text("no fd"),
        "failed to create or clone event descriptor: no fd"
    );

    let e = StartMicrovmError::OpenBlockDevice(io::Error::from_raw_os_error(0));
    assert_eq!(
        e.message_with_io_texts("ignored", "Custom { error: \"disk\" }"),
        "Cannot open the block device backing file. Custom { error: disk }"
    );
    let e = RegisterNetDevice(MmioError::EventFd(io::Error::from_raw_os_error(0)));
    assert_eq!(
        e.message_with_io_texts("bad \"fd\"", ""),
        "Cannot initialize a MMIO Network Device or add a device to the MMIO Bus. failed to create or clone event descriptor: bad fd"
    );
    let e = StartMicrovmError::RestoreState(VmError::VcpuSpawn(io::Error::from_raw_os_error(0)));
    assert_eq!(
        e.message_with_io_texts("again", ""),
        "Cannot restore VM/vCPU state from snapshot. Cannot spawn a new vCPU thread: again"
    );
    let e = StartMicrovmError::RawOpenKernel(io::Error::new(io::ErrorKind::Other, "gone"));
    assert_eq!(e.message(), "Cannot open the file containing the kernel code: gone");

    let e = BlockConfigError::CreateBlockDevice(io::Error::from_raw_os_error(0));
    assert_eq!(e.message_with_io_text("Os"), "Cannot create block device: Os");
    let e = BlockWindowsError::OpenDisk(io::Error::from_raw_os_error(0));
    assert_eq!(e.message_with_io_text("denied"), "BlockWindows disk open failed: denied");
    let e = NetWindowsError::ConnectBackend(io::Error::from_raw_os_error(0));
    assert_eq!(e.message_with_io_text("refused"), "TCP backend connect failed: refused");
    let e = NetWindowsError::CreateDevice(io::Error::new(io::ErrorKind::Other, "x"));
    assert_eq!(e.message(), "NetWindows device creation failed: x");
}
