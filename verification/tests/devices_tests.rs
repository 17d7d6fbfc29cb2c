use krun_vmm::console::{
    autoconfigure_console_ports, console_device_id, create_explicit_ports,
    setup_terminal_raw_mode, term_raw_mode_flags, PortConfig, PortOutput, PortPlan,
};
use krun_vmm::mmio::{
    device_cmdline_value, share_vsock_irq_from_value, MMIODeviceManager, MmioError, MMIO_LEN,
    TYPE_VSOCK,
};

#[test]
fn mmio_error_messages() {
    assert_eq!(MmioError::UpdateFailed.message(), "failed to update the mmio device");
    assert_eq!(MmioError::IrqsExhausted.message(), "no more IRQs are available");
    assert_eq!(
        MmioError::Cmdline("has equals".to_string()).message(),
        "unable to add device to kernel command line: has equals"
    );
    let e = MmioError::EventFd(std::io::Error::new(std::io::ErrorKind::Other, "efd"));
    assert_eq!(e.message(), "failed to create or clone event descriptor: efd");
}

#[test]
fn devices_get_consecutive_windows_and_lines() {
    let mut base = 0xd000_0000u64;
    let mut m = MMIODeviceManager::new(&mut base, (5, 7));
    assert_eq!(base, 0xd000_0000);
    assert_eq!(m.register_mmio_device(2, "blk0".to_string(), true).unwrap(), (0xd000_0000, 5));
    assert_eq!(m.register_mmio_device(1, "net0".to_string(), true).unwrap(), (0xd000_1000, 6));
    // vsock shares the previous line.
    assert_eq!(m.assign_slot(TYPE_VSOCK, true).unwrap(), (0xd000_2000, 6));
    assert_eq!(m.assign_slot(TYPE_VSOCK, false).unwrap(), (0xd000_2000, 7));
    assert_eq!(m.register_mmio_device(TYPE_VSOCK, "vsock".to_string(), true).unwrap(), (0xd000_2000, 6));
    assert!(matches!(
        m.register_mmio_device(3, "x".to_string(), true),
        Err(MmioError::IrqsExhausted)
    ));
    let info = m.device_info(1, &"net0".to_string()).unwrap();
    assert_eq!(info.addr(), 0xd000_1000);
    assert_eq!(info.irq(), 6);
    assert_eq!(info.len(), MMIO_LEN);
    assert!(m.device_info(1, &"blk0".to_string()).is_none());
}

#[test]
fn reregistering_replaces_the_record() {
    let mut base = 0x1000u64;
    let mut m = MMIODeviceManager::new(&mut base, (0, 10));
    m.register_mmio_device(2, "a".to_string(), false).unwrap();
    m.register_mmio_device(2, "a".to_string(), false).unwrap();
    assert_eq!(m.device_info(2, &"a".to_string()).unwrap().addr(), 0x2000);
}

#[test]
fn vsock_line_sharing_setting() {
    assert!(share_vsock_irq_from_value(None));
    assert!(share_vsock_irq_from_value(Some("1")));
    assert!(share_vsock_irq_from_value(Some(" 0")));
    assert!(!share_vsock_irq_from_value(Some("0")));
}

#[test]
fn cmdline_entries() {
    assert_eq!(device_cmdline_value(0xd000_0000, 5), "4K@0xd0000000:5");
    assert_eq!(device_cmdline_value(0x1000, 12), "4K@0x00001000:12");
    assert_eq!(device_cmdline_value(0x1_0000_0000, 0), "4K@0x100000000:0");
    assert_eq!(
        device_cmdline_value(0xfeed_b000, 4321),
        format!("4K@0x{:08x}:{}", 0xfeed_b000u64, 4321)
    );
}

#[test]
fn console_ports() {
    let p = autoconfigure_console_ports(true, false, true, None);
    assert_eq!(
        p,
        vec![PortPlan { name: None, input_fd: Some(0), output: Some(PortOutput::File), terminal: true }]
    );
    let p = autoconfigure_console_ports(true, true, true, Some((-1, 4)));
    assert_eq!(
        p,
        vec![PortPlan { name: None, input_fd: None, output: Some(PortOutput::Fd(4)), terminal: true }]
    );
    let p = autoconfigure_console_ports(false, false, true, None);
    assert_eq!(p[0].input_fd, Some(0));
    assert_eq!(p[0].output, Some(PortOutput::Fd(1)));

    let ports = create_explicit_ports(&vec![
        PortConfig::Tty { name: "tty".to_string(), tty_fd: 3 },
        PortConfig::InOut { name: "io".to_string(), input_fd: -1, output_fd: 5 },
    ]);
    assert_eq!(ports.len(), 2);
    assert_eq!(
        ports[0],
        PortPlan {
            name: Some("tty".to_string()),
            input_fd: Some(3),
            output: Some(PortOutput::Fd(3)),
            terminal: true
        }
    );
    assert_eq!(
        ports[1],
        PortPlan {
            name: Some("io".to_string()),
            input_fd: None,
            output: Some(PortOutput::Fd(5)),
            terminal: false
        }
    );
    assert_eq!(console_device_id(0), "hvc0");
    assert_eq!(console_device_id(17), "hvc17");
}

#[test]
fn raw_mode_flags() {
    assert_eq!(term_raw_mode_flags(0xffff, true), 0xfff5);
    assert_eq!(term_raw_mode_flags(0xffff, false), 0xfff4);
    assert_eq!(setup_terminal_raw_mode(None, false), None);
    assert_eq!(setup_terminal_raw_mode(Some(0x8a3b), false), Some(0x8a30));
}
