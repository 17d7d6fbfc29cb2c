use krun_vmm::inject::{
    PicFixedBuilderDirectMode, PicFixedInjectionMode, PicFixedRequestInterruptType, PicFixedTarget,
};
use krun_vmm::options::{
    flag_enabled, flag_true, hyperv_enlightenments_from_value,
    pic_fixed_builder_direct_mode_from_value, pic_fixed_injection_mode_from_value,
    pic_fixed_pending_interruption_from_value, pic_fixed_request_interrupt_type_from_value,
    pic_fixed_target_from_value, pic_fixed_vector_override_from_value, should_always_log_io_port,
    should_log_mmio_gpa, windows_attach_implicit_virtio_console,
    windows_kernel_cmdline_append_from_value, windows_pending_event_halted_reenter,
};

#[test]
fn hyperv_enlightenments_are_boot_safe_by_default() {
    assert!(hyperv_enlightenments_from_value(None));
    assert!(hyperv_enlightenments_from_value(Some("true")));
    assert!(!hyperv_enlightenments_from_value(Some("false")));
}

#[test]
fn hyperv_enlightenments_accept_trimmed_mixed_case() {
    assert!(hyperv_enlightenments_from_value(Some("  ON \n")));
    assert!(hyperv_enlightenments_from_value(Some("Yes")));
    assert!(hyperv_enlightenments_from_value(Some("1")));
    assert!(!hyperv_enlightenments_from_value(Some("")));
    assert!(!hyperv_enlightenments_from_value(Some("0")));
    assert!(!hyperv_enlightenments_from_value(Some("enabled")));
}

#[test]
fn switches_differ_on_the_word_on() {
    assert!(flag_enabled(Some("on")));
    assert!(!flag_true(Some("on")));
    assert!(flag_true(Some(" TRUE ")));
    assert!(flag_enabled(Some("\u{3000}yes\u{a0}")));
    assert!(!flag_enabled(None));
    assert!(!flag_true(None));
    assert!(!flag_true(Some("2")));
}

#[test]
fn implicit_virtio_console_defaults_off() {
    assert!(!windows_attach_implicit_virtio_console(None));
    assert!(windows_attach_implicit_virtio_console(Some("1")));
    assert!(!windows_attach_implicit_virtio_console(Some("off")));
}

#[test]
fn halted_pending_event_always_reenters() {
    assert!(windows_pending_event_halted_reenter());
}

#[test]
fn injection_modes_parse() {
    assert_eq!(pic_fixed_injection_mode_from_value(None), PicFixedInjectionMode::RequestInterrupt);
    assert_eq!(
        pic_fixed_injection_mode_from_value(Some(" Register ")),
        PicFixedInjectionMode::PendingInterruption
    );
    assert_eq!(
        pic_fixed_injection_mode_from_value(Some("pending-interrupt")),
        PicFixedInjectionMode::PendingInterruption
    );
    assert_eq!(
        pic_fixed_injection_mode_from_value(Some("request")),
        PicFixedInjectionMode::RequestInterrupt
    );
    assert!(pic_fixed_pending_interruption_from_value(Some("PENDING-INTERRUPTION")));
    assert!(!pic_fixed_pending_interruption_from_value(None));
}

#[test]
fn builder_direct_modes_parse() {
    assert_eq!(
        pic_fixed_builder_direct_mode_from_value(Some("extint")),
        PicFixedBuilderDirectMode::PendingEventExtInt
    );
    assert_eq!(
        pic_fixed_builder_direct_mode_from_value(Some("Event")),
        PicFixedBuilderDirectMode::PendingEventExtInt
    );
    assert_eq!(
        pic_fixed_builder_direct_mode_from_value(Some("other")),
        PicFixedBuilderDirectMode::PendingInterruption
    );
    assert_eq!(
        pic_fixed_builder_direct_mode_from_value(None),
        PicFixedBuilderDirectMode::PendingInterruption
    );
}

#[test]
fn targets_parse() {
    assert_eq!(pic_fixed_target_from_value(None), PicFixedTarget::PhysicalZero);
    assert_eq!(pic_fixed_target_from_value(Some("apic-id")), PicFixedTarget::PhysicalApicId);
    assert_eq!(pic_fixed_target_from_value(Some("ONE")), PicFixedTarget::PhysicalOne);
    assert_eq!(pic_fixed_target_from_value(Some("broadcast")), PicFixedTarget::PhysicalBroadcast);
    assert_eq!(pic_fixed_target_from_value(Some("logical")), PicFixedTarget::LogicalLdr);
    assert_eq!(
        pic_fixed_target_from_value(Some("logical-broadcast")),
        PicFixedTarget::LogicalBroadcast
    );
    assert_eq!(pic_fixed_target_from_value(Some("zero")), PicFixedTarget::PhysicalZero);
}

#[test]
fn request_types_parse() {
    assert_eq!(
        pic_fixed_request_interrupt_type_from_value(Some("lp")),
        PicFixedRequestInterruptType::LowestPriority
    );
    assert_eq!(
        pic_fixed_request_interrupt_type_from_value(Some("NMI")),
        PicFixedRequestInterruptType::Nmi
    );
    assert_eq!(
        pic_fixed_request_interrupt_type_from_value(Some("lint1")),
        PicFixedRequestInterruptType::LocalInt1
    );
    assert_eq!(
        pic_fixed_request_interrupt_type_from_value(None),
        PicFixedRequestInterruptType::Fixed
    );
}

#[test]
fn vector_override_reads_hex_and_decimal() {
    assert_eq!(pic_fixed_vector_override_from_value(None), None);
    assert_eq!(pic_fixed_vector_override_from_value(Some("   ")), None);
    assert_eq!(pic_fixed_vector_override_from_value(Some("0x30")), Some(0x30));
    assert_eq!(pic_fixed_vector_override_from_value(Some("0XfF")), Some(0xff));
    assert_eq!(pic_fixed_vector_override_from_value(Some(" 48 ")), Some(48));
    assert_eq!(pic_fixed_vector_override_from_value(Some("+7")), Some(7));
    assert_eq!(pic_fixed_vector_override_from_value(Some("0x+a")), Some(10));
    assert_eq!(pic_fixed_vector_override_from_value(Some("256")), None);
    assert_eq!(pic_fixed_vector_override_from_value(Some("0x100")), None);
    assert_eq!(pic_fixed_vector_override_from_value(Some("0x")), None);
    assert_eq!(pic_fixed_vector_override_from_value(Some("+")), None);
    assert_eq!(pic_fixed_vector_override_from_value(Some("-1")), None);
    assert_eq!(pic_fixed_vector_override_from_value(Some("12a")), None);
    assert_eq!(pic_fixed_vector_override_from_value(Some("0000000255")), Some(255));
}

#[test]
fn vector_override_matches_std_parsing() {
    for raw in ["0", "9", "10", "99", "255", "256", "1000", "+1", "a", "", "0x1f", "0x0", "0x"] {
        let expected = {
            let t = raw.trim();
            if t.is_empty() {
                None
            } else if let Some(h) = t.strip_prefix("0x").or_else(|| t.strip_prefix("0X")) {
                u8::from_str_radix(h, 16).ok()
            } else {
                t.parse::<u8>().ok()
            }
        };
        assert_eq!(pic_fixed_vector_override_from_value(Some(raw)), expected, "{raw}");
    }
}

#[test]
fn cmdline_append_is_trimmed_and_nonempty() {
    assert_eq!(windows_kernel_cmdline_append_from_value(None), None);
    assert_eq!(windows_kernel_cmdline_append_from_value(Some(" \t ")), None);
    assert_eq!(
        windows_kernel_cmdline_append_from_value(Some("  quiet loglevel=3 \n")),
        Some("quiet loglevel=3".to_string())
    );
}

#[test]
fn traced_addresses_and_ports() {
    assert!(should_log_mmio_gpa(0xd000_0000));
    assert!(should_log_mmio_gpa(0xd0ff_ffff));
    assert!(!should_log_mmio_gpa(0xd100_0000));
    assert!(should_log_mmio_gpa(0xfec0_0000));
    assert!(should_log_mmio_gpa(0xfee0_0fff));
    assert!(!should_log_mmio_gpa(0xfee0_1000));
    assert!(should_always_log_io_port(0x20));
    assert!(should_always_log_io_port(0xcfc));
    assert!(!should_always_log_io_port(0x3f8));
}
