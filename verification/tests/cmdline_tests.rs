use krun_vmm::cmdline::{
    assemble_cmdline, cmdline_push, console_span, kernel_cmdline_base, replace_console,
};
use krun_vmm::config::DEFAULT_KERNEL_CMDLINE;

#[test]
fn command_line_starts_from_payload_then_prolog_then_default() {
    assert_eq!(kernel_cmdline_base(Some("init=/a"), Some("quiet")), "init=/a");
    assert_eq!(kernel_cmdline_base(None, Some("quiet")), "quiet");
    assert_eq!(kernel_cmdline_base(None, None), DEFAULT_KERNEL_CMDLINE);
}

#[test]
fn console_setting_is_found_up_to_the_next_space() {
    assert_eq!(console_span("root=x console=hvc0 quiet"), Some((7, 19)));
    assert_eq!(console_span("root=x console=hvc0"), None);
    assert_eq!(console_span("root=x quiet"), None);
}

#[test]
fn console_override_replaces_every_copy_of_the_setting() {
    assert_eq!(
        replace_console("a console=ttyS0 b console=ttyS0 c", "hvc0"),
        "a console=hvc0 b console=hvc0 c"
    );
    assert_eq!(
        replace_console("console=ttyS0,115200 x console=ttyS0 y", "hvc1"),
        "console=hvc1 x console=ttyS0 y"
    );
    let s = replace_console(DEFAULT_KERNEL_CMDLINE, "hvc0");
    assert!(s.contains(" console=hvc0 earlyprintk=serial,ttyS0,115200 "));
    assert!(!s.contains("console=ttyS0,115200 earlyprintk"));
}

#[test]
fn pieces_are_appended_in_order_after_a_space() {
    let mut line = String::new();
    cmdline_push(&mut line, "a=1");
    assert_eq!(line, "a=1");
    cmdline_push(&mut line, "b");
    assert_eq!(line, "a=1 b");

    let entries = vec!["virtio_mmio.device=4K@0xd0000000:5".to_string(), "tsi_hijack".to_string()];
    let line = assemble_cmdline(
        "quiet console=ttyS0",
        Some("KRUN_INIT=/bin/sh"),
        Some("hvc0"),
        Some("loglevel=7"),
        &entries,
        Some("-- arg"),
    );
    assert_eq!(
        line,
        "quiet console=hvc0 KRUN_INIT=/bin/sh loglevel=7 virtio_mmio.device=4K@0xd0000000:5 tsi_hijack -- arg"
    );
    assert_eq!(assemble_cmdline("", None, None, None, &vec![], Some("x")), "x");
    assert_eq!(assemble_cmdline("root=a", None, None, None, &vec![], None), "root=a");
}
