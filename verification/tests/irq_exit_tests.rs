use krun_vmm::cpuid::{
    emulated_cpuid, guest_hyperv_cpuid, msr_write_value, performance_counter_100ns,
    rip_after_two_byte_instruction, split_value, trap_exception_next_rip, CpuidRegs,
    HypervMsrState, MsrClocks, MsrWriteEffect,
};
use krun_vmm::decode::{decode_mmio_access, ErrorKind};
use krun_vmm::exits::{
    kernel_rip_to_gpa, le_value, leading_zero_bytes, sign_extend, to_le_bytes, ExitState,
    IoExitAction, MmioExitAction,
};
use krun_vmm::irq::{
    irq_to_vector, make_whpx_interrupt_control_bitfield, plan_irq, resolve_interrupt_route,
    rflags_interrupts_enabled, IoApicRoute, IrqPlan, PendingInterrupt, PendingInterruptQueue,
    WhpxInterruptRoute,
};

#[test]
fn pending_queue_holds_each_line_once() {
    let mut q = PendingInterruptQueue::new();
    assert!(q.is_empty());
    assert!(q.push_unique(PendingInterrupt::PicExtInt { irq: 4, vector: 0x34 }));
    assert!(q.push_unique(PendingInterrupt::PicFixed { irq: 1, vector: 0x31 }));
    assert!(!q.push_unique(PendingInterrupt::PicFixed { irq: 4, vector: 0x99 }));
    assert_eq!(q.len(), 2);
    assert!(q.contains_irq(1));
    assert!(!q.contains_irq(2));
    let first = q.pop_front().unwrap();
    assert_eq!(first, PendingInterrupt::PicExtInt { irq: 4, vector: 0x34 });
    assert_eq!(first.irq(), 4);
    assert_eq!(first.vector(), 0x34);
    // A deferred interrupt goes back to the front.
    q.push_front(first);
    assert_eq!(q.front(), Some(first));
    assert_eq!(q.len(), 2);
}

#[test]
fn routes_resolve_by_priority() {
    let route = IoApicRoute {
        vector: 0x41,
        masked: false,
        destination_mode_logical: true,
        trigger_mode_level: true,
        delivery_mode: 1,
        destination: 3,
    };
    assert_eq!(
        resolve_interrupt_route(4, Some(route), Some(0x34)),
        WhpxInterruptRoute::IoApic {
            vector: 0x41,
            destination_mode: 1,
            trigger_mode: 1,
            interrupt_type: 1,
            destination: 3,
        }
    );
    let masked = IoApicRoute { masked: true, ..route };
    assert_eq!(
        resolve_interrupt_route(4, Some(masked), Some(0x34)),
        WhpxInterruptRoute::PicExtIntRequest { irq: 4, vector: 0x34 }
    );
    assert_eq!(resolve_interrupt_route(4, None, None), WhpxInterruptRoute::Unresolved);
    assert_eq!(
        resolve_interrupt_route(20, None, Some(1)),
        WhpxInterruptRoute::FallbackFixed { vector: 0x34 }
    );
    assert_eq!(irq_to_vector(5), 0x25);
}

#[test]
fn irq_plans() {
    assert_eq!(plan_irq(None, WhpxInterruptRoute::Unresolved, false, 1), IrqPlan::MissingLine);
    assert_eq!(
        plan_irq(Some(0), WhpxInterruptRoute::Unresolved, false, 1),
        IrqPlan::Unresolved { replay_deferred: true }
    );
    assert_eq!(
        plan_irq(Some(0), WhpxInterruptRoute::PicExtIntRequest { irq: 0, vector: 0x30 }, true, 1),
        IrqPlan::QueuePic { pending: PendingInterrupt::PicFixed { irq: 0, vector: 0x30 } }
    );
    assert_eq!(
        plan_irq(Some(1), WhpxInterruptRoute::PicExtIntRequest { irq: 1, vector: 0x31 }, true, 1),
        IrqPlan::QueuePic { pending: PendingInterrupt::PicExtInt { irq: 1, vector: 0x31 } }
    );
    match plan_irq(Some(20), WhpxInterruptRoute::FallbackFixed { vector: 0x34 }, false, 2) {
        IrqPlan::Request { control } => {
            assert_eq!(control.vector, 0x34);
            assert_eq!(control.destination, 0);
            assert_eq!(control.bitfield, 0);
        }
        other => panic!("unexpected plan {:?}", other),
    }
    assert_eq!(make_whpx_interrupt_control_bitfield(1, 1, 1), 0x1101);
    assert!(rflags_interrupts_enabled(0x202));
    assert!(!rflags_interrupts_enabled(0x2));
}

#[test]
fn io_write_then_completion() {
    let mut st = ExitState::new();
    // OUT of 2 bytes (bits: write, size 2) with a 1-byte instruction.
    let action = st.handle_io_exit(0x3f8, 1 | (2 << 1), 1, &[0u8; 16], 0x1000, 0x1234_abcd);
    assert_eq!(action, IoExitAction::Write { port: 0x3f8, data: vec![0xcd, 0xab] });
    assert_eq!(st.complete_io_write(), Ok(0x1001));
    assert_eq!(st.complete_io_write(), Err(ErrorKind::InvalidInput));
}

#[test]
fn io_read_merges_into_rax() {
    let mut st = ExitState::new();
    let action = st.handle_io_exit(0x60, 1 << 1, 2, &[0u8; 16], 0x2000, 0);
    assert_eq!(action, IoExitAction::Read { port: 0x60, size: 1 });
    assert_eq!(st.complete_io_read(&[0x5a], 0xffff_ffff_ffff_ff00), Ok((0xffff_ffff_ffff_ff5a, 0x2002)));
}

#[test]
fn io_special_cases() {
    let mut st = ExitState::new();
    // Unknown length, simple access: emulator.
    assert_eq!(st.handle_io_exit(0x70, 1 << 1, 0, &[0u8; 16], 0, 0), IoExitAction::Emulate);
    // REP string output to the debug port: skipped with RCX cleared.
    assert_eq!(
        st.handle_io_exit(0xe9, 1 | (1 << 1) | (1 << 4) | (1 << 5), 2, &[0u8; 16], 0x10, 0),
        IoExitAction::AdvanceRipClearRcx { next_rip: 0x12 }
    );
    // String I/O elsewhere stops the vCPU.
    assert_eq!(
        st.handle_io_exit(0x1234, (1 << 1) | (1 << 4), 2, &[0u8; 16], 0x10, 0),
        IoExitAction::Shutdown
    );
}

#[test]
fn mmio_read_and_write_round_trip() {
    let mut st = ExitState::new();
    let decoded = decode_mmio_access(0x1000, &[0x8b, 0x03], false);
    let size = decoded.unwrap().size;
    match st.handle_mmio_read(0xd000_0000, decoded) {
        MmioExitAction::Read { gpa, size: s } => {
            assert_eq!(gpa, 0xd000_0000);
            assert_eq!(s, size);
        }
        other => panic!("unexpected {:?}", other),
    }
    let (reg, value, next) = st.complete_mmio_read(&[1, 2, 3, 4], 0xffff_ffff_0000_0000).unwrap();
    assert_eq!(reg, 0);
    assert_eq!(value, 0x0403_0201);
    assert_eq!(next, 0x1002);

    let decoded = decode_mmio_access(0x2000, &[0x89, 0x0b], true);
    match st.handle_mmio_write(0xd000_0010, decoded, 0x1122_3344_5566_7788) {
        MmioExitAction::Write { gpa, data } => {
            assert_eq!(gpa, 0xd000_0010);
            assert_eq!(data, vec![0x88, 0x77, 0x66, 0x55]);
        }
        other => panic!("unexpected {:?}", other),
    }
    assert_eq!(st.complete_mmio_write(), Ok(0x2002));
    assert_eq!(
        st.handle_mmio_read(0, decode_mmio_access(0, &[0x90], false)),
        MmioExitAction::Shutdown
    );
}

#[test]
fn little_endian_helpers() {
    assert_eq!(to_le_bytes(0x0102_0304, 3), vec![4, 3, 2]);
    assert_eq!(le_value(&[4, 3, 2, 1], 4), 0x0102_0304);
    assert_eq!(le_value(&to_le_bytes(0xdead_beef_cafe, 8), 8), 0xdead_beef_cafe);
    assert_eq!(sign_extend(0x80, 1), Ok(0xffff_ffff_ffff_ff80));
    assert_eq!(sign_extend(0x7fff, 2), Ok(0x7fff));
    assert_eq!(sign_extend(0x8000_0000, 4), Ok(0xffff_ffff_8000_0000));
    assert_eq!(sign_extend(1, 3), Err(ErrorKind::InvalidInput));
    assert_eq!(kernel_rip_to_gpa(0xffff_ffff_8100_0000), Some(0x100_0000));
    assert_eq!(kernel_rip_to_gpa(0x1000), None);
    assert_eq!(leading_zero_bytes(&[0, 0, 7, 0]), 2);
}

#[test]
fn cpuid_leaves() {
    let host = CpuidRegs { rax: 0xffff_ffff_ffff_ffff, rbx: 1, rcx: 2, rdx: 3 };
    assert_eq!(guest_hyperv_cpuid(0x4000_0000, host).rax, 0x4000_0006);
    assert_eq!(guest_hyperv_cpuid(0x4000_0003, host).rax, 0xb63);
    assert_eq!(guest_hyperv_cpuid(0x4000_0004, host), CpuidRegs { rax: 0x20, rbx: 0xff, rcx: 0, rdx: 0 });
    assert_eq!(guest_hyperv_cpuid(0x4000_0001, host), host);
    let defaults = CpuidRegs { rax: 0xd, rbx: 0, rcx: 0x8000_0000, rdx: 0 };
    assert_eq!(emulated_cpuid(0, defaults, true, host, 0).rax, 0x15);
    assert_eq!(emulated_cpuid(1, defaults, false, host, 0).rcx, 0);
    assert_eq!(emulated_cpuid(0x4000_0000, defaults, false, host, 0).rax, 0);
    assert_eq!(
        emulated_cpuid(0x15, defaults, true, host, 2_500_000_000),
        CpuidRegs { rax: 1, rbx: 1, rcx: 2_500_000_000, rdx: 0 }
    );
    assert_eq!(rip_after_two_byte_instruction(u64::MAX), 1);
}

#[test]
fn msr_state_reads_back_writes() {
    let mut st = HypervMsrState::new();
    let clocks = MsrClocks { tsc: 7, counter_100ns: 8, tsc_hz: 9 };
    assert_eq!(st.write(0x4000_0000, 0x1111_2222, 0x3333), MsrWriteEffect::NoSideEffect);
    assert_eq!(st.read(0x4000_0000, 0, clocks), 0x3333_1111_2222);
    assert_eq!(
        st.write(0x4000_0073, 0x5001, 0),
        MsrWriteEffect::ZeroGuestPage { gpa: 0x5000 }
    );
    assert_eq!(st.read(0x4000_0073, 0, clocks), 0x5001);
    assert_eq!(st.read(0x4000_0002, 3, clocks), 3);
    assert_eq!(st.read(0x10, 0, clocks), 7);
    assert_eq!(st.read(0x4000_0020, 0, clocks), 8);
    assert_eq!(st.read(0x4000_0022, 0, clocks), 9);
    assert_eq!(st.read(0x4000_0023, 0, clocks), 100_000_000);
    assert_eq!(st.read(0x1234, 0, clocks), 0);
    assert_eq!(msr_write_value(0xffff_ffff_0000_0001, 2), 0x2_0000_0001);
    assert_eq!(split_value(0x2_0000_0001), (1, 2));
}

#[test]
fn clocks_and_traps() {
    assert_eq!(performance_counter_100ns(0, 10), 0);
    assert_eq!(performance_counter_100ns(10, -1), 0);
    assert_eq!(performance_counter_100ns(3, 10_000_000), 3);
    assert_eq!(performance_counter_100ns(1_000_000, 1_000_000), 10_000_000);
    assert_eq!(trap_exception_next_rip(3, 0x10, 1), Some(0x11));
    assert_eq!(trap_exception_next_rip(4, u64::MAX, 1), Some(0));
    assert_eq!(trap_exception_next_rip(14, 0x10, 1), None);
}
