use krun_vmm::exits::{VcpuEmulation, VcpuExit};
use krun_vmm::vcpu_loop::{
    after_service, after_skip, can_inject_now, dump_due, emulation_after_exit, event_step,
    exit_clears_pending, exit_handling, exit_reason_from_code, first_event_action,
    is_acpi_shutdown_write, observe_rip, sample_due, vcpu_loop_step, AfterService, Emulated,
    EventStep, ExitHandling, ExitReason, LoopAction, MonitorAction, MonitorState, ServicePoint,
    VcpuEvent, VcpuResponse, AFTER_LOOP_RIP, DELAY_LOOP_RIP, FC_EXIT_CODE_GENERIC_ERROR,
    FC_EXIT_CODE_OK,
};

#[test]
fn acpi_power_off_is_detected() {
    assert!(is_acpi_shutdown_write(0x604, &[0x00, 0x20]));
    assert!(is_acpi_shutdown_write(0x604, &[0x00, 0x3c, 0xff]));
    assert!(!is_acpi_shutdown_write(0x604, &[0x00, 0x10]));
    assert!(!is_acpi_shutdown_write(0x604, &[0x20]));
    assert!(!is_acpi_shutdown_write(0x605, &[0x00, 0x20]));
}

#[test]
fn exits_map_to_emulation_results() {
    assert_eq!(emulation_after_exit(&VcpuExit::MmioRead(0, 4), true), VcpuEmulation::Handled);
    assert_eq!(emulation_after_exit(&VcpuExit::MmioRead(0, 4), false), VcpuEmulation::Stopped);
    assert_eq!(
        emulation_after_exit(&VcpuExit::IoPortWrite(0x604, vec![0, 0x20]), true),
        VcpuEmulation::Stopped
    );
    assert_eq!(
        emulation_after_exit(&VcpuExit::IoPortWrite(0x3f8, vec![0x41]), true),
        VcpuEmulation::Handled
    );
    assert_eq!(emulation_after_exit(&VcpuExit::Halted, false), VcpuEmulation::Halted);
    assert_eq!(emulation_after_exit(&VcpuExit::Shutdown, true), VcpuEmulation::Stopped);
    assert!(exit_clears_pending(&VcpuExit::Halted));
    assert!(!exit_clears_pending(&VcpuExit::IoPortRead(0x60, 1)));
}

#[test]
fn pause_resume_protocol() {
    assert_eq!(
        event_step(Some(VcpuEvent::Pause)),
        EventStep::Acknowledge { response: VcpuResponse::Paused, paused: true }
    );
    assert_eq!(
        event_step(Some(VcpuEvent::Resume)),
        EventStep::Acknowledge { response: VcpuResponse::Resumed, paused: false }
    );
    assert_eq!(event_step(None), EventStep::Stop);
    assert_eq!(first_event_action(Some(VcpuEvent::Resume)), Ok(VcpuResponse::Resumed));
    assert_eq!(first_event_action(Some(VcpuEvent::Pause)), Err(FC_EXIT_CODE_GENERIC_ERROR));
    assert_eq!(first_event_action(None), Err(FC_EXIT_CODE_GENERIC_ERROR));
}

#[test]
fn thread_loop_steps() {
    assert_eq!(vcpu_loop_step(Some(VcpuEmulation::Handled), true), LoopAction::Continue);
    assert_eq!(
        vcpu_loop_step(Some(VcpuEmulation::Halted), true),
        LoopAction::WaitForInterrupt { timeout_ms: 5 }
    );
    assert_eq!(
        vcpu_loop_step(Some(VcpuEmulation::Halted), false),
        LoopAction::Exit { code: FC_EXIT_CODE_OK }
    );
    assert_eq!(
        vcpu_loop_step(Some(VcpuEmulation::Stopped), true),
        LoopAction::Exit { code: FC_EXIT_CODE_OK }
    );
    assert_eq!(vcpu_loop_step(None, true), LoopAction::Exit { code: FC_EXIT_CODE_GENERIC_ERROR });
}

#[test]
fn exit_reasons_and_handling() {
    assert_eq!(exit_reason_from_code(1), ExitReason::MemoryAccess);
    assert_eq!(exit_reason_from_code(8), ExitReason::Halt);
    assert_eq!(exit_reason_from_code(0x1001), ExitReason::Cpuid);
    assert_eq!(exit_reason_from_code(0x2001), ExitReason::Canceled);
    assert_eq!(exit_reason_from_code(3), ExitReason::Other(3));
    assert_eq!(exit_handling(ExitReason::Cpuid), ExitHandling::EmulateThenService(Emulated::Cpuid));
    assert_eq!(exit_handling(ExitReason::Halt), ExitHandling::Service(ServicePoint::Halt));
    assert_eq!(exit_handling(ExitReason::ApicEoi), ExitHandling::Resume);
    assert_eq!(exit_handling(ExitReason::Hypercall), ExitHandling::Shutdown);
    assert_eq!(exit_handling(ExitReason::Other(77)), ExitHandling::Shutdown);
    assert!(can_inject_now(Some(ServicePoint::InterruptWindow), 0));
    assert!(can_inject_now(None, 0x202));
    assert!(!can_inject_now(Some(ServicePoint::Halt), 0x2));
    assert_eq!(after_service(ServicePoint::Halt, false, false), AfterService::Halted);
    assert_eq!(after_service(ServicePoint::Halt, true, false), AfterService::Resume);
    assert_eq!(after_service(ServicePoint::Canceled, false, true), AfterService::Halted);
    assert_eq!(after_service(ServicePoint::Canceled, false, false), AfterService::Resume);
    assert_eq!(after_service(ServicePoint::InterruptWindow, false, true), AfterService::Resume);
}

#[test]
fn watchdog_steps_over_delay_loop() {
    let s = MonitorState::new();
    let (s, a) = observe_rip(s, 0x1000);
    assert_eq!(a, MonitorAction::Observe);
    let (s, a) = observe_rip(s, 0x1000);
    assert_eq!(a, MonitorAction::ReportStuck { stuck_count: 1 });
    let (s, a) = observe_rip(s, 0x2000);
    assert_eq!(a, MonitorAction::Observe);
    assert_eq!(s.stuck_count, 0);
    let (s, _) = observe_rip(s, DELAY_LOOP_RIP);
    let (s, a) = observe_rip(s, DELAY_LOOP_RIP);
    assert_eq!(a, MonitorAction::SkipTo { rip: AFTER_LOOP_RIP });
    let s2 = after_skip(s, AFTER_LOOP_RIP, true);
    assert_eq!(s2.last_rip, Some(AFTER_LOOP_RIP));
    assert_eq!(s2.stuck_count, 0);
    assert_eq!(after_skip(s, AFTER_LOOP_RIP, false), s);
    assert!(!sample_due(4));
    assert!(sample_due(5));
    assert!(dump_due(s, 10));
    assert!(!dump_due(MonitorState { dump_shown: true, ..s }, 10));
    assert!(!dump_due(s, 9));
}
