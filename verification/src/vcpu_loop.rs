//! Decisions of the vCPU thread and of its watchdog, as functions from
//! state and event to next state and action: how an exit is answered, how
//! pause and resume requests are acknowledged, when the thread waits or
//! ends, and when the watchdog reports or steps over a stuck instruction.

use vstd::prelude::*;
use crate::exits::{VcpuEmulation, VcpuExit};

verus! {

/// Exit code of a vCPU that stopped normally.
pub const FC_EXIT_CODE_OK: u8 = 0;

/// Exit code of a vCPU that failed.
pub const FC_EXIT_CODE_GENERIC_ERROR: u8 = 1;

/// Port of the PIIX4 PM1a control register.
pub const ACPI_PM1A_CNT_PORT: u16 = 0x604;

/// SLP_EN bit of PM1a_CNT: the guest asks to sleep or power off.
pub const ACPI_SLP_EN: u16 = 0x2000;

/// A port write that requests ACPI power-off: a write of at least two
/// bytes to PM1a_CNT whose little-endian 16-bit value has SLP_EN set.
pub open spec fn acpi_shutdown_spec(port: u16, data: Seq<u8>) -> bool {
    port == ACPI_PM1A_CNT_PORT && data.len() >= 2 && ((data[0] as u16 | ((data[1] as u16)
        << 8u16)) & ACPI_SLP_EN) != 0
}

pub fn is_acpi_shutdown_write(port: u16, data: &[u8]) -> (b: bool)
    ensures
        b == acpi_shutdown_spec(port, data@),
{
    if port == ACPI_PM1A_CNT_PORT && data.len() >= 2 {
        let v: u16 = data[0] as u16 | ((data[1] as u16) << 8u16);
        (v & ACPI_SLP_EN) != 0
    } else {
        false
    }
}

/// What the run loop does after an exit: accesses are forwarded to the
/// device buses and then completed; a failed completion or an ACPI
/// power-off stops the vCPU; HLT halts it; a shutdown stops it.
pub open spec fn emulation_after_exit_spec(exit: VcpuExit, completion_ok: bool) -> VcpuEmulation {
    match exit {
        VcpuExit::MmioRead(_, _) | VcpuExit::MmioWrite(_, _) | VcpuExit::IoPortRead(_, _) => {
            if completion_ok {
                VcpuEmulation::Handled
            } else {
                VcpuEmulation::Stopped
            }
        },
        VcpuExit::IoPortWrite(port, data) => {
            if !completion_ok || acpi_shutdown_spec(port, data@) {
                VcpuEmulation::Stopped
            } else {
                VcpuEmulation::Handled
            }
        },
        VcpuExit::Halted => VcpuEmulation::Halted,
        VcpuExit::Shutdown => VcpuEmulation::Stopped,
    }
}

/// Outcome of one exit, given whether completing the access succeeded
/// (ignored for HLT and shutdown, which complete nothing).
pub fn emulation_after_exit(exit: &VcpuExit, completion_ok: bool) -> (e: VcpuEmulation)
    ensures
        e == emulation_after_exit_spec(*exit, completion_ok),
{
    match exit {
        VcpuExit::MmioRead(_, _) | VcpuExit::MmioWrite(_, _) | VcpuExit::IoPortRead(_, _) => {
            if completion_ok {
                VcpuEmulation::Handled
            } else {
                VcpuEmulation::Stopped
            }
        },
        VcpuExit::IoPortWrite(port, data) => {
            if !completion_ok || is_acpi_shutdown_write(*port, data.as_slice()) {
                VcpuEmulation::Stopped
            } else {
                VcpuEmulation::Handled
            }
        },
        VcpuExit::Halted => VcpuEmulation::Halted,
        VcpuExit::Shutdown => VcpuEmulation::Stopped,
    }
}

/// Whether exits that leave the vCPU halted or stopped drop any half-done
/// I/O or MMIO emulation first: HLT and shutdown do.
pub fn exit_clears_pending(exit: &VcpuExit) -> (b: bool)
    ensures
        b == (*exit == VcpuExit::Halted || *exit == VcpuExit::Shutdown),
{
    match exit {
        VcpuExit::Halted | VcpuExit::Shutdown => true,
        _ => false,
    }
}

/// Control requests sent to a vCPU thread.
#[derive(Clone, Copy, Debug, PartialEq, Eq, Structural)]
pub enum VcpuEvent {
    Pause,
    Resume,
}

/// Acknowledgements a vCPU thread sends back.
#[derive(Clone, Copy, Debug, PartialEq, Eq, Structural)]
pub enum VcpuResponse {
    Paused,
    Resumed,
    Exited(u8),
}

/// What the vCPU does with a control request.
#[derive(Clone, Copy, Debug, PartialEq, Eq, Structural)]
pub enum EventStep {
    /// Send this acknowledgement; `paused` is the state afterwards.
    Acknowledge { response: VcpuResponse, paused: bool },
    /// Leave the run loop with `VcpuEmulation::Stopped`.
    Stop,
}

pub open spec fn event_step_spec(event: Option<VcpuEvent>) -> EventStep {
    match event {
        Some(VcpuEvent::Pause) => EventStep::Acknowledge { response: VcpuResponse::Paused, paused: true },
        Some(VcpuEvent::Resume) => EventStep::Acknowledge {
            response: VcpuResponse::Resumed,
            paused: false,
        },
        None => EventStep::Stop,
    }
}

/// One step of the pause/resume protocol: a pause is acknowledged and the
/// vCPU waits for the next request; a resume is acknowledged and the vCPU
/// runs. `None` stands for a channel that closed while the vCPU waited
/// paused, which stops it.
pub fn event_step(event: Option<VcpuEvent>) -> (s: EventStep)
    ensures
        s == event_step_spec(event),
{
    match event {
        Some(VcpuEvent::Pause) => EventStep::Acknowledge { response: VcpuResponse::Paused, paused: true },
        Some(VcpuEvent::Resume) => EventStep::Acknowledge {
            response: VcpuResponse::Resumed,
            paused: false,
        },
        None => EventStep::Stop,
    }
}

/// Every request is acknowledged with its own kind, and only a resume lets
/// a paused vCPU run again.
pub proof fn lemma_pause_resume(event: VcpuEvent)
    ensures
        event_step_spec(Some(event)) matches EventStep::Acknowledge { response, paused } && (
        paused <==> event == VcpuEvent::Pause) && (response == VcpuResponse::Paused <==> event
            == VcpuEvent::Pause) && (response == VcpuResponse::Resumed <==> event
            == VcpuEvent::Resume),
{
}

/// What the thread does before entering the run loop, given the first
/// request (`None`: the channel closed): a resume is acknowledged and the
/// loop starts; anything else ends the vCPU with the generic error code.
pub fn first_event_action(event: Option<VcpuEvent>) -> (r: Result<VcpuResponse, u8>)
    ensures
        event == Some(VcpuEvent::Resume) ==> r == Ok::<VcpuResponse, u8>(VcpuResponse::Resumed),
        event != Some(VcpuEvent::Resume) ==> r == Err::<VcpuResponse, u8>(
            FC_EXIT_CODE_GENERIC_ERROR,
        ),
{
    match event {
        Some(VcpuEvent::Resume) => Ok(VcpuResponse::Resumed),
        _ => Err(FC_EXIT_CODE_GENERIC_ERROR),
    }
}

/// Milliseconds a halted vCPU waits for an interrupt before re-entering the
/// hypervisor.
pub const HALT_WAIT_MS: u64 = 5;

/// What the thread loop does after one run of the vCPU.
#[derive(Clone, Copy, Debug, PartialEq, Eq, Structural)]
pub enum LoopAction {
    /// Run again.
    Continue,
    /// Wait for an interrupt signal for at most this long, then run again.
    WaitForInterrupt { timeout_ms: u64 },
    /// Report `Exited(code)`, signal the exit event and end the thread.
    Exit { code: u8 },
}

pub open spec fn loop_action_spec(result: Option<VcpuEmulation>, has_irq_chip: bool) -> LoopAction {
    match result {
        Some(VcpuEmulation::Handled) => LoopAction::Continue,
        Some(VcpuEmulation::Halted) => if has_irq_chip {
            LoopAction::WaitForInterrupt { timeout_ms: HALT_WAIT_MS }
        } else {
            LoopAction::Exit { code: FC_EXIT_CODE_OK }
        },
        Some(VcpuEmulation::Stopped) => LoopAction::Exit { code: FC_EXIT_CODE_OK },
        None => LoopAction::Exit { code: FC_EXIT_CODE_GENERIC_ERROR },
    }
}

/// Next step of the vCPU thread after a run that returned `result` (`None`:
/// the run failed). A halted vCPU waits for an interrupt when an interrupt
/// controller is wired; without one, HLT ends the vCPU.
pub fn vcpu_loop_step(result: Option<VcpuEmulation>, has_irq_chip: bool) -> (a: LoopAction)
    ensures
        a == loop_action_spec(result, has_irq_chip),
{
    match result {
        Some(VcpuEmulation::Handled) => LoopAction::Continue,
        Some(VcpuEmulation::Halted) => {
            if has_irq_chip {
                LoopAction::WaitForInterrupt { timeout_ms: HALT_WAIT_MS }
            } else {
                LoopAction::Exit { code: FC_EXIT_CODE_OK }
            }
        },
        Some(VcpuEmulation::Stopped) => LoopAction::Exit { code: FC_EXIT_CODE_OK },
        None => LoopAction::Exit { code: FC_EXIT_CODE_GENERIC_ERROR },
    }
}

/// Only a failed run ends the vCPU with an error code; a wired interrupt
/// controller keeps a halted vCPU alive.
pub proof fn lemma_exit_codes(result: Option<VcpuEmulation>, has_irq_chip: bool)
    ensures
        loop_action_spec(result, has_irq_chip) == (LoopAction::Exit {
            code: FC_EXIT_CODE_GENERIC_ERROR,
        }) <==> result.is_none(),
        has_irq_chip ==> loop_action_spec(Some(VcpuEmulation::Halted), has_irq_chip) !is Exit,
{
}

/// RIP of the kernel's calibration delay loop the watchdog steps over.
pub const DELAY_LOOP_RIP: u64 = 0xffff_ffff_8195_6f43;

/// RIP just past that delay loop.
pub const AFTER_LOOP_RIP: u64 = 0xffff_ffff_8195_6f48;

/// Seconds between watchdog samples.
pub const MONITOR_PERIOD_SECS: u64 = 5;

/// What the watchdog remembers between samples.
#[derive(Clone, Copy, Debug, PartialEq, Eq, Structural)]
pub struct MonitorState {
    pub last_rip: Option<u64>,
    pub stuck_count: u32,
    pub dump_shown: bool,
}

/// What the watchdog does after reading RIP.
#[derive(Clone, Copy, Debug, PartialEq, Eq, Structural)]
pub enum MonitorAction {
    /// Nothing to do.
    Observe,
    /// RIP has not moved for `stuck_count` samples: report it.
    ReportStuck { stuck_count: u32 },
    /// RIP is stuck in the delay loop: set it to this value.
    SkipTo { rip: u64 },
}

impl MonitorState {
    pub fn new() -> (s: MonitorState)
        ensures
            s == (MonitorState { last_rip: None, stuck_count: 0, dump_shown: false }),
    {
        MonitorState { last_rip: None, stuck_count: 0, dump_shown: false }
    }
}

pub open spec fn observe_rip_spec(s: MonitorState, current_rip: u64) -> (MonitorState, MonitorAction) {
    match s.last_rip {
        Some(prev) => if current_rip == prev {
            let stuck = (s.stuck_count + 1) as u32;
            if current_rip == DELAY_LOOP_RIP {
                (MonitorState { stuck_count: stuck, ..s }, MonitorAction::SkipTo { rip: AFTER_LOOP_RIP })
            } else {
                (MonitorState { stuck_count: stuck, ..s }, MonitorAction::ReportStuck { stuck_count: stuck })
            }
        } else {
            (MonitorState { last_rip: Some(current_rip), stuck_count: 0, ..s }, MonitorAction::Observe)
        },
        None => (MonitorState { last_rip: Some(current_rip), ..s }, MonitorAction::Observe),
    }
}

/// A watchdog sample that read `current_rip` (taken only when no exit came
/// for a whole period). A RIP equal to the previous one counts as stuck; in
/// the known delay loop the watchdog moves RIP past it, elsewhere it
/// reports. A moved RIP resets the count.
pub fn observe_rip(s: MonitorState, current_rip: u64) -> (r: (MonitorState, MonitorAction))
    requires
        s.stuck_count < u32::MAX,
    ensures
        r == observe_rip_spec(s, current_rip),
{
    match s.last_rip {
        Some(prev) => {
            if current_rip == prev {
                let stuck = s.stuck_count + 1;
                if current_rip == DELAY_LOOP_RIP {
                    (MonitorState { stuck_count: stuck, ..s }, MonitorAction::SkipTo { rip: AFTER_LOOP_RIP })
                } else {
                    (MonitorState { stuck_count: stuck, ..s }, MonitorAction::ReportStuck { stuck_count: stuck })
                }
            } else {
                (MonitorState { last_rip: Some(current_rip), stuck_count: 0, ..s }, MonitorAction::Observe)
            }
        },
        None => (MonitorState { last_rip: Some(current_rip), ..s }, MonitorAction::Observe),
    }
}

/// State after a `SkipTo` was carried out: on success the count restarts
/// and the new RIP is remembered; on failure nothing changes.
pub fn after_skip(s: MonitorState, rip: u64, set_ok: bool) -> (r: MonitorState)
    ensures
        set_ok ==> r == (MonitorState { last_rip: Some(rip), stuck_count: 0, ..s }),
        !set_ok ==> r == s,
{
    if set_ok {
        MonitorState { last_rip: Some(rip), stuck_count: 0, ..s }
    } else {
        s
    }
}

/// Whether a sample reads registers: after a full period without an exit.
pub fn sample_due(elapsed_secs: u64) -> (b: bool)
    ensures
        b == (elapsed_secs >= MONITOR_PERIOD_SECS),
{
    elapsed_secs >= MONITOR_PERIOD_SECS
}

/// Whether the full register dump is shown: once, after two periods
/// without an exit.
pub fn dump_due(s: MonitorState, elapsed_secs: u64) -> (b: bool)
    ensures
        b == (elapsed_secs >= 2 * MONITOR_PERIOD_SECS && !s.dump_shown),
{
    elapsed_secs >= 2 * MONITOR_PERIOD_SECS && !s.dump_shown
}

/// The watchdog never steps over an instruction other than the delay loop,
/// and a moving RIP is never reported.
pub proof fn lemma_watchdog_targets(s: MonitorState, current_rip: u64)
    requires
        s.stuck_count < u32::MAX,
    ensures
        observe_rip_spec(s, current_rip).1 is SkipTo ==> current_rip == DELAY_LOOP_RIP && s.last_rip
            == Some(current_rip),
        s.last_rip != Some(current_rip) ==> observe_rip_spec(s, current_rip).1
            == MonitorAction::Observe && observe_rip_spec(s, current_rip).0.last_rip == Some(
            current_rip,
        ),
{
}

/// Why the hypervisor returned from running a vCPU.
#[derive(Clone, Copy, Debug, PartialEq, Eq, Structural)]
pub enum ExitReason {
    NoExit,
    MemoryAccess,
    IoPortAccess,
    UnrecoverableException,
    InvalidVpRegisterValue,
    UnsupportedFeature,
    InterruptWindow,
    Halt,
    ApicEoi,
    SynicSintDeliverable,
    MsrAccess,
    Cpuid,
    Exception,
    Rdtsc,
    ApicSmiTrap,
    Hypercall,
    ApicInitSipiTrap,
    ApicWriteTrap,
    Canceled,
    /// A code this VMM does not know.
    Other(i32),
}

/// `WHV_RUN_VP_EXIT_REASON` codes.
pub open spec fn exit_reason_spec(code: i32) -> ExitReason {
    if code == 0 {
        ExitReason::NoExit
    } else if code == 1 {
        ExitReason::MemoryAccess
    } else if code == 2 {
        ExitReason::IoPortAccess
    } else if code == 4 {
        ExitReason::UnrecoverableException
    } else if code == 5 {
        ExitReason::InvalidVpRegisterValue
    } else if code == 6 {
        ExitReason::UnsupportedFeature
    } else if code == 7 {
        ExitReason::InterruptWindow
    } else if code == 8 {
        ExitReason::Halt
    } else if code == 9 {
        ExitReason::ApicEoi
    } else if code == 10 {
        ExitReason::SynicSintDeliverable
    } else if code == 0x1000 {
        ExitReason::MsrAccess
    } else if code == 0x1001 {
        ExitReason::Cpuid
    } else if code == 0x1002 {
        ExitReason::Exception
    } else if code == 0x1003 {
        ExitReason::Rdtsc
    } else if code == 0x1004 {
        ExitReason::ApicSmiTrap
    } else if code == 0x1005 {
        ExitReason::Hypercall
    } else if code == 0x1006 {
        ExitReason::ApicInitSipiTrap
    } else if code == 0x1007 {
        ExitReason::ApicWriteTrap
    } else if code == 0x2001 {
        ExitReason::Canceled
    } else {
        ExitReason::Other(code)
    }
}

pub fn exit_reason_from_code(code: i32) -> (r: ExitReason)
    ensures
        r == exit_reason_spec(code),
{
    if code == 0 {
        ExitReason::NoExit
    } else if code == 1 {
        ExitReason::MemoryAccess
    } else if code == 2 {
        ExitReason::IoPortAccess
    } else if code == 4 {
        ExitReason::UnrecoverableException
    } else if code == 5 {
        ExitReason::InvalidVpRegisterValue
    } else if code == 6 {
        ExitReason::UnsupportedFeature
    } else if code == 7 {
        ExitReason::InterruptWindow
    } else if code == 8 {
        ExitReason::Halt
    } else if code == 9 {
        ExitReason::ApicEoi
    } else if code == 10 {
        ExitReason::SynicSintDeliverable
    } else if code == 0x1000 {
        ExitReason::MsrAccess
    } else if code == 0x1001 {
        ExitReason::Cpuid
    } else if code == 0x1002 {
        ExitReason::Exception
    } else if code == 0x1003 {
        ExitReason::Rdtsc
    } else if code == 0x1004 {
        ExitReason::ApicSmiTrap
    } else if code == 0x1005 {
        ExitReason::Hypercall
    } else if code == 0x1006 {
        ExitReason::ApicInitSipiTrap
    } else if code == 0x1007 {
        ExitReason::ApicWriteTrap
    } else if code == 0x2001 {
        ExitReason::Canceled
    } else {
        ExitReason::Other(code)
    }
}

/// Instruction the VMM emulates before servicing queued interrupts.
#[derive(Clone, Copy, Debug, PartialEq, Eq, Structural)]
pub enum Emulated {
    Cpuid,
    Msr,
    Rdtsc,
}

/// Exits after which the VMM tries to deliver a queued interrupt and then
/// decides whether to keep running.
#[derive(Clone, Copy, Debug, PartialEq, Eq, Structural)]
pub enum ServicePoint {
    InterruptWindow,
    Halt,
    Canceled,
}

/// How the run loop handles an exit.
#[derive(Clone, Copy, Debug, PartialEq, Eq, Structural)]
pub enum ExitHandling {
    /// Decode the MMIO access and hand it to the device model.
    MemoryAccess,
    /// Hand the port access to the device model.
    IoPort,
    /// Emulate the instruction, try to deliver a queued interrupt, run on.
    EmulateThenService(Emulated),
    /// Try to deliver a queued interrupt, then decide.
    Service(ServicePoint),
    /// Emulate an INIT or SIPI the guest sent, run on.
    EmulateInitSipi,
    /// Step over a trap exception if it is one, else stop.
    Exception,
    /// Nothing to do: run on.
    Resume,
    /// Stop the vCPU.
    Shutdown,
}

pub open spec fn exit_handling_spec(reason: ExitReason) -> ExitHandling {
    match reason {
        ExitReason::MemoryAccess => ExitHandling::MemoryAccess,
        ExitReason::IoPortAccess => ExitHandling::IoPort,
        ExitReason::Cpuid => ExitHandling::EmulateThenService(Emulated::Cpuid),
        ExitReason::MsrAccess => ExitHandling::EmulateThenService(Emulated::Msr),
        ExitReason::Rdtsc => ExitHandling::EmulateThenService(Emulated::Rdtsc),
        ExitReason::InterruptWindow => ExitHandling::Service(ServicePoint::InterruptWindow),
        ExitReason::Halt => ExitHandling::Service(ServicePoint::Halt),
        ExitReason::Canceled => ExitHandling::Service(ServicePoint::Canceled),
        ExitReason::ApicInitSipiTrap => ExitHandling::EmulateInitSipi,
        ExitReason::Exception => ExitHandling::Exception,
        ExitReason::ApicEoi | ExitReason::NoExit | ExitReason::SynicSintDeliverable
        | ExitReason::ApicWriteTrap | ExitReason::ApicSmiTrap => ExitHandling::Resume,
        _ => ExitHandling::Shutdown,
    }
}

/// The handling of each exit: accesses go to the device model; CPUID, MSR
/// and RDTSC are emulated; interrupt windows, HLT and cancellations service
/// the interrupt queue; EOIs, SynIC, APIC write and SMI traps need nothing;
/// unsupported features, bad register values, hypercalls, unrecoverable
/// exceptions and unknown exits stop the vCPU.
pub fn exit_handling(reason: ExitReason) -> (h: ExitHandling)
    ensures
        h == exit_handling_spec(reason),
{
    match reason {
        ExitReason::MemoryAccess => ExitHandling::MemoryAccess,
        ExitReason::IoPortAccess => ExitHandling::IoPort,
        ExitReason::Cpuid => ExitHandling::EmulateThenService(Emulated::Cpuid),
        ExitReason::MsrAccess => ExitHandling::EmulateThenService(Emulated::Msr),
        ExitReason::Rdtsc => ExitHandling::EmulateThenService(Emulated::Rdtsc),
        ExitReason::InterruptWindow => ExitHandling::Service(ServicePoint::InterruptWindow),
        ExitReason::Halt => ExitHandling::Service(ServicePoint::Halt),
        ExitReason::Canceled => ExitHandling::Service(ServicePoint::Canceled),
        ExitReason::ApicInitSipiTrap => ExitHandling::EmulateInitSipi,
        ExitReason::Exception => ExitHandling::Exception,
        ExitReason::ApicEoi | ExitReason::NoExit | ExitReason::SynicSintDeliverable
        | ExitReason::ApicWriteTrap | ExitReason::ApicSmiTrap => ExitHandling::Resume,
        _ => ExitHandling::Shutdown,
    }
}

/// Whether a queued interrupt may be injected right away: always at an
/// interrupt window, else when RFLAGS.IF is set.
pub fn can_inject_now(point: Option<ServicePoint>, rflags: u64) -> (b: bool)
    ensures
        b == (point == Some(ServicePoint::InterruptWindow) || (rflags / 0x200) % 2 == 1),
{
    let window = match point {
        Some(ServicePoint::InterruptWindow) => true,
        _ => false,
    };
    let if_set = (rflags & 0x200) != 0;
    assert(((rflags & 0x200) != 0) == ((rflags / 0x200) % 2 == 1)) by (bit_vector);
    window || if_set
}

/// Where the run loop goes after servicing the interrupt queue.
#[derive(Clone, Copy, Debug, PartialEq, Eq, Structural)]
pub enum AfterService {
    /// Run the vCPU again.
    Resume,
    /// Report the vCPU halted.
    Halted,
}

pub open spec fn after_service_spec(point: ServicePoint, injected: bool, halted_reenter: bool) -> AfterService {
    match point {
        ServicePoint::InterruptWindow => AfterService::Resume,
        ServicePoint::Halt => if injected {
            AfterService::Resume
        } else {
            AfterService::Halted
        },
        ServicePoint::Canceled => if !injected && halted_reenter {
            AfterService::Halted
        } else {
            AfterService::Resume
        },
    }
}

/// After an interrupt window the vCPU runs on; after HLT it runs on only if
/// an interrupt was delivered, else it is reported halted; after a
/// cancellation it runs on unless nothing was delivered and the vCPU sits
/// halted with a pending event (`halted_reenter`), which is reported halted.
pub fn after_service(point: ServicePoint, injected: bool, halted_reenter: bool) -> (a: AfterService)
    ensures
        a == after_service_spec(point, injected, halted_reenter),
{
    match point {
        ServicePoint::InterruptWindow => AfterService::Resume,
        ServicePoint::Halt => {
            if injected {
                AfterService::Resume
            } else {
                AfterService::Halted
            }
        },
        ServicePoint::Canceled => {
            if !injected && halted_reenter {
                AfterService::Halted
            } else {
                AfterService::Resume
            }
        },
    }
}

/// A delivered interrupt always lets the vCPU run on.
pub proof fn lemma_delivery_resumes(point: ServicePoint, halted_reenter: bool)
    ensures
        after_service_spec(point, true, halted_reenter) == AfterService::Resume,
{
}

} // verus!
