//! Emulation of the CPUID, RDMSR/WRMSR, RDTSC and trap-exception exits:
//! the register values the guest sees and the Hyper-V MSR state they keep.

use vstd::prelude::*;
use crate::decode::rip_plus;

verus! {

pub const HV_X64_MSR_GUEST_OS_ID: u32 = 0x4000_0000;

pub const HV_X64_MSR_HYPERCALL: u32 = 0x4000_0001;

pub const HV_X64_MSR_VP_INDEX: u32 = 0x4000_0002;

pub const HV_X64_MSR_VP_RUNTIME: u32 = 0x4000_0010;

pub const HV_X64_MSR_TIME_REF_COUNT: u32 = 0x4000_0020;

pub const HV_X64_MSR_TSC_FREQUENCY: u32 = 0x4000_0022;

pub const HV_X64_MSR_APIC_FREQUENCY: u32 = 0x4000_0023;

pub const HV_X64_MSR_VP_ASSIST_PAGE: u32 = 0x4000_0073;

pub const IA32_TSC: u32 = 0x10;

/// Hyper-V feature bits (CPUID 0x40000003 EAX) a guest may see: VP runtime,
/// time reference count, hypercall MSRs, VP index, bit 8, bit 9 and the
/// frequency MSRs.
pub const HV_CPUID_FEATURES_MINIMAL_GUEST_MASK: u32 = 0xb63;

/// APIC timer frequency reported through HV_X64_MSR_APIC_FREQUENCY.
pub const APIC_FREQUENCY_HZ: u64 = 100_000_000;

/// Exception types that trap after the faulting instruction.
pub const EXCEPTION_TYPE_BREAKPOINT_TRAP: u32 = 3;

pub const EXCEPTION_TYPE_OVERFLOW_TRAP: u32 = 4;

/// The four result registers of a CPUID leaf.
#[derive(Debug, Clone, Copy, PartialEq, Eq, Structural)]
pub struct CpuidRegs {
    pub rax: u64,
    pub rbx: u64,
    pub rcx: u64,
    pub rdx: u64,
}

pub open spec fn guest_hyperv_cpuid_spec(function: u32, host: CpuidRegs) -> CpuidRegs {
    if function == 0x4000_0000 {
        CpuidRegs { rax: 0x4000_0006, ..host }
    } else if function == 0x4000_0003 {
        CpuidRegs {
            rax: ((host.rax % 0x1_0000_0000) as u32 & HV_CPUID_FEATURES_MINIMAL_GUEST_MASK) as u64,
            rbx: 0,
            rcx: 0,
            rdx: 0,
        }
    } else if function == 0x4000_0004 {
        CpuidRegs { rax: 0x20, rbx: 0xff, rcx: 0, rdx: 0 }
    } else if function == 0x4000_0005 || function == 0x4000_0006 {
        CpuidRegs { rax: 0, rbx: 0, rcx: 0, rdx: 0 }
    } else {
        host
    }
}

/// The Hyper-V CPUID leaf the guest sees, given the host's: the maximum leaf
/// is capped at 0x40000006, features are masked to the minimal set,
/// implementation limits and leaves 5 and 6 are replaced.
pub fn guest_hyperv_cpuid(function: u32, host: CpuidRegs) -> (regs: CpuidRegs)
    ensures
        regs == guest_hyperv_cpuid_spec(function, host),
{
    if function == 0x4000_0000 {
        CpuidRegs { rax: 0x4000_0006, rbx: host.rbx, rcx: host.rcx, rdx: host.rdx }
    } else if function == 0x4000_0003 {
        let low = (host.rax % 0x1_0000_0000) as u32;
        CpuidRegs { rax: (low & HV_CPUID_FEATURES_MINIMAL_GUEST_MASK) as u64, rbx: 0, rcx: 0, rdx: 0 }
    } else if function == 0x4000_0004 {
        CpuidRegs { rax: 0x20, rbx: 0xff, rcx: 0, rdx: 0 }
    } else if function == 0x4000_0005 || function == 0x4000_0006 {
        CpuidRegs { rax: 0, rbx: 0, rcx: 0, rdx: 0 }
    } else {
        host
    }
}

pub open spec fn is_hyperv_leaf(function: u32) -> bool {
    0x4000_0000 <= function <= 0x4000_0006
}

pub open spec fn emulated_cpuid_spec(
    function: u32,
    defaults: CpuidRegs,
    enlightenments: bool,
    host_hyperv: CpuidRegs,
    tsc_hz: u64,
) -> CpuidRegs {
    if function == 0 {
        let hw = (defaults.rax % 0x1_0000_0000) as u32;
        CpuidRegs { rax: if hw >= 0x15 { hw as u64 } else { 0x15 }, ..defaults }
    } else if function == 1 && !enlightenments {
        CpuidRegs { rcx: defaults.rcx & 0xFFFF_FFFF_7FFF_FFFF, ..defaults }
    } else if is_hyperv_leaf(function) && !enlightenments {
        CpuidRegs { rax: 0, rbx: 0, rcx: 0, rdx: 0 }
    } else if is_hyperv_leaf(function) {
        guest_hyperv_cpuid_spec(function, host_hyperv)
    } else if function == 0x15 {
        CpuidRegs { rax: 1, rbx: 1, rcx: (tsc_hz % 0x1_0000_0000) as u64, rdx: 0 }
    } else {
        defaults
    }
}

/// Leaf 0 keeps the vendor registers and reports a maximum standard leaf of
/// at least 0x15, never below the hypervisor's own: the hypervisor's value
/// (its low 32 bits) when that is already 0x15 or more, else 0x15.
pub proof fn lemma_leaf0_max_leaf(defaults: CpuidRegs, enlightenments: bool, host_hyperv: CpuidRegs, tsc_hz: u64)
    ensures
        ({
            let r = emulated_cpuid_spec(0, defaults, enlightenments, host_hyperv, tsc_hz);
            let hw = defaults.rax % 0x1_0000_0000;
            &&& r.rax >= 0x15
            &&& r.rax >= hw
            &&& r.rax == hw || r.rax == 0x15
            &&& hw >= 0x15 ==> r.rax == hw
            &&& r.rbx == defaults.rbx && r.rcx == defaults.rcx && r.rdx == defaults.rdx
        }),
{
}

/// The other emulated leaves: without enlightenments leaf 1 hides only the
/// hypervisor-present bit (ECX bit 31) and the Hyper-V leaves read as zero;
/// leaf 0x15 reports a 1:1 crystal ratio with the TSC frequency as crystal
/// clock; with enlightenments the Hyper-V maximum leaf is 0x40000006 and the
/// feature leaf offers only host features within the minimal set; every
/// other leaf is the hypervisor's own.
pub proof fn lemma_cpuid_leaves(function: u32, defaults: CpuidRegs, enlightenments: bool, host: CpuidRegs, tsc_hz: u64)
    ensures
        ({
            let r = emulated_cpuid_spec(function, defaults, enlightenments, host, tsc_hz);
            &&& function == 1 && !enlightenments ==> {
                &&& (r.rcx / 0x8000_0000) % 2 == 0
                &&& r.rcx % 0x8000_0000 == defaults.rcx % 0x8000_0000
                &&& r.rcx / 0x1_0000_0000 == defaults.rcx / 0x1_0000_0000
                &&& r.rax == defaults.rax && r.rbx == defaults.rbx && r.rdx == defaults.rdx
            }
            &&& function == 1 && enlightenments ==> r == defaults
            &&& function == 0x15 ==> r.rax == 1 && r.rbx == 1 && r.rcx == tsc_hz % 0x1_0000_0000
                && r.rdx == 0
            &&& 0x4000_0000 <= function <= 0x4000_0006 && !enlightenments ==> r.rax == 0 && r.rbx == 0
                && r.rcx == 0 && r.rdx == 0
            &&& function == 0x4000_0000 && enlightenments ==> r.rax == 0x4000_0006 && r.rbx == host.rbx
                && r.rcx == host.rcx && r.rdx == host.rdx
            &&& function == 0x4000_0003 && enlightenments ==> {
                &&& r.rax & 0xb63 == r.rax
                &&& r.rax & (host.rax % 0x1_0000_0000) == r.rax
                &&& r.rax & 0xb63 & (host.rax % 0x1_0000_0000) == (host.rax % 0x1_0000_0000) & 0xb63
                &&& r.rbx == 0 && r.rcx == 0 && r.rdx == 0
            }
            &&& function != 0 && function != 1 && function != 0x15 && !(0x4000_0000 <= function
                <= 0x4000_0006) ==> r == defaults
        }),
{
    let c = defaults.rcx;
    let m = c & 0xFFFF_FFFF_7FFF_FFFF;
    assert((m / 0x8000_0000) % 2 == 0 && m % 0x8000_0000 == c % 0x8000_0000 && m / 0x1_0000_0000
        == c / 0x1_0000_0000) by (bit_vector)
        requires
            m == c & 0xFFFF_FFFF_7FFF_FFFF,
    ;
    let h = (host.rax % 0x1_0000_0000) as u32;
    let f = h & 0xb63u32;
    assert(f & 0xb63 == f && f & h == f && f & 0xb63 & h == h & 0xb63) by (bit_vector)
        requires
            f == h & 0xb63u32,
    ;
    assert(h as u64 == host.rax % 0x1_0000_0000);
    assert((f as u64) & 0xb63 == f as u64 && (f as u64) & (h as u64) == f as u64 && (f as u64) & 0xb63
        & (h as u64) == (h as u64) & 0xb63) by (bit_vector)
        requires
            f & 0xb63 == f,
            f & h == f,
            f & 0xb63 & h == h & 0xb63,
    ;
}

/// The CPUID result returned to the guest for leaf `function`, given the
/// hypervisor's default result, whether Hyper-V enlightenments are enabled,
/// the host's result for Hyper-V leaves and the measured TSC frequency:
/// the maximum standard leaf is raised to at least 0x15; without
/// enlightenments leaf 1 hides the hypervisor-present bit and the Hyper-V
/// leaves are zero; leaf 0x15 reports the TSC frequency as crystal clock
/// with ratio 1/1.
pub fn emulated_cpuid(
    function: u32,
    defaults: CpuidRegs,
    enlightenments: bool,
    host_hyperv: CpuidRegs,
    tsc_hz: u64,
) -> (regs: CpuidRegs)
    ensures
        regs == emulated_cpuid_spec(function, defaults, enlightenments, host_hyperv, tsc_hz),
{
    if function == 0 {
        let hw = (defaults.rax % 0x1_0000_0000) as u32;
        let eax: u64 = if hw >= 0x15 {
            hw as u64
        } else {
            0x15
        };
        CpuidRegs { rax: eax, rbx: defaults.rbx, rcx: defaults.rcx, rdx: defaults.rdx }
    } else if function == 1 && !enlightenments {
        CpuidRegs {
            rax: defaults.rax,
            rbx: defaults.rbx,
            rcx: defaults.rcx & 0xFFFF_FFFF_7FFF_FFFF,
            rdx: defaults.rdx,
        }
    } else if 0x4000_0000 <= function && function <= 0x4000_0006 && !enlightenments {
        CpuidRegs { rax: 0, rbx: 0, rcx: 0, rdx: 0 }
    } else if 0x4000_0000 <= function && function <= 0x4000_0006 {
        guest_hyperv_cpuid(function, host_hyperv)
    } else if function == 0x15 {
        CpuidRegs { rax: 1, rbx: 1, rcx: tsc_hz % 0x1_0000_0000, rdx: 0 }
    } else {
        defaults
    }
}

/// RIP after a two-byte instruction (CPUID, RDMSR, WRMSR, RDTSC).
pub fn rip_after_two_byte_instruction(rip: u64) -> (next: u64)
    ensures
        next == rip_plus(rip, 2),
{
    proof {
        let m: int = 0x1_0000_0000_0000_0000;
        let t: int = rip + 2;
        if t > u64::MAX {
            assert(t % m == t - m) by (nonlinear_arith)
                requires
                    m <= t < 2 * m,
                    m == 0x1_0000_0000_0000_0000int,
            ;
        } else {
            assert(t % m == t) by (nonlinear_arith)
                requires
                    0 <= t < m,
            ;
        }
    }
    rip.wrapping_add(2)
}

/// The 64-bit value of a WRMSR: EDX:EAX.
pub open spec fn msr_write_value_spec(rax: u64, rdx: u64) -> u64 {
    (((rdx % 0x1_0000_0000) * 0x1_0000_0000) + rax % 0x1_0000_0000) as u64
}

pub fn msr_write_value(rax: u64, rdx: u64) -> (v: u64)
    ensures
        v == msr_write_value_spec(rax, rdx),
{
    let v = (rdx << 32u64) | (rax & 0xffff_ffff);
    assert(v == (rdx % 0x1_0000_0000) * 0x1_0000_0000 + rax % 0x1_0000_0000) by (bit_vector)
        requires
            v == (rdx << 32u64) | (rax & 0xffff_ffff),
    ;
    v
}

/// RAX and RDX after RDMSR/RDTSC of `value`: the low and high halves.
pub open spec fn split_value_spec(value: u64) -> (u64, u64) {
    ((value % 0x1_0000_0000) as u64, (value / 0x1_0000_0000) as u64)
}

pub fn split_value(value: u64) -> (r: (u64, u64))
    ensures
        r == split_value_spec(value),
{
    let lo = value & 0xffff_ffff;
    let hi = value >> 32u64;
    assert(lo == value % 0x1_0000_0000 && hi == value / 0x1_0000_0000) by (bit_vector)
        requires
            lo == value & 0xffff_ffff,
            hi == value >> 32u64,
    ;
    (lo, hi)
}

/// Splitting the value of a WRMSR gives back the low halves of RAX and RDX.
pub proof fn lemma_split_of_write_value(rax: u64, rdx: u64)
    ensures
        split_value_spec(msr_write_value_spec(rax, rdx)) == (
            (rax % 0x1_0000_0000) as u64,
            (rdx % 0x1_0000_0000) as u64,
        ),
{
    let lo = rax % 0x1_0000_0000;
    let hi = rdx % 0x1_0000_0000;
    assert((hi * 0x1_0000_0000 + lo) % 0x1_0000_0000 == lo) by (nonlinear_arith)
        requires
            0 <= lo < 0x1_0000_0000,
            0 <= hi < 0x1_0000_0000,
    ;
    assert((hi * 0x1_0000_0000 + lo) / 0x1_0000_0000 == hi) by (nonlinear_arith)
        requires
            0 <= lo < 0x1_0000_0000,
            0 <= hi < 0x1_0000_0000,
    ;
}

/// Host clock readings an RDMSR may report.
#[derive(Debug, Clone, Copy, PartialEq, Eq, Structural)]
pub struct MsrClocks {
    /// Host timestamp counter.
    pub tsc: u64,
    /// Host performance counter in 100 ns units.
    pub counter_100ns: u64,
    /// Measured TSC frequency in Hz.
    pub tsc_hz: u64,
}

/// Effect of a WRMSR beyond the stored value.
#[derive(Debug, Clone, Copy, PartialEq, Eq, Structural)]
pub enum MsrWriteEffect {
    NoSideEffect,
    /// The VP assist page was enabled at this guest physical page: zero it.
    ZeroGuestPage { gpa: u64 },
}

/// The Hyper-V MSRs the guest writes and reads back.
#[derive(Debug, Clone, Copy, PartialEq, Eq, Structural)]
pub struct HypervMsrState {
    pub guest_os_id: u64,
    pub hypercall: u64,
    pub vp_assist_page: u64,
}

pub open spec fn msr_read_spec(state: HypervMsrState, msr: u32, vp_index: u32, clocks: MsrClocks) -> u64 {
    if msr == IA32_TSC {
        clocks.tsc
    } else if msr == HV_X64_MSR_GUEST_OS_ID {
        state.guest_os_id
    } else if msr == HV_X64_MSR_HYPERCALL {
        state.hypercall
    } else if msr == HV_X64_MSR_VP_ASSIST_PAGE {
        state.vp_assist_page
    } else if msr == HV_X64_MSR_VP_INDEX {
        vp_index as u64
    } else if msr == HV_X64_MSR_TIME_REF_COUNT || msr == HV_X64_MSR_VP_RUNTIME {
        clocks.counter_100ns
    } else if msr == HV_X64_MSR_TSC_FREQUENCY {
        clocks.tsc_hz
    } else if msr == HV_X64_MSR_APIC_FREQUENCY {
        APIC_FREQUENCY_HZ
    } else {
        0
    }
}

pub open spec fn msr_write_spec(state: HypervMsrState, msr: u32, value: u64) -> HypervMsrState {
    if msr == HV_X64_MSR_GUEST_OS_ID {
        HypervMsrState { guest_os_id: value, ..state }
    } else if msr == HV_X64_MSR_HYPERCALL {
        HypervMsrState { hypercall: value, ..state }
    } else if msr == HV_X64_MSR_VP_ASSIST_PAGE {
        HypervMsrState { vp_assist_page: value, ..state }
    } else {
        state
    }
}

impl HypervMsrState {
    pub fn new() -> (s: Self)
        ensures
            s == (HypervMsrState { guest_os_id: 0, hypercall: 0, vp_assist_page: 0 }),
    {
        HypervMsrState { guest_os_id: 0, hypercall: 0, vp_assist_page: 0 }
    }

    /// WRMSR of EDX:EAX to `msr`: the guest OS id, hypercall page and VP
    /// assist page MSRs are stored; other MSRs are ignored. Enabling the VP
    /// assist page (bit 0) asks for its page to be zeroed.
    pub fn write(&mut self, msr: u32, rax: u64, rdx: u64) -> (effect: MsrWriteEffect)
        ensures
            *final(self) == msr_write_spec(*old(self), msr, msr_write_value_spec(rax, rdx)),
            effect == (if msr == HV_X64_MSR_VP_ASSIST_PAGE && msr_write_value_spec(rax, rdx) % 2
                == 1 {
                MsrWriteEffect::ZeroGuestPage {
                    gpa: (msr_write_value_spec(rax, rdx) & 0xFFFF_FFFF_FFFF_F000) as u64,
                }
            } else {
                MsrWriteEffect::NoSideEffect
            }),
    {
        let value = msr_write_value(rax, rdx);
        if msr == HV_X64_MSR_GUEST_OS_ID {
            self.guest_os_id = value;
        } else if msr == HV_X64_MSR_HYPERCALL {
            self.hypercall = value;
        } else if msr == HV_X64_MSR_VP_ASSIST_PAGE {
            self.vp_assist_page = value;
            let enabled = (value & 1) != 0;
            assert(((value & 1) != 0) == (value % 2 == 1)) by (bit_vector);
            if enabled {
                return MsrWriteEffect::ZeroGuestPage { gpa: value & 0xFFFF_FFFF_FFFF_F000 };
            }
        }
        MsrWriteEffect::NoSideEffect
    }

    /// RDMSR of `msr`: the stored Hyper-V MSRs, the VP index, the host clocks
    /// for the TSC and the reference/runtime counters, the TSC and APIC
    /// frequencies; 0 for every other MSR.
    pub fn read(&self, msr: u32, vp_index: u32, clocks: MsrClocks) -> (value: u64)
        ensures
            value == msr_read_spec(*self, msr, vp_index, clocks),
    {
        if msr == IA32_TSC {
            clocks.tsc
        } else if msr == HV_X64_MSR_GUEST_OS_ID {
            self.guest_os_id
        } else if msr == HV_X64_MSR_HYPERCALL {
            self.hypercall
        } else if msr == HV_X64_MSR_VP_ASSIST_PAGE {
            self.vp_assist_page
        } else if msr == HV_X64_MSR_VP_INDEX {
            vp_index as u64
        } else if msr == HV_X64_MSR_TIME_REF_COUNT || msr == HV_X64_MSR_VP_RUNTIME {
            clocks.counter_100ns
        } else if msr == HV_X64_MSR_TSC_FREQUENCY {
            clocks.tsc_hz
        } else if msr == HV_X64_MSR_APIC_FREQUENCY {
            APIC_FREQUENCY_HZ
        } else {
            0
        }
    }
}

/// A stored Hyper-V MSR reads back what the last WRMSR to it wrote, and the
/// write leaves the other stored MSRs unchanged.
pub proof fn lemma_msr_read_after_write(
    state: HypervMsrState,
    msr: u32,
    other: u32,
    rax: u64,
    rdx: u64,
    vp_index: u32,
    clocks: MsrClocks,
)
    requires
        msr == HV_X64_MSR_GUEST_OS_ID || msr == HV_X64_MSR_HYPERCALL || msr
            == HV_X64_MSR_VP_ASSIST_PAGE,
        other != msr,
    ensures
        msr_read_spec(msr_write_spec(state, msr, msr_write_value_spec(rax, rdx)), msr, vp_index, clocks)
            == msr_write_value_spec(rax, rdx),
        msr_read_spec(msr_write_spec(state, msr, msr_write_value_spec(rax, rdx)), other, vp_index, clocks)
            == msr_read_spec(state, other, vp_index, clocks),
{
}

/// Host performance counter converted to 100 ns units; 0 when either
/// reading is not positive.
pub open spec fn counter_100ns_spec(counter: i64, frequency: i64) -> u64 {
    if counter <= 0 || frequency <= 0 {
        0
    } else {
        (((counter as int) * 10_000_000int / (frequency as int)) % 0x1_0000_0000_0000_0000int) as u64
    }
}

pub fn performance_counter_100ns(counter: i64, frequency: i64) -> (t: u64)
    ensures
        t == counter_100ns_spec(counter, frequency),
{
    if counter <= 0 || frequency <= 0 {
        return 0;
    }
    let c = counter as u128;
    let f = frequency as u128;
    assert(c * 10_000_000 <= u128::MAX) by (nonlinear_arith)
        requires
            0 < c <= 0x7fff_ffff_ffff_ffff,
    ;
    let scaled: u128 = c * 10_000_000u128;
    let q: u128 = scaled / f;
    (q % 0x1_0000_0000_0000_0000u128) as u64
}

/// RIP after a breakpoint or overflow trap exception (the instruction is
/// skipped); `None` for other exceptions, which are not handled.
pub fn trap_exception_next_rip(exception_type: u32, rip: u64, instruction_byte_count: u8) -> (next:
    Option<u64>)
    ensures
        (exception_type == EXCEPTION_TYPE_BREAKPOINT_TRAP || exception_type
            == EXCEPTION_TYPE_OVERFLOW_TRAP) ==> next == Some(rip_plus(rip, instruction_byte_count as int)),
        !(exception_type == EXCEPTION_TYPE_BREAKPOINT_TRAP || exception_type
            == EXCEPTION_TYPE_OVERFLOW_TRAP) ==> next.is_none(),
{
    if exception_type == EXCEPTION_TYPE_BREAKPOINT_TRAP || exception_type
        == EXCEPTION_TYPE_OVERFLOW_TRAP {
        proof {
            let m: int = 0x1_0000_0000_0000_0000;
            let t: int = rip + instruction_byte_count;
            if t > u64::MAX {
                assert(t % m == t - m) by (nonlinear_arith)
                    requires
                        m <= t < 2 * m,
                        m == 0x1_0000_0000_0000_0000int,
                ;
            } else {
                assert(t % m == t) by (nonlinear_arith)
                    requires
                        0 <= t < m,
                ;
            }
        }
        Some(rip.wrapping_add(instruction_byte_count as u64))
    } else {
        None
    }
}


/// The clock and identity MSRs read what the host clocks say: IA32_TSC
/// (0x10) the host TSC, the time reference count (0x40000020) and VP
/// runtime (0x40000010) the 100 ns counter, the TSC frequency (0x40000022)
/// the measured frequency, the APIC frequency (0x40000023) 100 MHz and the
/// VP index (0x40000002) the vCPU's index; an MSR not emulated reads 0.
pub proof fn lemma_clock_msrs(state: HypervMsrState, msr: u32, vp_index: u32, clocks: MsrClocks)
    ensures
        msr_read_spec(state, 0x10, vp_index, clocks) == clocks.tsc,
        msr_read_spec(state, 0x4000_0020, vp_index, clocks) == clocks.counter_100ns,
        msr_read_spec(state, 0x4000_0010, vp_index, clocks) == clocks.counter_100ns,
        msr_read_spec(state, 0x4000_0022, vp_index, clocks) == clocks.tsc_hz,
        msr_read_spec(state, 0x4000_0023, vp_index, clocks) == 100_000_000,
        msr_read_spec(state, 0x4000_0002, vp_index, clocks) == vp_index,
        msr != 0x10 && !(0x4000_0000 <= msr <= 0x4000_0002) && msr != 0x4000_0010 && msr
            != 0x4000_0020 && msr != 0x4000_0022 && msr != 0x4000_0023 && msr != 0x4000_0073
            ==> msr_read_spec(state, msr, vp_index, clocks) == 0,
{
}

/// A performance-counter reading converts to whole 100 ns units, rounded
/// down: the result r satisfies r * frequency <= counter * 10^7 <
/// (r + 1) * frequency (when it fits in 64 bits); nonpositive readings or
/// frequencies give 0.
pub proof fn lemma_counter_100ns(counter: i64, frequency: i64)
    ensures
        counter <= 0 || frequency <= 0 ==> counter_100ns_spec(counter, frequency) == 0,
        counter > 0 && frequency > 0 && (counter as int) * 10_000_000 / (frequency as int)
            < 0x1_0000_0000_0000_0000 ==> {
            let r = counter_100ns_spec(counter, frequency) as int;
            &&& r * frequency <= counter * 10_000_000
            &&& counter * 10_000_000 < (r + 1) * frequency
        },
{
    if counter > 0 && frequency > 0 {
        let n = (counter as int) * 10_000_000;
        let f = frequency as int;
        let q = n / f;
        assert(q * f <= n && n < (q + 1) * f) by (nonlinear_arith)
            requires
                f > 0,
                n >= 0,
                q == n / f,
        ;
    }
}

} // verus!
