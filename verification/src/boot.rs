//! Boot-time state of an x86_64 guest: the descriptor tables and identity
//! page tables written into low guest memory, the long-mode register values
//! of a vCPU, the local APIC LINT programming, and the partition properties
//! chosen at VM creation.

use vstd::prelude::*;
use crate::inject::{read_u32_le, write_u32_le, le_u32_at};

verus! {

/// Guest physical address of the boot GDT.
pub const BOOT_GDT_OFFSET: u64 = 0x500;

/// Guest physical address of the boot IDT.
pub const BOOT_IDT_OFFSET: u64 = 0x520;

/// Guest physical address of the PML4 table.
pub const PML4_START: u64 = 0x9000;

/// Guest physical address of the page-directory-pointer table.
pub const PDPTE_START: u64 = 0xA000;

/// Guest physical address of the page directory.
pub const PDE_START: u64 = 0xB000;

/// Number of entries in the boot GDT.
pub const BOOT_GDT_MAX: u64 = 4;

/// Initial stack pointer of the boot vCPU.
pub const BOOT_STACK_POINTER: u64 = 0x8ff0;

/// Guest physical address of the Linux zero page.
pub const ZERO_PAGE_START: u64 = 0x7000;

pub const EFER_LMA: u64 = 0x400;

pub const EFER_LME: u64 = 0x100;

pub const X86_CR0_PE: u64 = 0x1;

pub const X86_CR0_PG: u64 = 0x8000_0000;

pub const X86_CR4_PAE: u64 = 0x20;

/// Byte offsets of xAPIC registers in the interrupt-controller state page.
pub const XAPIC_LVT_LINT0_OFFSET: usize = 0x350;

pub const XAPIC_LVT_LINT1_OFFSET: usize = 0x360;

pub const XAPIC_SPURIOUS_VECTOR_OFFSET: usize = 0x0f0;

/// Delivery-mode field of a local vector table entry.
pub const APIC_MODE_MASK: u32 = 0x700;

/// Mask bit of a local vector table entry.
pub const APIC_LVT_MASK: u32 = 0x1_0000;

pub const APIC_MODE_NMI: u32 = 0x4;

pub const APIC_MODE_EXTINT: u32 = 0x7;

/// APIC software-enable bit of the spurious-interrupt vector register.
pub const APIC_SVR_ENABLE: u32 = 0x100;

pub const APIC_BASE_PHYS: u64 = 0xfee0_0000;

pub const APIC_BASE_MSR_ENABLE: u64 = 0x800;

pub const APIC_BASE_MSR_BSP: u64 = 0x100;

/// One 64-bit little-endian store into guest memory.
#[derive(Clone, Copy, Debug, PartialEq, Eq, Structural)]
pub struct BootWrite {
    pub gpa: u64,
    pub value: u64,
}

/// Number of stores that lay out the boot tables.
pub const BOOT_WRITE_COUNT: usize = 520;

pub open spec fn gdt_entry(i: int) -> u64 {
    if i == 0 {
        0
    } else if i == 1 {
        0x00AF_9B00_0000_FFFF
    } else if i == 2 {
        0x00CF_9300_0000_FFFF
    } else {
        0x008F_8B00_0000_FFFF
    }
}

/// The `i`-th store of the boot layout, in the order it is performed: the
/// four GDT entries, a null IDT entry, PML4[0] and PDPTE[0], the 512
/// two-megabyte identity mappings of the first gigabyte, and last PML4[511],
/// which maps the higher-half kernel onto the same tables.
pub open spec fn boot_write_spec(i: int) -> BootWrite {
    if i < 4 {
        BootWrite { gpa: (0x500 + 8 * i) as u64, value: gdt_entry(i) }
    } else if i == 4 {
        BootWrite { gpa: 0x520, value: 0 }
    } else if i == 5 {
        BootWrite { gpa: 0x9000, value: 0xA003 }
    } else if i == 6 {
        BootWrite { gpa: 0xA000, value: 0xB003 }
    } else if i < 519 {
        BootWrite { gpa: (0xB000 + 8 * (i - 7)) as u64, value: ((i - 7) * 0x20_0000 + 0x83) as u64 }
    } else {
        BootWrite { gpa: 0x9FF8, value: 0xA003 }
    }
}

/// The stores that put the boot GDT, IDT and page tables into guest memory,
/// in order.
pub fn boot_state_writes() -> (w: Vec<BootWrite>)
    ensures
        w@.len() == BOOT_WRITE_COUNT,
        forall|i: int| 0 <= i < BOOT_WRITE_COUNT ==> #[trigger] w@[i] == boot_write_spec(i),
{
    let mut w: Vec<BootWrite> = Vec::new();
    w.push(BootWrite { gpa: BOOT_GDT_OFFSET, value: 0x0000_0000_0000_0000 });
    w.push(BootWrite { gpa: BOOT_GDT_OFFSET + 8, value: 0x00AF_9B00_0000_FFFF });
    w.push(BootWrite { gpa: BOOT_GDT_OFFSET + 16, value: 0x00CF_9300_0000_FFFF });
    w.push(BootWrite { gpa: BOOT_GDT_OFFSET + 24, value: 0x008F_8B00_0000_FFFF });
    w.push(BootWrite { gpa: BOOT_IDT_OFFSET, value: 0 });
    w.push(BootWrite { gpa: PML4_START, value: PDPTE_START | 0x03 });
    w.push(BootWrite { gpa: PDPTE_START, value: PDE_START | 0x03 });
    assert(PDPTE_START | 0x03 == 0xA003u64 && PDE_START | 0x03 == 0xB003u64) by (bit_vector);
    let mut j: u64 = 0;
    while j < 512
        invariant
            j <= 512,
            w@.len() == 7 + j,
            PDPTE_START | 0x03 == 0xA003u64,
            forall|i: int| 0 <= i < w@.len() ==> #[trigger] w@[i] == boot_write_spec(i),
        decreases 512 - j,
    {
        w.push(BootWrite { gpa: PDE_START + j * 8, value: j * 0x20_0000 + 0x83 });
        j = j + 1;
    }
    w.push(BootWrite { gpa: PML4_START + 511 * 8, value: PDPTE_START | 0x03 });
    w
}

/// No two boot stores overlap, and all of them fall in the first 48 KiB of
/// guest memory: the order of the stores does not matter, and a guest
/// memory that covers `0..0xC000` receives all of them.
pub proof fn lemma_boot_writes_disjoint(i: int, j: int)
    requires
        0 <= i < BOOT_WRITE_COUNT,
        0 <= j < BOOT_WRITE_COUNT,
        i != j,
    ensures
        boot_write_spec(i).gpa + 8 <= boot_write_spec(j).gpa || boot_write_spec(j).gpa + 8
            <= boot_write_spec(i).gpa,
        boot_write_spec(i).gpa + 8 <= 0xC000,
        boot_write_spec(i).gpa % 8 == 0,
{
}

/// PML4[0] and PML4[511] both reference the one page-directory-pointer
/// table, which references the identity page directory: virtual addresses
/// 0 and 0xffff_ff80_0000_0000 + x reach the same physical page.
pub proof fn lemma_higher_half_aliases_identity_map()
    ensures
        boot_write_spec(5).gpa == PML4_START,
        boot_write_spec(519).gpa == PML4_START + 511 * 8,
        boot_write_spec(5).value == boot_write_spec(519).value,
        boot_write_spec(5).value == PDPTE_START + 3,
        boot_write_spec(6).gpa == PDPTE_START,
        boot_write_spec(6).value == PDE_START + 3,
        forall|p: int|
            0 <= p < 512 ==> #[trigger] boot_write_spec(7 + p).value == p * 0x20_0000 + 0x83,
{
}

/// A segment register as the hypervisor takes it.
#[derive(Clone, Copy, Debug, PartialEq, Eq, Structural)]
pub struct SegmentRegister {
    pub base: u64,
    pub limit: u32,
    pub selector: u16,
    pub attributes: u16,
}

/// A descriptor-table register (GDTR or IDTR).
#[derive(Clone, Copy, Debug, PartialEq, Eq, Structural)]
pub struct TableRegister {
    pub base: u64,
    pub limit: u16,
}

/// Register values a vCPU starts a 64-bit kernel with.
#[derive(Clone, Copy, Debug, PartialEq, Eq, Structural)]
pub struct BootRegisters {
    pub rip: u64,
    pub rsp: u64,
    pub rbp: u64,
    pub rsi: u64,
    pub rflags: u64,
    pub cs: SegmentRegister,
    pub ds: SegmentRegister,
    pub es: SegmentRegister,
    pub fs: SegmentRegister,
    pub gs: SegmentRegister,
    pub ss: SegmentRegister,
    pub tr: SegmentRegister,
    pub gdtr: TableRegister,
    pub idtr: TableRegister,
    pub cr0: u64,
    pub cr3: u64,
    pub cr4: u64,
    pub efer: u64,
    pub apic_base: u64,
}

pub open spec fn code_segment() -> SegmentRegister {
    SegmentRegister { base: 0, limit: 0xFFFFF, selector: 0x08, attributes: 0xA09B }
}

pub open spec fn data_segment() -> SegmentRegister {
    SegmentRegister { base: 0, limit: 0xFFFFF, selector: 0x10, attributes: 0xC093 }
}

pub open spec fn tss_segment() -> SegmentRegister {
    SegmentRegister { base: 0, limit: 0xFFFFF, selector: 0x18, attributes: 0x808B }
}

/// APIC base MSR of a vCPU: enabled at the architectural address, with the
/// bootstrap-processor flag on vCPU 0 only.
pub open spec fn apic_base_spec(vcpu_id: u8) -> u64 {
    if vcpu_id == 0 {
        0xfee0_0900
    } else {
        0xfee0_0800
    }
}

pub open spec fn boot_registers_spec(kernel_start: u64, vcpu_id: u8) -> BootRegisters {
    BootRegisters {
        rip: kernel_start,
        rsp: BOOT_STACK_POINTER,
        rbp: BOOT_STACK_POINTER,
        rsi: ZERO_PAGE_START,
        rflags: 0x2,
        cs: code_segment(),
        ds: data_segment(),
        es: data_segment(),
        fs: data_segment(),
        gs: data_segment(),
        ss: data_segment(),
        tr: tss_segment(),
        gdtr: TableRegister { base: BOOT_GDT_OFFSET, limit: 31 },
        idtr: TableRegister { base: BOOT_IDT_OFFSET, limit: 7 },
        cr0: 0x8000_0001,
        cr3: PML4_START,
        cr4: X86_CR4_PAE,
        efer: 0x500,
        apic_base: apic_base_spec(vcpu_id),
    }
}

/// Long-mode register state of vCPU `vcpu_id` entering the kernel at
/// `kernel_start`: flat 64-bit code and data segments, paging through the
/// boot tables, interrupts disabled, and the local APIC enabled.
pub fn boot_registers(kernel_start: u64, vcpu_id: u8) -> (r: BootRegisters)
    ensures
        r == boot_registers_spec(kernel_start, vcpu_id),
{
    let code_seg = SegmentRegister { base: 0, limit: 0xFFFFF, selector: 0x08, attributes: 0xA09B };
    let data_seg = SegmentRegister { base: 0, limit: 0xFFFFF, selector: 0x10, attributes: 0xC093 };
    let tss_seg = SegmentRegister { base: 0, limit: 0xFFFFF, selector: 0x18, attributes: 0x808B };
    let bsp: u64 = if vcpu_id == 0 {
        APIC_BASE_MSR_BSP
    } else {
        0
    };
    let apic_base = APIC_BASE_PHYS | APIC_BASE_MSR_ENABLE | bsp;
    assert(APIC_BASE_PHYS | APIC_BASE_MSR_ENABLE | APIC_BASE_MSR_BSP == 0xfee0_0900u64
        && APIC_BASE_PHYS | APIC_BASE_MSR_ENABLE | 0u64 == 0xfee0_0800u64 && X86_CR0_PE | X86_CR0_PG
        == 0x8000_0001u64 && EFER_LME | EFER_LMA == 0x500u64) by (bit_vector);
    let cr0 = X86_CR0_PE | X86_CR0_PG;
    let efer = EFER_LME | EFER_LMA;
    BootRegisters {
        rip: kernel_start,
        rsp: BOOT_STACK_POINTER,
        rbp: BOOT_STACK_POINTER,
        rsi: ZERO_PAGE_START,
        rflags: 0x2,
        cs: code_seg,
        ds: data_seg,
        es: data_seg,
        fs: data_seg,
        gs: data_seg,
        ss: data_seg,
        tr: tss_seg,
        gdtr: TableRegister { base: BOOT_GDT_OFFSET, limit: (BOOT_GDT_MAX * 8 - 1) as u16 },
        idtr: TableRegister { base: BOOT_IDT_OFFSET, limit: 7 },
        cr0,
        cr3: PML4_START,
        cr4: X86_CR4_PAE,
        efer,
        apic_base,
    }
}

pub open spec fn set_apic_delivery_mode_spec(reg: u32, mode: u32) -> u32 {
    (reg & !(APIC_MODE_MASK | APIC_LVT_MASK)) | (mode << 8u32)
}

/// A local vector table entry with its delivery mode replaced by `mode` and
/// its mask bit cleared.
pub fn set_apic_delivery_mode(reg: u32, mode: u32) -> (r: u32)
    ensures
        r == set_apic_delivery_mode_spec(reg, mode),
{
    (reg & !(APIC_MODE_MASK | APIC_LVT_MASK)) | (mode << 8u32)
}

/// For a delivery mode that fits its three-bit field, the entry comes out
/// unmasked, carrying that mode, and with every other bit as it was.
pub proof fn lemma_delivery_mode_fields(reg: u32, mode: u32)
    requires
        mode < 8,
    ensures
        (set_apic_delivery_mode_spec(reg, mode) >> 8u32) & 7 == mode,
        set_apic_delivery_mode_spec(reg, mode) & APIC_LVT_MASK == 0,
        set_apic_delivery_mode_spec(reg, mode) & !(APIC_MODE_MASK | APIC_LVT_MASK) == reg & !(
        APIC_MODE_MASK | APIC_LVT_MASK),
{
    assert((((reg & !(0x700u32 | 0x1_0000u32)) | (mode << 8u32)) >> 8u32) & 7 == mode
        && ((reg & !(0x700u32 | 0x1_0000u32)) | (mode << 8u32)) & 0x1_0000u32 == 0
        && ((reg & !(0x700u32 | 0x1_0000u32)) | (mode << 8u32)) & !(0x700u32 | 0x1_0000u32) == reg
        & !(0x700u32 | 0x1_0000u32)) by (bit_vector)
        requires
            mode < 8,
    ;
}

/// New LINT0 and LINT1 register values: LINT0 delivers ExtINT (the legacy
/// PIC), LINT1 delivers NMI. Only the low 32 bits of each register count.
pub fn program_lint_registers(lint0: u64, lint1: u64) -> (r: (u64, u64))
    ensures
        r.0 == set_apic_delivery_mode_spec((lint0 % 0x1_0000_0000) as u32, APIC_MODE_EXTINT),
        r.1 == set_apic_delivery_mode_spec((lint1 % 0x1_0000_0000) as u32, APIC_MODE_NMI),
{
    let l0: u32 = (lint0 & 0xffff_ffff) as u32;
    let l1: u32 = (lint1 & 0xffff_ffff) as u32;
    assert(lint0 & 0xffff_ffff == lint0 % 0x1_0000_0000 && lint1 & 0xffff_ffff == lint1
        % 0x1_0000_0000) by (bit_vector);
    (
        set_apic_delivery_mode(l0, APIC_MODE_EXTINT) as u64,
        set_apic_delivery_mode(l1, APIC_MODE_NMI) as u64,
    )
}

/// Number of bytes of the state page handed back to the hypervisor.
pub open spec fn apic_state_size_spec(len: nat, bytes_written: u32) -> u32 {
    if bytes_written == 0 {
        len as u32
    } else if bytes_written < len {
        bytes_written
    } else {
        len as u32
    }
}

/// Programs LINT0 (ExtINT), LINT1 (NMI) and the APIC software-enable bit in
/// a raw xAPIC state page, for hosts where the LINT registers cannot be set
/// one by one. Returns how many bytes of the page to write back, or `None`
/// (page unchanged) where the page is too short to hold the three registers.
pub fn patch_apic_state_lint(state: &mut [u8], bytes_written: u32) -> (size: Option<u32>)
    requires
        old(state)@.len() <= u32::MAX,
    ensures
        final(state)@.len() == old(state)@.len(),
        size.is_some() <==> XAPIC_LVT_LINT1_OFFSET + 4 <= old(state)@.len(),
        size.is_none() ==> final(state)@ == old(state)@,
        size.is_some() ==> {
            &&& size == Some(apic_state_size_spec(old(state)@.len(), bytes_written))
            &&& le_u32_at(final(state)@, XAPIC_LVT_LINT0_OFFSET as int)
                == set_apic_delivery_mode_spec(
                le_u32_at(old(state)@, XAPIC_LVT_LINT0_OFFSET as int),
                APIC_MODE_EXTINT,
            )
            &&& le_u32_at(final(state)@, XAPIC_LVT_LINT1_OFFSET as int)
                == set_apic_delivery_mode_spec(
                le_u32_at(old(state)@, XAPIC_LVT_LINT1_OFFSET as int),
                APIC_MODE_NMI,
            )
            &&& le_u32_at(final(state)@, XAPIC_SPURIOUS_VECTOR_OFFSET as int) == (le_u32_at(
                old(state)@,
                XAPIC_SPURIOUS_VECTOR_OFFSET as int,
            ) | APIC_SVR_ENABLE)
            &&& forall|i: int|
                0 <= i < final(state)@.len() && !(XAPIC_LVT_LINT0_OFFSET <= i
                    < XAPIC_LVT_LINT0_OFFSET + 4) && !(XAPIC_LVT_LINT1_OFFSET <= i
                    < XAPIC_LVT_LINT1_OFFSET + 4) && !(XAPIC_SPURIOUS_VECTOR_OFFSET <= i
                    < XAPIC_SPURIOUS_VECTOR_OFFSET + 4) ==> final(state)@[i] == old(state)@[i]
        },
{
    let lint0_before = match read_u32_le(state, XAPIC_LVT_LINT0_OFFSET) {
        Some(v) => v,
        None => return None,
    };
    let lint1_before = match read_u32_le(state, XAPIC_LVT_LINT1_OFFSET) {
        Some(v) => v,
        None => return None,
    };
    let spurious_before = match read_u32_le(state, XAPIC_SPURIOUS_VECTOR_OFFSET) {
        Some(v) => v,
        None => return None,
    };
    let ghost s0 = state@;
    let lint0_after = set_apic_delivery_mode(lint0_before, APIC_MODE_EXTINT);
    let lint1_after = set_apic_delivery_mode(lint1_before, APIC_MODE_NMI);
    let spurious_after = spurious_before | APIC_SVR_ENABLE;
    let ok0 = write_u32_le(state, XAPIC_LVT_LINT0_OFFSET, lint0_after);
    let ghost s1 = state@;
    let ok1 = write_u32_le(state, XAPIC_LVT_LINT1_OFFSET, lint1_after);
    let ghost s2 = state@;
    let ok2 = write_u32_le(state, XAPIC_SPURIOUS_VECTOR_OFFSET, spurious_after);
    assert(ok0 && ok1 && ok2);
    assert(le_u32_at(state@, XAPIC_LVT_LINT0_OFFSET as int) == le_u32_at(
        s1,
        XAPIC_LVT_LINT0_OFFSET as int,
    ));
    assert(le_u32_at(state@, XAPIC_LVT_LINT1_OFFSET as int) == le_u32_at(
        s2,
        XAPIC_LVT_LINT1_OFFSET as int,
    ));
    let len: u32 = state.len() as u32;
    let state_size: u32 = if bytes_written == 0 {
        len
    } else if bytes_written < len {
        bytes_written
    } else {
        len
    };
    Some(state_size)
}

pub const HV_SYNTHETIC_FEATURE_HYPERVISOR_PRESENT: u64 = 0x1;

pub const HV_SYNTHETIC_FEATURE_HV1: u64 = 0x2;

pub const HV_SYNTHETIC_FEATURE_VP_RUNTIME: u64 = 0x4;

pub const HV_SYNTHETIC_FEATURE_REFERENCE_COUNTER: u64 = 0x8;

pub const HV_SYNTHETIC_FEATURE_HYPERCALL_REGS: u64 = 0x80;

pub const HV_SYNTHETIC_FEATURE_VP_INDEX: u64 = 0x100;

pub const HV_SYNTHETIC_FEATURE_PARTITION_REFERENCE_TSC: u64 = 0x200;

pub const HV_SYNTHETIC_FEATURE_FREQUENCY_REGS: u64 = 0x800;

/// The synthetic processor features the guest is offered when the host has
/// them: hypervisor present, HV1, VP runtime, reference counter, hypercall
/// registers, VP index, reference TSC page and frequency MSRs.
pub fn desired_windows_hyperv_synthetic_features() -> (f: u64)
    ensures
        f == 0xB8F,
{
    let f = HV_SYNTHETIC_FEATURE_HYPERVISOR_PRESENT | HV_SYNTHETIC_FEATURE_HV1
        | HV_SYNTHETIC_FEATURE_VP_RUNTIME | HV_SYNTHETIC_FEATURE_REFERENCE_COUNTER
        | HV_SYNTHETIC_FEATURE_HYPERCALL_REGS | HV_SYNTHETIC_FEATURE_VP_INDEX
        | HV_SYNTHETIC_FEATURE_PARTITION_REFERENCE_TSC | HV_SYNTHETIC_FEATURE_FREQUENCY_REGS;
    assert(0x1u64 | 0x2u64 | 0x4u64 | 0x8u64 | 0x80u64 | 0x100u64 | 0x200u64 | 0x800u64 == 0xB8Fu64)
        by (bit_vector);
    f
}

/// The host's first bank of synthetic processor features, if it reported
/// any bank.
pub fn host_synthetic_features(banks_count: u32, bank0: u64) -> (f: Option<u64>)
    ensures
        f == (if banks_count == 0 {
            None::<u64>
        } else {
            Some(bank0)
        }),
{
    if banks_count == 0 {
        None
    } else {
        Some(bank0)
    }
}

/// Hyper-V MSRs whose reads and writes exit to the VMM.
pub open spec fn msr_action_indices_spec() -> Seq<u32> {
    seq![
        0x4000_0000u32,
        0x4000_0001u32,
        0x4000_0002u32,
        0x4000_0010u32,
        0x4000_0020u32,
        0x4000_0022u32,
        0x4000_0023u32,
        0x4000_0073u32,
    ]
}

/// Partition properties set before the partition is finalised.
#[derive(Clone, Debug, PartialEq, Eq)]
pub struct PartitionPlan {
    pub processor_count: u32,
    /// Local APIC emulation in xAPIC mode.
    pub xapic_emulation: bool,
    /// Override CPUID leaf 1 ECX bit 31 (hypervisor present).
    pub cpuid_hypervisor_bit: bool,
    /// Synthetic processor feature bank to install, if any.
    pub synthetic_features: Option<u64>,
    /// Extended VM exits (bit 0: CPUID, bit 1: MSR), if set.
    pub extended_vm_exits: Option<u64>,
    /// MSR exit bitmap (bit 0: unhandled MSRs), if set.
    pub msr_exit_bitmap: Option<u64>,
    /// MSR indices given an exit action for both reads and writes.
    pub msr_action_indices: Vec<u32>,
}

/// What a new partition is configured with. With `enable_apic` (production
/// boots): xAPIC emulation, CPUID and MSR exits, and the Hyper-V
/// enlightenments that let the guest use the Hyper-V clock source: the
/// hypervisor-present CPUID bit, the synthetic features both wanted and
/// offered by the host (none when that set is empty or the host reported
/// none), and exit actions for the Hyper-V MSRs. Without it only the
/// processor count is set.
pub fn partition_setup_plan(vcpu_count: u32, enable_apic: bool, host_features: Option<u64>) -> (p: PartitionPlan)
    ensures
        p.processor_count == vcpu_count,
        p.xapic_emulation == enable_apic,
        p.cpuid_hypervisor_bit == enable_apic,
        p.synthetic_features == (if enable_apic && host_features.is_some() && (host_features.unwrap()
            & 0xB8F) != 0 {
            Some(host_features.unwrap() & 0xB8F)
        } else {
            None::<u64>
        }),
        p.extended_vm_exits == (if enable_apic {
            Some(3u64)
        } else {
            None::<u64>
        }),
        p.msr_exit_bitmap == (if enable_apic {
            Some(1u64)
        } else {
            None::<u64>
        }),
        p.msr_action_indices@ == (if enable_apic {
            msr_action_indices_spec()
        } else {
            Seq::<u32>::empty()
        }),
{
    let mut plan = PartitionPlan {
        processor_count: vcpu_count,
        xapic_emulation: enable_apic,
        cpuid_hypervisor_bit: false,
        synthetic_features: None,
        extended_vm_exits: None,
        msr_exit_bitmap: None,
        msr_action_indices: Vec::new(),
    };
    if enable_apic {
        plan.cpuid_hypervisor_bit = true;
        let desired = desired_windows_hyperv_synthetic_features();
        let effective: u64 = match host_features {
            Some(mask) => mask & desired,
            None => 0,
        };
        if effective != 0 {
            plan.synthetic_features = Some(effective);
        }
        plan.extended_vm_exits = Some(3);
        plan.msr_exit_bitmap = Some(1);
        let mut v: Vec<u32> = Vec::new();
        v.push(0x4000_0000);
        v.push(0x4000_0001);
        v.push(0x4000_0002);
        v.push(0x4000_0010);
        v.push(0x4000_0020);
        v.push(0x4000_0022);
        v.push(0x4000_0023);
        v.push(0x4000_0073);
        assert(v@ =~= msr_action_indices_spec());
        plan.msr_action_indices = v;
    }
    plan
}

} // verus!
