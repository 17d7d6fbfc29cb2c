//! Handling of port-I/O and MMIO exits: what the vCPU does on each exit, the
//! data it hands to the device, the accesses left pending until the device
//! answers, and the register values that complete them.

use vstd::prelude::*;
use crate::decode::{
    DecodedMmioAccess, ErrorKind, MmioAccessKind, decode_io_instr_len, allow_string_io_fallback,
    string_io_fallback_port, io_instr_len_spec, merge_reg_bits, merge_reg_bits_spec, reg_bits,
    reg_bits_spec, valid_operand_size, rip_plus,
};

verus! {

/// Size of the vCPU's data buffer for one access.
pub const DATA_BUFFER_LEN: usize = 8;

/// Start of the higher-half kernel mapping, which maps guest physical 0.
pub const KERNEL_HIGH_HALF_BASE: u64 = 0xffff_ffff_8000_0000;

/// Result of emulating a VM exit.
#[derive(Debug, Clone, Copy, PartialEq, Eq, Structural)]
pub enum VcpuEmulation {
    /// The exit was handled successfully, continue execution.
    Handled,
    /// The VM should stop execution.
    Stopped,
    /// The CPU is halted.
    Halted,
}

/// A VM exit handed to the device model.
#[derive(Debug, Clone, PartialEq, Eq)]
pub enum VcpuExit {
    /// MMIO read of `size` bytes at a guest physical address.
    MmioRead(u64, usize),
    /// MMIO write of these bytes at a guest physical address.
    MmioWrite(u64, Vec<u8>),
    /// Port read of `size` bytes.
    IoPortRead(u16, usize),
    /// Port write of these bytes.
    IoPortWrite(u16, Vec<u8>),
    /// The guest executed HLT.
    Halted,
    /// The vCPU stops.
    Shutdown,
}

#[derive(Debug, Clone, Copy, PartialEq, Eq, Structural)]
pub struct PendingIoRead {
    pub port: u16,
    pub size: usize,
    pub next_rip: u64,
}

#[derive(Debug, Clone, Copy, PartialEq, Eq, Structural)]
pub struct PendingIoWrite {
    pub port: u16,
    pub next_rip: u64,
}

#[derive(Debug, Clone, Copy, PartialEq, Eq, Structural)]
pub struct PendingMmioRead {
    pub gpa: u64,
    pub size: usize,
    pub next_rip: u64,
    pub reg_index: u8,
    pub high8: bool,
    pub write_full: bool,
    pub sign_extend: bool,
}

#[derive(Debug, Clone, Copy, PartialEq, Eq, Structural)]
pub struct PendingMmioWrite {
    pub gpa: u64,
    pub next_rip: u64,
}

// ---------------------------------------------------------------------------
// Little-endian byte strings
// ---------------------------------------------------------------------------

pub open spec fn pow256(k: nat) -> nat
    decreases k,
{
    if k == 0 {
        1
    } else {
        256 * pow256((k - 1) as nat)
    }
}

/// Value of the first `k` bytes of `s` read little-endian.
pub open spec fn le_prefix(s: Seq<u8>, k: nat) -> nat
    decreases k,
{
    if k == 0 {
        0
    } else {
        (le_prefix(s, (k - 1) as nat) + s[k - 1] * pow256((k - 1) as nat)) as nat
    }
}

/// The `n` low bytes of `v`, least significant first.
pub open spec fn le_bytes(v: u64, n: nat) -> Seq<u8> {
    Seq::new(n, |i: int| (((v as nat) / pow256(i as nat)) % 256) as u8)
}

proof fn lemma_pow256_pos(k: nat)
    ensures
        pow256(k) > 0,
    decreases k,
{
    if k > 0 {
        lemma_pow256_pos((k - 1) as nat);
    }
}

proof fn lemma_pow256_values()
    ensures
        pow256(1) == 0x100,
        pow256(2) == 0x1_0000,
        pow256(4) == 0x1_0000_0000,
        pow256(7) == 0x100_0000_0000_0000,
        pow256(8) == 0x1_0000_0000_0000_0000,
{
    reveal_with_fuel(pow256, 9);
}

proof fn lemma_le_prefix_bound(s: Seq<u8>, k: nat)
    requires
        k <= s.len(),
    ensures
        le_prefix(s, k) < pow256(k),
    decreases k,
{
    if k > 0 {
        lemma_le_prefix_bound(s, (k - 1) as nat);
        let p = pow256((k - 1) as nat);
        let b = s[k - 1] as int;
        assert(le_prefix(s, (k - 1) as nat) + b * p < 256 * p) by (nonlinear_arith)
            requires
                le_prefix(s, (k - 1) as nat) < p,
                0 <= b <= 255,
        ;
    }
}

/// Writing the low `n` bytes of a value and reading them back gives the
/// value modulo 256^n.
pub proof fn lemma_le_roundtrip(v: u64, n: nat)
    ensures
        le_prefix(le_bytes(v, n), n) == (v as int) % (pow256(n) as int),
    decreases n,
{
    if n == 0 {
    } else {
        lemma_le_roundtrip(v, (n - 1) as nat);
        let p = pow256((n - 1) as nat) as int;
        lemma_pow256_pos((n - 1) as nat);
        assert(le_prefix(le_bytes(v, n), (n - 1) as nat) == le_prefix(
            le_bytes(v, (n - 1) as nat),
            (n - 1) as nat,
        )) by {
            lemma_le_prefix_ext(le_bytes(v, n), le_bytes(v, (n - 1) as nat), (n - 1) as nat);
        }
        vstd::arithmetic::div_mod::lemma_breakdown(v as int, p, 256);
        assert(p * 256 == pow256(n) as int) by (nonlinear_arith)
            requires
                pow256(n) == 256 * pow256((n - 1) as nat),
                p == pow256((n - 1) as nat),
        ;
        assert(le_bytes(v, n)[n - 1] == (((v as nat) / pow256((n - 1) as nat)) % 256) as u8);
        assert(((v as int / p) % 256) * p == p * ((v as int / p) % 256)) by (nonlinear_arith);
    }
}

proof fn lemma_le_prefix_ext(a: Seq<u8>, b: Seq<u8>, k: nat)
    requires
        k <= a.len(),
        k <= b.len(),
        forall|i: int| 0 <= i < k ==> a[i] == b[i],
    ensures
        le_prefix(a, k) == le_prefix(b, k),
    decreases k,
{
    if k > 0 {
        lemma_le_prefix_ext(a, b, (k - 1) as nat);
    }
}

/// Little-endian value of the first `size` (at most 8) bytes of `data`.
pub fn le_value(data: &[u8], size: usize) -> (v: u64)
    requires
        size <= 8,
        size <= data@.len(),
    ensures
        v == le_prefix(data@, size as nat),
{
    let mut value: u64 = 0;
    let mut mult: u64 = 1;
    let mut idx: usize = 0;
    proof {
        lemma_pow256_values();
    }
    while idx < size
        invariant
            idx <= size <= 8,
            size <= data@.len(),
            value == le_prefix(data@, idx as nat),
            idx < 8 ==> mult == pow256(idx as nat),
            idx == 8 ==> mult == 0x100_0000_0000_0000,
            pow256(8) == 0x1_0000_0000_0000_0000,
            pow256(7) == 0x100_0000_0000_0000,
        decreases size - idx,
    {
        proof {
            lemma_le_prefix_bound(data@, idx as nat);
            lemma_pow256_mono(idx as nat, 7);
            let b = data@[idx as int] as int;
            assert(value + b * mult < pow256((idx + 1) as nat)) by (nonlinear_arith)
                requires
                    value < mult,
                    0 <= b <= 255,
                    pow256((idx + 1) as nat) == 256 * mult,
            ;
            lemma_pow256_mono((idx + 1) as nat, 8);
        }
        let byte = data[idx];
        value = value + (byte as u64) * mult;
        if idx + 1 < 8 {
            proof {
                lemma_pow256_mono((idx + 1) as nat, 7);
            }
            mult = mult * 256;
        }
        idx = idx + 1;
    }
    value
}

proof fn lemma_pow256_mono(a: nat, b: nat)
    requires
        a <= b,
    ensures
        pow256(a) <= pow256(b),
    decreases b,
{
    if a < b {
        lemma_pow256_mono(a, (b - 1) as nat);
        lemma_pow256_pos((b - 1) as nat);
    }
}

/// The `size` (at most 8) low bytes of `value`, least significant first.
pub fn to_le_bytes(value: u64, size: usize) -> (data: Vec<u8>)
    requires
        size <= 8,
    ensures
        data@ == le_bytes(value, size as nat),
{
    let mut data: Vec<u8> = Vec::new();
    let mut mult: u64 = 1;
    let mut i: usize = 0;
    proof {
        lemma_pow256_values();
    }
    while i < size
        invariant
            i <= size <= 8,
            data@ == le_bytes(value, i as nat),
            i < 8 ==> mult == pow256(i as nat),
            pow256(7) == 0x100_0000_0000_0000,
        decreases size - i,
    {
        proof {
            lemma_pow256_mono(i as nat, 7);
            lemma_pow256_pos(i as nat);
        }
        let byte = ((value / mult) % 256) as u8;
        data.push(byte);
        assert(data@ =~= le_bytes(value, (i + 1) as nat));
        if i + 1 < 8 {
            proof {
                lemma_pow256_mono((i + 1) as nat, 7);
            }
            mult = mult * 256;
        }
        i = i + 1;
    }
    data
}

// ---------------------------------------------------------------------------
// Port I/O exits
// ---------------------------------------------------------------------------

/// Decoded access-info word of a port-I/O exit.
#[derive(Debug, Clone, Copy, PartialEq, Eq, Structural)]
pub struct IoAccessInfo {
    pub is_write: bool,
    pub size: usize,
    pub string_op: bool,
    pub rep_prefix: bool,
}

pub open spec fn io_access_info_spec(bits: u32) -> IoAccessInfo {
    IoAccessInfo {
        is_write: bits % 2 == 1,
        size: if (bits / 2) % 8 == 0 {
            1usize
        } else {
            ((bits / 2) % 8) as usize
        },
        string_op: (bits / 0x10) % 2 == 1,
        rep_prefix: (bits / 0x20) % 2 == 1,
    }
}

/// The access-info word of a port-I/O exit read bit by bit: bit 0 marks a
/// write, bits 1..3 give the access size (0 standing for 1), bit 4 a
/// string instruction and bit 5 a REP prefix.
pub proof fn lemma_io_access_info_bits(bits: u32)
    ensures
        ({
            let i = io_access_info_spec(bits);
            &&& i.is_write == (bits & 1 != 0)
            &&& i.size == (if (bits >> 1u32) & 7 == 0 { 1usize } else { ((bits >> 1u32) & 7) as usize })
            &&& i.string_op == (bits & 0x10 != 0)
            &&& i.rep_prefix == (bits & 0x20 != 0)
        }),
{
    assert((bits & 1 != 0) == (bits % 2 == 1) && (bits >> 1u32) & 7 == (bits / 2) % 8 && (bits & 0x10
        != 0) == ((bits / 0x10) % 2 == 1) && (bits & 0x20 != 0) == ((bits / 0x20) % 2 == 1))
        by (bit_vector);
}

/// Bit 0: write; bits 1..3: access size (at least 1); bit 4: string
/// instruction; bit 5: REP prefix.
pub fn io_access_info(bits: u32) -> (info: IoAccessInfo)
    ensures
        info == io_access_info_spec(bits),
{
    let raw_size = (bits >> 1u32) & 0x7;
    let is_write = (bits & 1) != 0;
    let string_op = (bits & (1u32 << 4u32)) != 0;
    let rep_prefix = (bits & (1u32 << 5u32)) != 0;
    assert(raw_size == (bits / 2) % 8 && is_write == (bits % 2 == 1) && string_op == ((bits / 0x10)
        % 2 == 1) && rep_prefix == ((bits / 0x20) % 2 == 1)) by (bit_vector)
        requires
            raw_size == (bits >> 1u32) & 0x7,
            is_write == ((bits & 1) != 0),
            string_op == ((bits & (1u32 << 4u32)) != 0),
            rep_prefix == ((bits & (1u32 << 5u32)) != 0),
    ;
    let size: usize = if raw_size == 0 {
        1
    } else {
        raw_size as usize
    };
    IoAccessInfo { is_write, size, string_op, rep_prefix }
}

/// What the vCPU does on a port-I/O exit.
#[derive(Debug, Clone, PartialEq, Eq)]
pub enum IoExitAction {
    /// Unsupported access: stop the vCPU.
    Shutdown,
    /// Let the hypervisor's instruction emulator perform the access.
    Emulate,
    /// Skip the instruction.
    AdvanceRip { next_rip: u64 },
    /// Skip a REP string instruction and clear RCX.
    AdvanceRipClearRcx { next_rip: u64 },
    /// Hand these bytes to the device at `port`.
    Write { port: u16, data: Vec<u8> },
    /// Read `size` bytes from the device at `port`.
    Read { port: u16, size: usize },
}

/// All accesses left pending by exits, completed when the device answers.
#[derive(Debug, Clone, Copy, PartialEq, Eq, Structural)]
pub struct ExitState {
    pub pending_io_read: Option<PendingIoRead>,
    pub pending_io_write: Option<PendingIoWrite>,
    pub pending_mmio_read: Option<PendingMmioRead>,
    pub pending_mmio_write: Option<PendingMmioWrite>,
}

impl ExitState {
    pub fn new() -> (s: Self)
        ensures
            s.pending_io_read.is_none(),
            s.pending_io_write.is_none(),
            s.pending_mmio_read.is_none(),
            s.pending_mmio_write.is_none(),
    {
        ExitState {
            pending_io_read: None,
            pending_io_write: None,
            pending_mmio_read: None,
            pending_mmio_write: None,
        }
    }

    /// Handles a port-I/O exit at `rip` (`instruction_byte_count` 0 means the
    /// hypervisor did not report the length). Simple accesses of unknown
    /// length go to the emulator; string/REP accesses are skipped on the
    /// legacy debug ports and stop the vCPU elsewhere; a write hands the low
    /// `size` bytes of RAX to the device; a read is left pending.
    pub fn handle_io_exit(
        &mut self,
        port: u16,
        access_bits: u32,
        instruction_byte_count: u8,
        instruction_bytes: &[u8; 16],
        rip: u64,
        rax: u64,
    ) -> (action: IoExitAction)
        ensures
            ({
                let info = io_access_info_spec(access_bits);
                let len: u64 = if instruction_byte_count > 0 {
                    instruction_byte_count as u64
                } else {
                    io_instr_len_spec(instruction_bytes@)
                };
                let next_rip = rip_plus(rip, len as int);
                if instruction_byte_count == 0 && !info.string_op && !info.rep_prefix {
                    action == IoExitAction::Emulate && *final(self) == *old(self)
                } else if info.string_op || info.rep_prefix {
                    *final(self) == *old(self) && if string_io_fallback_port(port) {
                        if info.rep_prefix {
                            action == IoExitAction::AdvanceRipClearRcx { next_rip }
                        } else {
                            action == IoExitAction::AdvanceRip { next_rip }
                        }
                    } else {
                        action == IoExitAction::Shutdown
                    }
                } else if info.is_write {
                    (action matches IoExitAction::Write { port: p, data } && p == port && data@
                        == le_bytes(rax, info.size as nat)) && final(self).pending_io_write == Some(PendingIoWrite { port, next_rip })
                        && final(self).pending_io_read == old(self).pending_io_read
                        && final(self).pending_mmio_read == old(self).pending_mmio_read
                        && final(self).pending_mmio_write == old(self).pending_mmio_write
                } else {
                    action == (IoExitAction::Read { port, size: info.size })
                        && final(self).pending_io_read == Some(PendingIoRead { port, size: info.size, next_rip })
                        && final(self).pending_io_write == old(self).pending_io_write
                        && final(self).pending_mmio_read == old(self).pending_mmio_read
                        && final(self).pending_mmio_write == old(self).pending_mmio_write
                }
            }),
    {
        let info = io_access_info(access_bits);
        if info.size > DATA_BUFFER_LEN {
            return IoExitAction::Shutdown;
        }
        if instruction_byte_count == 0 && !info.string_op && !info.rep_prefix {
            return IoExitAction::Emulate;
        }
        let instr_len: u64 = if instruction_byte_count > 0 {
            instruction_byte_count as u64
        } else {
            decode_io_instr_len(instruction_bytes)
        };
        let next_rip = add_rip(rip, instr_len);
        if info.string_op || info.rep_prefix {
            if allow_string_io_fallback(port) {
                if info.rep_prefix {
                    return IoExitAction::AdvanceRipClearRcx { next_rip };
                } else {
                    return IoExitAction::AdvanceRip { next_rip };
                }
            }
            return IoExitAction::Shutdown;
        }
        if info.is_write {
            let data = to_le_bytes(rax, info.size);
            self.pending_io_write = Some(PendingIoWrite { port, next_rip });
            IoExitAction::Write { port, data }
        } else {
            self.pending_io_read = Some(PendingIoRead { port, size: info.size, next_rip });
            IoExitAction::Read { port, size: info.size }
        }
    }

    /// Completes a pending port read with the device's bytes: returns the new
    /// RAX (the read merged into its low `size` bytes) and the RIP to resume at.
    /// The pending read is consumed even when completion fails.
    pub fn complete_io_read(&mut self, data: &[u8], current_rax: u64) -> (r: Result<(u64, u64), ErrorKind>)
        ensures
            final(self).pending_io_read.is_none(),
            final(self).pending_io_write == old(self).pending_io_write,
            final(self).pending_mmio_read == old(self).pending_mmio_read,
            final(self).pending_mmio_write == old(self).pending_mmio_write,
            match old(self).pending_io_read {
                None => r == Err::<(u64, u64), ErrorKind>(ErrorKind::InvalidInput),
                Some(p) => if data@.len() < p.size || !valid_operand_size(p.size) {
                    r == Err::<(u64, u64), ErrorKind>(ErrorKind::InvalidInput)
                } else {
                    r == Ok::<(u64, u64), ErrorKind>(
                        (
                            merge_reg_bits_spec(
                                current_rax,
                                p.size,
                                false,
                                le_prefix(data@, p.size as nat) as u64,
                            ),
                            p.next_rip,
                        ),
                    )
                },
            },
    {
        let pending = match self.pending_io_read {
            Some(p) => p,
            None => {
                return Err(ErrorKind::InvalidInput);
            },
        };
        self.pending_io_read = None;
        if data.len() < pending.size || pending.size > 8 {
            return Err(ErrorKind::InvalidInput);
        }
        let value = le_value(data, pending.size);
        match merge_reg_bits(current_rax, pending.size, false, value) {
            Ok(merged) => Ok((merged, pending.next_rip)),
            Err(e) => Err(e),
        }
    }

    /// Completes a pending port write: returns the RIP to resume at.
    pub fn complete_io_write(&mut self) -> (r: Result<u64, ErrorKind>)
        ensures
            final(self).pending_io_write.is_none(),
            final(self).pending_io_read == old(self).pending_io_read,
            final(self).pending_mmio_read == old(self).pending_mmio_read,
            final(self).pending_mmio_write == old(self).pending_mmio_write,
            match old(self).pending_io_write {
                None => r == Err::<u64, ErrorKind>(ErrorKind::InvalidInput),
                Some(p) => r == Ok::<u64, ErrorKind>(p.next_rip),
            },
    {
        match self.pending_io_write.take() {
            Some(p) => Ok(p.next_rip),
            None => Err(ErrorKind::InvalidInput),
        }
    }

    pub fn clear_pending_io(&mut self)
        ensures
            final(self).pending_io_read.is_none(),
            final(self).pending_io_write.is_none(),
            final(self).pending_mmio_read == old(self).pending_mmio_read,
            final(self).pending_mmio_write == old(self).pending_mmio_write,
    {
        self.pending_io_read = None;
        self.pending_io_write = None;
    }

    pub fn clear_pending_mmio(&mut self)
        ensures
            final(self).pending_mmio_read.is_none(),
            final(self).pending_mmio_write.is_none(),
            final(self).pending_io_read == old(self).pending_io_read,
            final(self).pending_io_write == old(self).pending_io_write,
    {
        self.pending_mmio_read = None;
        self.pending_mmio_write = None;
    }

    /// Handles an MMIO read exit at `gpa` given the decoded instruction: a
    /// prefetch is skipped; a load is left pending (and any pending MMIO write
    /// dropped); anything else stops the vCPU.
    pub fn handle_mmio_read(&mut self, gpa: u64, decoded: Result<DecodedMmioAccess, ErrorKind>) -> (action:
        MmioExitAction)
        ensures
            match decoded {
                Err(_) => action == MmioExitAction::Shutdown && *final(self) == *old(self),
                Ok(d) => if d.size > DATA_BUFFER_LEN {
                    action == MmioExitAction::Shutdown && *final(self) == *old(self)
                } else {
                    match d.kind {
                        MmioAccessKind::Noop => action == (MmioExitAction::AdvanceRip {
                            next_rip: d.next_rip,
                        }) && *final(self) == *old(self),
                        MmioAccessKind::ReadReg { reg_index, high8 } => {
                            &&& action == (MmioExitAction::Read { gpa, size: d.size })
                            &&& final(self).pending_mmio_read == Some(
                                PendingMmioRead {
                                    gpa,
                                    size: d.size,
                                    next_rip: d.next_rip,
                                    reg_index,
                                    high8,
                                    write_full: false,
                                    sign_extend: false,
                                },
                            )
                            &&& final(self).pending_mmio_write.is_none()
                            &&& final(self).pending_io_read == old(self).pending_io_read
                            &&& final(self).pending_io_write == old(self).pending_io_write
                        },
                        MmioAccessKind::ReadRegZeroExtend { reg_index } => {
                            &&& action == (MmioExitAction::Read { gpa, size: d.size })
                            &&& final(self).pending_mmio_read == Some(
                                PendingMmioRead {
                                    gpa,
                                    size: d.size,
                                    next_rip: d.next_rip,
                                    reg_index,
                                    high8: false,
                                    write_full: true,
                                    sign_extend: false,
                                },
                            )
                            &&& final(self).pending_mmio_write.is_none()
                            &&& final(self).pending_io_read == old(self).pending_io_read
                            &&& final(self).pending_io_write == old(self).pending_io_write
                        },
                        MmioAccessKind::ReadRegSignExtend { reg_index } => {
                            &&& action == (MmioExitAction::Read { gpa, size: d.size })
                            &&& final(self).pending_mmio_read == Some(
                                PendingMmioRead {
                                    gpa,
                                    size: d.size,
                                    next_rip: d.next_rip,
                                    reg_index,
                                    high8: false,
                                    write_full: true,
                                    sign_extend: true,
                                },
                            )
                            &&& final(self).pending_mmio_write.is_none()
                            &&& final(self).pending_io_read == old(self).pending_io_read
                            &&& final(self).pending_io_write == old(self).pending_io_write
                        },
                        _ => action == MmioExitAction::Shutdown && *final(self) == *old(self),
                    }
                },
            },
    {
        let d = match decoded {
            Ok(d) => d,
            Err(_) => {
                return MmioExitAction::Shutdown;
            },
        };
        if d.size > DATA_BUFFER_LEN {
            return MmioExitAction::Shutdown;
        }
        let (reg_index, high8, write_full, sign_extend) = match d.kind {
            MmioAccessKind::Noop => {
                return MmioExitAction::AdvanceRip { next_rip: d.next_rip };
            },
            MmioAccessKind::ReadReg { reg_index, high8 } => (reg_index, high8, false, false),
            MmioAccessKind::ReadRegZeroExtend { reg_index } => (reg_index, false, true, false),
            MmioAccessKind::ReadRegSignExtend { reg_index } => (reg_index, false, true, true),
            _ => {
                return MmioExitAction::Shutdown;
            },
        };
        self.pending_mmio_read = Some(
            PendingMmioRead {
                gpa,
                size: d.size,
                next_rip: d.next_rip,
                reg_index,
                high8,
                write_full,
                sign_extend,
            },
        );
        self.pending_mmio_write = None;
        MmioExitAction::Read { gpa, size: d.size }
    }

    /// Handles an MMIO write exit at `gpa` given the decoded instruction and
    /// the current value of the source register it names (ignored for other
    /// kinds): a prefetch is skipped; a store hands the low `size` bytes of
    /// the stored value to the device and is left pending (any pending MMIO
    /// read is dropped); anything else stops the vCPU.
    pub fn handle_mmio_write(
        &mut self,
        gpa: u64,
        decoded: Result<DecodedMmioAccess, ErrorKind>,
        source_register: u64,
    ) -> (action: MmioExitAction)
        ensures
            match decoded {
                Err(_) => action == MmioExitAction::Shutdown && *final(self) == *old(self),
                Ok(d) => if d.size > DATA_BUFFER_LEN {
                    action == MmioExitAction::Shutdown && *final(self) == *old(self)
                } else if !(d.kind is Noop) && !valid_operand_size(d.size) {
                    action == MmioExitAction::Shutdown && *final(self) == *old(self)
                } else {
                    match d.kind {
                        MmioAccessKind::Noop => action == (MmioExitAction::AdvanceRip {
                            next_rip: d.next_rip,
                        }) && *final(self) == *old(self),
                        MmioAccessKind::WriteReg { high8, .. } => {
                            &&& action matches MmioExitAction::Write { gpa: g, data }
                            &&& g == gpa
                            &&& data@ == le_bytes(reg_bits_spec(source_register, d.size, high8), d.size as nat)
                            &&& final(self).pending_mmio_write == Some(
                                PendingMmioWrite { gpa, next_rip: d.next_rip },
                            )
                            &&& final(self).pending_mmio_read.is_none()
                            &&& final(self).pending_io_read == old(self).pending_io_read
                            &&& final(self).pending_io_write == old(self).pending_io_write
                        },
                        MmioAccessKind::WriteImm { value } => {
                            &&& action matches MmioExitAction::Write { gpa: g, data }
                            &&& g == gpa
                            &&& data@ == le_bytes(reg_bits_spec(value, d.size, false), d.size as nat)
                            &&& final(self).pending_mmio_write == Some(
                                PendingMmioWrite { gpa, next_rip: d.next_rip },
                            )
                            &&& final(self).pending_mmio_read.is_none()
                            &&& final(self).pending_io_read == old(self).pending_io_read
                            &&& final(self).pending_io_write == old(self).pending_io_write
                        },
                        _ => action == MmioExitAction::Shutdown && *final(self) == *old(self),
                    }
                },
            },
    {
        let d = match decoded {
            Ok(d) => d,
            Err(_) => {
                return MmioExitAction::Shutdown;
            },
        };
        if d.size > DATA_BUFFER_LEN {
            return MmioExitAction::Shutdown;
        }
        let write_value = match d.kind {
            MmioAccessKind::Noop => {
                return MmioExitAction::AdvanceRip { next_rip: d.next_rip };
            },
            MmioAccessKind::WriteReg { high8, .. } => match reg_bits(source_register, d.size, high8) {
                Ok(v) => v,
                Err(_) => {
                    return MmioExitAction::Shutdown;
                },
            },
            MmioAccessKind::WriteImm { value } => match reg_bits(value, d.size, false) {
                Ok(v) => v,
                Err(_) => {
                    return MmioExitAction::Shutdown;
                },
            },
            _ => {
                return MmioExitAction::Shutdown;
            },
        };
        let data = to_le_bytes(write_value, d.size);
        self.pending_mmio_write = Some(PendingMmioWrite { gpa, next_rip: d.next_rip });
        self.pending_mmio_read = None;
        MmioExitAction::Write { gpa, data }
    }

    /// Completes a pending MMIO read with the device's bytes: returns the
    /// register to write, its new value and the RIP to resume at. Zero- and
    /// sign-extending loads replace the full register; other loads merge into
    /// the register slice (`current_register` is its value before the load).
    /// The pending read is consumed even when completion fails.
    pub fn complete_mmio_read(&mut self, data: &[u8], current_register: u64) -> (r: Result<
        (u8, u64, u64),
        ErrorKind,
    >)
        ensures
            final(self).pending_mmio_read.is_none(),
            final(self).pending_mmio_write == old(self).pending_mmio_write,
            final(self).pending_io_read == old(self).pending_io_read,
            final(self).pending_io_write == old(self).pending_io_write,
            match old(self).pending_mmio_read {
                None => r == Err::<(u8, u64, u64), ErrorKind>(ErrorKind::InvalidInput),
                Some(p) => if data@.len() < p.size || p.size > 8 {
                    r == Err::<(u8, u64, u64), ErrorKind>(ErrorKind::InvalidInput)
                } else {
                    match mmio_load_spec(p, le_prefix(data@, p.size as nat) as u64, current_register) {
                        Err(e) => r == Err::<(u8, u64, u64), ErrorKind>(e),
                        Ok(v) => if p.reg_index > 15 {
                            r == Err::<(u8, u64, u64), ErrorKind>(ErrorKind::InvalidInput)
                        } else {
                            r == Ok::<(u8, u64, u64), ErrorKind>((p.reg_index, v, p.next_rip))
                        },
                    }
                },
            },
    {
        let pending = match self.pending_mmio_read {
            Some(p) => p,
            None => {
                return Err(ErrorKind::InvalidInput);
            },
        };
        self.pending_mmio_read = None;
        if data.len() < pending.size || pending.size > 8 {
            return Err(ErrorKind::InvalidInput);
        }
        let value = le_value(data, pending.size);
        let merged = if pending.write_full {
            if pending.sign_extend {
                match sign_extend(value, pending.size) {
                    Ok(v) => v,
                    Err(e) => {
                        return Err(e);
                    },
                }
            } else {
                value
            }
        } else {
            match merge_reg_bits(current_register, pending.size, pending.high8, value) {
                Ok(v) => v,
                Err(e) => {
                    return Err(e);
                },
            }
        };
        if pending.reg_index > 15 {
            return Err(ErrorKind::InvalidInput);
        }
        Ok((pending.reg_index, merged, pending.next_rip))
    }

    /// Completes a pending MMIO write: returns the RIP to resume at.
    pub fn complete_mmio_write(&mut self) -> (r: Result<u64, ErrorKind>)
        ensures
            final(self).pending_mmio_write.is_none(),
            final(self).pending_mmio_read == old(self).pending_mmio_read,
            final(self).pending_io_read == old(self).pending_io_read,
            final(self).pending_io_write == old(self).pending_io_write,
            match old(self).pending_mmio_write {
                None => r == Err::<u64, ErrorKind>(ErrorKind::InvalidInput),
                Some(p) => r == Ok::<u64, ErrorKind>(p.next_rip),
            },
    {
        match self.pending_mmio_write.take() {
            Some(p) => Ok(p.next_rip),
            None => Err(ErrorKind::InvalidInput),
        }
    }
}

/// What the vCPU does on an MMIO exit.
#[derive(Debug, Clone, PartialEq, Eq)]
pub enum MmioExitAction {
    Shutdown,
    AdvanceRip { next_rip: u64 },
    Read { gpa: u64, size: usize },
    Write { gpa: u64, data: Vec<u8> },
}

/// `value` (the low `size` bytes) read as signed and widened to 64 bits.
pub open spec fn sign_extend_spec(value: u64, size: usize) -> u64 {
    if size == 1 {
        if value % 0x100 >= 0x80 {
            (value % 0x100 + 0xFFFF_FFFF_FFFF_FF00) as u64
        } else {
            (value % 0x100) as u64
        }
    } else if size == 2 {
        if value % 0x1_0000 >= 0x8000 {
            (value % 0x1_0000 + 0xFFFF_FFFF_FFFF_0000) as u64
        } else {
            (value % 0x1_0000) as u64
        }
    } else if size == 4 {
        if value % 0x1_0000_0000 >= 0x8000_0000 {
            (value % 0x1_0000_0000 + 0xFFFF_FFFF_0000_0000) as u64
        } else {
            (value % 0x1_0000_0000) as u64
        }
    } else {
        value
    }
}

/// Sign extension keeps the low `size` bytes and fills every byte above
/// them with copies of their top bit: for sizes 1, 2 and 4 the result agrees
/// with `value` modulo 2^(8 size), and its high part is all ones when bit
/// 8 size - 1 of `value` is set and zero otherwise; size 8 keeps `value`.
pub proof fn lemma_sign_extend_twos_complement(value: u64)
    ensures
        sign_extend_spec(value, 1) % 0x100 == value % 0x100,
        sign_extend_spec(value, 1) / 0x100 == (if (value / 0x80) % 2 == 1 {
            0xFF_FFFF_FFFF_FFFFint
        } else {
            0int
        }),
        sign_extend_spec(value, 2) % 0x1_0000 == value % 0x1_0000,
        sign_extend_spec(value, 2) / 0x1_0000 == (if (value / 0x8000) % 2 == 1 {
            0xFFFF_FFFF_FFFFint
        } else {
            0int
        }),
        sign_extend_spec(value, 4) % 0x1_0000_0000 == value % 0x1_0000_0000,
        sign_extend_spec(value, 4) / 0x1_0000_0000 == (if (value / 0x8000_0000) % 2 == 1 {
            0xFFFF_FFFFint
        } else {
            0int
        }),
        sign_extend_spec(value, 8) == value,
{
}

pub fn sign_extend(value: u64, size: usize) -> (r: Result<u64, ErrorKind>)
    ensures
        valid_operand_size(size) ==> r == Ok::<u64, ErrorKind>(sign_extend_spec(value, size)),
        !valid_operand_size(size) ==> r == Err::<u64, ErrorKind>(ErrorKind::InvalidInput),
{
    if size == 1 {
        let low = value % 0x100;
        Ok(
            if low >= 0x80 {
                low + 0xFFFF_FFFF_FFFF_FF00
            } else {
                low
            },
        )
    } else if size == 2 {
        let low = value % 0x1_0000;
        Ok(
            if low >= 0x8000 {
                low + 0xFFFF_FFFF_FFFF_0000
            } else {
                low
            },
        )
    } else if size == 4 {
        let low = value % 0x1_0000_0000;
        Ok(
            if low >= 0x8000_0000 {
                low + 0xFFFF_FFFF_0000_0000
            } else {
                low
            },
        )
    } else if size == 8 {
        Ok(value)
    } else {
        Err(ErrorKind::InvalidInput)
    }
}

/// What a completed MMIO load puts in the register: a zero-extending load
/// the loaded value itself; a sign-extending load its low `size` bytes with
/// every higher byte a copy of their top bit; any other load only the
/// register slice it names, leaving the rest of the register as it was.
pub proof fn lemma_mmio_load_extension(p: PendingMmioRead, value: u64, current: u64)
    requires
        valid_operand_size(p.size),
    ensures
        p.write_full && !p.sign_extend ==> mmio_load_spec(p, value, current) == Ok::<u64, ErrorKind>(value),
        p.write_full && p.sign_extend && p.size == 1 ==> (mmio_load_spec(p, value, current) matches Ok(r)
            && r % 0x100 == value % 0x100 && r / 0x100 == (if (value / 0x80) % 2 == 1 {
            0xFF_FFFF_FFFF_FFFFint
        } else {
            0int
        })),
        p.write_full && p.sign_extend && p.size == 2 ==> (mmio_load_spec(p, value, current) matches Ok(r)
            && r % 0x1_0000 == value % 0x1_0000 && r / 0x1_0000 == (if (value / 0x8000) % 2 == 1 {
            0xFFFF_FFFF_FFFFint
        } else {
            0int
        })),
        p.write_full && p.sign_extend && p.size == 4 ==> (mmio_load_spec(p, value, current) matches Ok(r)
            && r % 0x1_0000_0000 == value % 0x1_0000_0000 && r / 0x1_0000_0000 == (if (value
            / 0x8000_0000) % 2 == 1 {
            0xFFFF_FFFFint
        } else {
            0int
        })),
        !p.write_full && p.size == 1 && !p.high8 ==> (mmio_load_spec(p, value, current) matches Ok(r)
            && r % 0x100 == value % 0x100 && r / 0x100 == current / 0x100),
        !p.write_full && p.size == 2 ==> (mmio_load_spec(p, value, current) matches Ok(r) && r
            % 0x1_0000 == value % 0x1_0000 && r / 0x1_0000 == current / 0x1_0000),
{
    lemma_sign_extend_twos_complement(value);
    crate::decode::lemma_merge_writes_slice(current, p.size, p.high8, value);
}

/// The register value an MMIO load of `value` leaves behind: the sign- or
/// zero-extended value for full-register loads, else `value` merged into the
/// register slice of `current`.
pub open spec fn mmio_load_spec(p: PendingMmioRead, value: u64, current: u64) -> Result<u64, ErrorKind> {
    if p.write_full {
        if p.sign_extend {
            if valid_operand_size(p.size) {
                Ok(sign_extend_spec(value, p.size))
            } else {
                Err(ErrorKind::InvalidInput)
            }
        } else {
            Ok(value)
        }
    } else if valid_operand_size(p.size) {
        Ok(merge_reg_bits_spec(current, p.size, p.high8, value))
    } else {
        Err(ErrorKind::InvalidInput)
    }
}

fn add_rip(rip: u64, len: u64) -> (r: u64)
    ensures
        r == rip_plus(rip, len as int),
{
    proof {
        let m: int = 0x1_0000_0000_0000_0000;
        let t: int = rip + len;
        if t > u64::MAX {
            assert(t % m == t - m) by (nonlinear_arith)
                requires
                    m <= t < 2 * m,
                    m == 0x1_0000_0000_0000_0000int,
            ;
        } else {
            assert(t % m == t) by (nonlinear_arith)
                requires
                    0 <= t < m,
            ;
        }
    }
    rip.wrapping_add(len)
}

/// Guest physical address of an instruction in the higher-half kernel
/// mapping; `None` for other addresses, which need a page-table walk.
pub fn kernel_rip_to_gpa(rip: u64) -> (gpa: Option<u64>)
    ensures
        rip >= KERNEL_HIGH_HALF_BASE ==> gpa == Some((rip - KERNEL_HIGH_HALF_BASE) as u64),
        rip < KERNEL_HIGH_HALF_BASE ==> gpa.is_none(),
{
    if rip >= KERNEL_HIGH_HALF_BASE {
        Some(rip - KERNEL_HIGH_HALF_BASE)
    } else {
        None
    }
}

/// Number of leading zero bytes (alignment padding) before an instruction
/// fetched from guest memory.
pub fn leading_zero_bytes(buf: &[u8]) -> (n: usize)
    ensures
        n <= buf@.len(),
        forall|i: int| 0 <= i < n ==> buf@[i] == 0,
        n < buf@.len() ==> buf@[n as int] != 0,
{
    let mut n: usize = 0;
    while n < buf.len() && buf[n] == 0
        invariant
            n <= buf@.len(),
            forall|i: int| 0 <= i < n ==> buf@[i] == 0,
        decreases buf@.len() - n,
    {
        n = n + 1;
    }
    n
}

/// Whether the instruction bytes reported with an MMIO exit can be used: a
/// nonzero length whose first byte is not zero; otherwise they are fetched
/// from guest memory.
pub fn exit_instruction_bytes_usable(instruction_len: usize, first_byte: u8) -> (b: bool)
    ensures
        b == (instruction_len > 0 && first_byte != 0),
{
    instruction_len > 0 && first_byte != 0
}

/// The data an MMIO store hands to the device, read back by a device-side
/// load of the same width, is the stored register slice.
pub proof fn lemma_store_then_load(value: u64, size: usize, high8: bool)
    requires
        valid_operand_size(size),
    ensures
        le_prefix(le_bytes(reg_bits_spec(value, size, high8), size as nat), size as nat)
            == reg_bits_spec(value, size, high8),
{
    let v = reg_bits_spec(value, size, high8);
    lemma_le_roundtrip(v, size as nat);
    lemma_pow256_values();
    if size == 1 {
        assert((v as int) % 0x100int == v as int);
    } else if size == 2 {
        assert((v as int) % 0x1_0000int == v as int);
    } else if size == 4 {
        assert((v as int) % 0x1_0000_0000int == v as int);
    } else {
        assert((v as int) % 0x1_0000_0000_0000_0000int == v as int);
    }
}

} // verus!
