//! x86-64 instruction decoding for the exits that WHPX reports: the
//! memory-access instruction behind an MMIO exit, the length of an I/O port
//! instruction, and the register slices that such accesses read and write.

use vstd::prelude::*;

verus! {

/// Why an instruction or operand could not be handled.
#[derive(Debug, Clone, Copy, PartialEq, Eq, Structural)]
pub enum ErrorKind {
    /// The bytes end before the instruction does, or an index overflows.
    InvalidData,
    /// A well-formed encoding that is not an MMIO access this decoder handles.
    Unsupported,
    /// An argument outside the accepted range (operand size, register index).
    InvalidInput,
}

/// What an MMIO-faulting instruction does with the accessed memory.
#[derive(Debug, Clone, Copy, PartialEq, Eq, Structural)]
pub enum MmioAccessKind {
    /// A prefetch hint: no architectural effect beyond advancing RIP.
    Noop,
    /// Load into a general-purpose register slice (`high8` selects AH..BH).
    ReadReg { reg_index: u8, high8: bool },
    /// Load with zero extension into the full register.
    ReadRegZeroExtend { reg_index: u8 },
    /// Load with sign extension into the full register.
    ReadRegSignExtend { reg_index: u8 },
    /// Store from a general-purpose register slice.
    WriteReg { reg_index: u8, high8: bool },
    /// Store of an immediate operand.
    WriteImm { value: u64 },
}

/// A decoded MMIO access: its kind, the RIP after the instruction, and the access width.
#[derive(Debug, Clone, Copy, PartialEq, Eq, Structural)]
pub struct DecodedMmioAccess {
    pub kind: MmioAccessKind,
    pub next_rip: u64,
    pub size: usize,
}

// ---------------------------------------------------------------------------
// Specifications
// ---------------------------------------------------------------------------

/// Legacy prefixes: operand/address size, LOCK, REP variants, segment overrides.
pub open spec fn is_legacy_prefix_byte(b: u8) -> bool {
    b == 0x66 || b == 0x67 || b == 0xF0 || b == 0xF2 || b == 0xF3 || b == 0x2E || b == 0x36
        || b == 0x3E || b == 0x26 || b == 0x64 || b == 0x65
}

/// REX prefixes of 64-bit mode.
pub open spec fn is_rex_byte(b: u8) -> bool {
    0x40 <= b <= 0x4f
}

pub open spec fn is_prefix_byte(b: u8) -> bool {
    is_legacy_prefix_byte(b) || is_rex_byte(b)
}

/// Index of the first byte at or after `i` that is not a prefix.
pub open spec fn prefix_end(s: Seq<u8>, i: int) -> int
    decreases s.len() - i,
{
    if 0 <= i < s.len() && is_prefix_byte(s[i]) {
        prefix_end(s, i + 1)
    } else {
        i
    }
}

/// The last REX prefix among the prefix bytes from `i` on (`rex` if there is none).
pub open spec fn last_rex(s: Seq<u8>, i: int, rex: u8) -> u8
    decreases s.len() - i,
{
    if 0 <= i < s.len() && is_prefix_byte(s[i]) {
        last_rex(s, i + 1, if is_rex_byte(s[i]) { s[i] } else { rex })
    } else {
        rex
    }
}

/// Whether an operand-size override (0x66) occurs among the prefix bytes from `i` on.
pub open spec fn has_opsize_prefix(s: Seq<u8>, i: int, seen: bool) -> bool
    decreases s.len() - i,
{
    if 0 <= i < s.len() && is_prefix_byte(s[i]) {
        has_opsize_prefix(s, i + 1, seen || s[i] == 0x66)
    } else {
        seen
    }
}

/// Operand size of the full-width forms: 8 with REX.W, 2 with 0x66, else 4.
pub open spec fn operand_size_spec(rex: u8, opsize_override: bool) -> usize {
    if (rex / 8) % 2 == 1 {
        8
    } else if opsize_override {
        2
    } else {
        4
    }
}

/// `rip + len` modulo 2^64.
pub open spec fn rip_plus(rip: u64, len: int) -> u64 {
    ((rip + len) % 0x1_0000_0000_0000_0000) as u64
}

pub open spec fn checked_index(v: int) -> Result<int, ErrorKind> {
    if v <= usize::MAX {
        Ok(v)
    } else {
        Err(ErrorKind::InvalidData)
    }
}

/// Index just past the memory operand addressed by `modrm`, whose SIB byte
/// (if any) and displacement start at `idx`.
pub open spec fn skip_modrm_spec(s: Seq<u8>, idx: int, modrm: u8) -> Result<int, ErrorKind> {
    let md = modrm / 64;
    let rm = modrm % 8;
    if md == 3 {
        Err(ErrorKind::Unsupported)
    } else {
        let after_sib = if rm == 4 {
            if idx < 0 || idx >= s.len() {
                Err(ErrorKind::InvalidData)
            } else if md == 0 && s[idx] % 8 == 5 {
                checked_index(idx + 1 + 4)
            } else {
                Ok(idx + 1)
            }
        } else {
            Ok(idx)
        };
        match after_sib {
            Err(e) => Err(e),
            Ok(i) => if md == 0 && rm == 5 {
                checked_index(i + 4)
            } else if md == 1 {
                checked_index(i + 1)
            } else if md == 2 {
                checked_index(i + 4)
            } else {
                Ok(i)
            },
        }
    }
}

pub open spec fn reg_field(modrm: u8) -> u8 {
    ((modrm / 8) % 8) as u8
}

pub open spec fn rex_r(rex: u8) -> u8 {
    ((rex / 4) % 2) as u8
}

pub open spec fn extended_reg(modrm: u8, rex: u8) -> u8 {
    (reg_field(modrm) + 8 * rex_r(rex)) as u8
}

/// Byte registers AH, CH, DH, BH: reg field 4..7 of a byte operand without REX.
pub open spec fn is_high8(operand_size: usize, rex: u8, modrm: u8) -> bool {
    operand_size == 1 && rex == 0 && 4 <= reg_field(modrm) <= 7
}

pub open spec fn byte_reg_index(operand_size: usize, rex: u8, modrm: u8) -> u8 {
    if is_high8(operand_size, rex, modrm) {
        (reg_field(modrm) - 4) as u8
    } else {
        extended_reg(modrm, rex)
    }
}

pub open spec fn le_u16(b0: u8, b1: u8) -> u64 {
    (b0 + 256 * b1) as u64
}

pub open spec fn le_u32(b0: u8, b1: u8, b2: u8, b3: u8) -> u32 {
    (b0 + 0x100 * b1 + 0x1_0000 * b2 + 0x100_0000 * b3) as u32
}

/// `raw` read as a signed 32-bit value and widened to 64 bits.
pub open spec fn sign_extend_32(raw: u32) -> u64 {
    if raw >= 0x8000_0000 {
        (raw + 0xFFFF_FFFF_0000_0000) as u64
    } else {
        raw as u64
    }
}

/// Two-byte opcodes (0x0F xx): prefetch hints and MOVZX/MOVSX loads.
pub open spec fn decode_two_byte_spec(rip: u64, s: Seq<u8>, idx: int, rex: u8, is_write: bool)
    -> Result<DecodedMmioAccess, ErrorKind> {
    if idx >= s.len() || idx + 1 >= s.len() {
        Err(ErrorKind::InvalidData)
    } else {
        let opcode2 = s[idx];
        let modrm = s[idx + 1];
        let reg_index = extended_reg(modrm, rex);
        match skip_modrm_spec(s, idx + 2, modrm) {
            Err(e) => Err(e),
            Ok(end) => {
                let next_rip = rip_plus(rip, end);
                if opcode2 == 0x0d || opcode2 == 0x18 || opcode2 == 0x1f {
                    Ok(DecodedMmioAccess { kind: MmioAccessKind::Noop, next_rip, size: 1 })
                } else if opcode2 == 0xb6 && !is_write {
                    Ok(DecodedMmioAccess { kind: MmioAccessKind::ReadRegZeroExtend { reg_index }, next_rip, size: 1 })
                } else if opcode2 == 0xb7 && !is_write {
                    Ok(DecodedMmioAccess { kind: MmioAccessKind::ReadRegZeroExtend { reg_index }, next_rip, size: 2 })
                } else if opcode2 == 0xbe && !is_write {
                    Ok(DecodedMmioAccess { kind: MmioAccessKind::ReadRegSignExtend { reg_index }, next_rip, size: 1 })
                } else if opcode2 == 0xbf && !is_write {
                    Ok(DecodedMmioAccess { kind: MmioAccessKind::ReadRegSignExtend { reg_index }, next_rip, size: 2 })
                } else {
                    Err(ErrorKind::Unsupported)
                }
            },
        }
    }
}

/// MOV between AL/AX/EAX/RAX and a memory offset (0xA0..0xA3); the whole
/// byte buffer is taken as the instruction.
pub open spec fn decode_moffs_spec(
    rip: u64,
    s: Seq<u8>,
    opcode: u8,
    rex: u8,
    opsize: bool,
    is_write: bool,
) -> Result<DecodedMmioAccess, ErrorKind> {
    let next_rip = rip_plus(rip, s.len() as int);
    let size = if opcode == 0xa0 || opcode == 0xa2 {
        1usize
    } else {
        operand_size_spec(rex, opsize)
    };
    if (opcode == 0xa0 || opcode == 0xa1) && !is_write {
        Ok(DecodedMmioAccess { kind: MmioAccessKind::ReadReg { reg_index: 0, high8: false }, next_rip, size })
    } else if (opcode == 0xa2 || opcode == 0xa3) && is_write {
        Ok(DecodedMmioAccess { kind: MmioAccessKind::WriteReg { reg_index: 0, high8: false }, next_rip, size })
    } else {
        Err(ErrorKind::Unsupported)
    }
}

pub open spec fn is_modrm_opcode(opcode: u8) -> bool {
    opcode == 0x8a || opcode == 0x8b || opcode == 0x88 || opcode == 0x89 || opcode == 0x63
        || opcode == 0xc6 || opcode == 0xc7
}

pub open spec fn modrm_operand_size(opcode: u8, rex: u8, opsize: bool) -> usize {
    if opcode == 0x8a || opcode == 0x88 || opcode == 0xc6 {
        1
    } else if opcode == 0x63 {
        4
    } else {
        operand_size_spec(rex, opsize)
    }
}

/// Immediate length of the C7 form: 2 bytes with a 16-bit operand, else 4.
pub open spec fn c7_imm_len(operand_size: usize) -> int {
    if operand_size == 2 {
        2
    } else {
        4
    }
}

/// The immediate of the C7 form at `imm_idx` (zero-extended imm16 or imm32,
/// sign-extended imm32 with a 64-bit operand).
pub open spec fn c7_imm_value(s: Seq<u8>, imm_idx: int, operand_size: usize) -> u64 {
    if operand_size == 2 {
        le_u16(s[imm_idx], s[imm_idx + 1])
    } else {
        let raw = le_u32(s[imm_idx], s[imm_idx + 1], s[imm_idx + 2], s[imm_idx + 3]);
        if operand_size == 8 {
            sign_extend_32(raw)
        } else {
            raw as u64
        }
    }
}

/// MOV forms with a ModRM memory operand: 8A/8B loads, 88/89 stores,
/// 63 (MOVSXD) and C6/C7 immediate stores (ModRM.reg must be 0).
pub open spec fn decode_modrm_spec(
    rip: u64,
    s: Seq<u8>,
    idx: int,
    opcode: u8,
    rex: u8,
    opsize: bool,
    is_write: bool,
) -> Result<DecodedMmioAccess, ErrorKind> {
    if idx >= s.len() {
        Err(ErrorKind::InvalidData)
    } else {
        let modrm = s[idx];
        let i = idx + 1;
        let size = modrm_operand_size(opcode, rex, opsize);
        let reg_base = reg_field(modrm);
        let skipped = skip_modrm_spec(s, i, modrm);
        if (opcode == 0x8a || opcode == 0x8b) && !is_write {
            match skipped {
                Err(e) => Err(e),
                Ok(end) => Ok(DecodedMmioAccess {
                    kind: MmioAccessKind::ReadReg {
                        reg_index: byte_reg_index(size, rex, modrm),
                        high8: is_high8(size, rex, modrm),
                    },
                    next_rip: rip_plus(rip, end),
                    size,
                }),
            }
        } else if opcode == 0x63 && !is_write {
            match skipped {
                Err(e) => Err(e),
                Ok(end) => Ok(DecodedMmioAccess {
                    kind: MmioAccessKind::ReadRegSignExtend { reg_index: extended_reg(modrm, rex) },
                    next_rip: rip_plus(rip, end),
                    size,
                }),
            }
        } else if (opcode == 0x88 || opcode == 0x89) && is_write {
            match skipped {
                Err(e) => Err(e),
                Ok(end) => Ok(DecodedMmioAccess {
                    kind: MmioAccessKind::WriteReg {
                        reg_index: byte_reg_index(size, rex, modrm),
                        high8: is_high8(size, rex, modrm),
                    },
                    next_rip: rip_plus(rip, end),
                    size,
                }),
            }
        } else if opcode == 0xc6 && is_write {
            if reg_base != 0 {
                Err(ErrorKind::Unsupported)
            } else {
                match skipped {
                    Err(e) => Err(e),
                    Ok(imm_idx) => if imm_idx >= s.len() {
                        Err(ErrorKind::InvalidData)
                    } else {
                        Ok(DecodedMmioAccess {
                            kind: MmioAccessKind::WriteImm { value: s[imm_idx] as u64 },
                            next_rip: rip_plus(rip, imm_idx + 1),
                            size,
                        })
                    },
                }
            }
        } else if opcode == 0xc7 && is_write {
            if reg_base != 0 {
                Err(ErrorKind::Unsupported)
            } else {
                match skipped {
                    Err(e) => Err(e),
                    Ok(imm_idx) => if imm_idx + c7_imm_len(size) > s.len() {
                        Err(ErrorKind::InvalidData)
                    } else {
                        Ok(DecodedMmioAccess {
                            kind: MmioAccessKind::WriteImm { value: c7_imm_value(s, imm_idx, size) },
                            next_rip: rip_plus(rip, imm_idx + c7_imm_len(size)),
                            size,
                        })
                    },
                }
            }
        } else {
            Err(ErrorKind::Unsupported)
        }
    }
}

/// The meaning of an MMIO-faulting instruction at `rip`, given its bytes.
pub open spec fn decode_spec(rip: u64, s: Seq<u8>, is_write: bool) -> Result<DecodedMmioAccess, ErrorKind> {
    let p = prefix_end(s, 0);
    let rex = last_rex(s, 0, 0);
    let opsize = has_opsize_prefix(s, 0, false);
    if p >= s.len() {
        Err(ErrorKind::InvalidData)
    } else {
        let opcode = s[p];
        if opcode == 0x0f {
            decode_two_byte_spec(rip, s, p + 1, rex, is_write)
        } else if 0xa0 <= opcode <= 0xa3 {
            decode_moffs_spec(rip, s, opcode, rex, opsize, is_write)
        } else if !is_modrm_opcode(opcode) {
            Err(ErrorKind::Unsupported)
        } else {
            decode_modrm_spec(rip, s, p + 1, opcode, rex, opsize, is_write)
        }
    }
}

// ---------------------------------------------------------------------------
// Executable decoding
// ---------------------------------------------------------------------------

/// Whether `byte` is a legacy (non-REX) instruction prefix.
pub fn is_legacy_prefix(byte: u8) -> (r: bool)
    ensures
        r == is_legacy_prefix_byte(byte),
{
    byte == 0x66 || byte == 0x67 || byte == 0xF0 || byte == 0xF2 || byte == 0xF3 || byte == 0x2E
        || byte == 0x36 || byte == 0x3E || byte == 0x26 || byte == 0x64 || byte == 0x65
}

/// Prefixes that `decode_io_instr_len` skips (same set as `is_prefix_byte`).
pub open spec fn is_io_prefix_byte(b: u8) -> bool {
    b == 0x26 || b == 0x2E || b == 0x36 || b == 0x3E || b == 0x64 || b == 0x65 || b == 0x66
        || b == 0x67 || b == 0xF0 || b == 0xF2 || b == 0xF3 || (0x40 <= b <= 0x4F)
}

/// Number of leading prefix bytes among the first 15 bytes of an I/O instruction.
pub open spec fn io_prefix_count(s: Seq<u8>, i: int) -> int
    decreases 15 - i,
{
    if 0 <= i < 15 && i < s.len() && is_io_prefix_byte(s[i]) {
        io_prefix_count(s, i + 1)
    } else {
        i
    }
}

/// Length of an I/O port instruction: its prefixes (at most 15) plus the
/// opcode, plus an imm8 port operand for IN/OUT imm8 (0xE4..0xE7).
pub open spec fn io_instr_len_spec(s: Seq<u8>) -> u64 {
    let skip = io_prefix_count(s, 0);
    (skip + if 0xE4 <= s[skip] <= 0xE7 { 2int } else { 1int }) as u64
}

/// Decodes the byte length of an x86 I/O port instruction from its raw bytes,
/// for the exits where WHPX reports an instruction length of 0.
pub fn decode_io_instr_len(instr_bytes: &[u8; 16]) -> (len: u64)
    ensures
        len == io_instr_len_spec(instr_bytes@),
        1 <= len <= 17,
{
    let mut skip: usize = 0;
    while skip < 15
        invariant
            skip <= 15,
            instr_bytes@.len() == 16,
            io_prefix_count(instr_bytes@, skip as int) == io_prefix_count(instr_bytes@, 0),
        ensures
            skip <= 15,
            skip == io_prefix_count(instr_bytes@, 0),
        decreases 15 - skip,
    {
        let b = instr_bytes[skip];
        if b == 0x26 || b == 0x2E || b == 0x36 || b == 0x3E || b == 0x64 || b == 0x65 || b == 0x66
            || b == 0x67 || b == 0xF0 || b == 0xF2 || b == 0xF3 || (0x40 <= b && b <= 0x4F) {
            skip = skip + 1;
        } else {
            break;
        }
    }
    let op = instr_bytes[skip];
    let extra: usize = if 0xE4 <= op && op <= 0xE7 {
        2
    } else {
        1
    };
    (skip + extra) as u64
}

/// Legacy debug/console ports on which string I/O may be dropped: COM1..COM4,
/// the POST port 0x80, the Bochs port 0xE9 and the QEMU debug port 0x402.
pub open spec fn string_io_fallback_port(port: u16) -> bool {
    (0x3F8 <= port <= 0x3FF) || (0x2F8 <= port <= 0x2FF) || (0x3E8 <= port <= 0x3EF) || (0x2E8
        <= port <= 0x2EF) || port == 0x80 || port == 0xE9 || port == 0x402
}

pub fn allow_string_io_fallback(port: u16) -> (r: bool)
    ensures
        r == string_io_fallback_port(port),
{
    (0x3F8 <= port && port <= 0x3FF) || (0x2F8 <= port && port <= 0x2FF) || (0x3E8 <= port && port
        <= 0x3EF) || (0x2E8 <= port && port <= 0x2EF) || port == 0x80 || port == 0xE9 || port
        == 0x402
}

/// The hypervisor register name of general-purpose register `index`
/// (RAX = 0 .. R15 = 15); other indices are refused.
pub fn gpr_name(index: u8) -> (r: Result<i32, ErrorKind>)
    ensures
        index <= 15 ==> r == Ok::<i32, ErrorKind>(index as i32),
        index > 15 ==> r == Err::<i32, ErrorKind>(ErrorKind::InvalidInput),
{
    if index <= 15 {
        Ok(index as i32)
    } else {
        Err(ErrorKind::InvalidInput)
    }
}

pub open spec fn valid_operand_size(size: usize) -> bool {
    size == 1 || size == 2 || size == 4 || size == 8
}

/// The `size`-byte slice of a register value (bits 8..15 when `high8`).
pub open spec fn reg_bits_spec(value: u64, size: usize, high8: bool) -> u64 {
    if size == 1 && high8 {
        ((value / 0x100) % 0x100) as u64
    } else if size == 1 {
        (value % 0x100) as u64
    } else if size == 2 {
        (value % 0x1_0000) as u64
    } else if size == 4 {
        (value % 0x1_0000_0000) as u64
    } else {
        value
    }
}

/// `current` with its `size`-byte slice replaced by the low bytes of `value`.
/// A 4-byte write zero-extends into the full register, as on x86-64.
pub open spec fn merge_reg_bits_spec(current: u64, size: usize, high8: bool, value: u64) -> u64 {
    if size == 1 && high8 {
        (current - ((current / 0x100) % 0x100) * 0x100 + (value % 0x100) * 0x100) as u64
    } else if size == 1 {
        (current - current % 0x100 + value % 0x100) as u64
    } else if size == 2 {
        (current - current % 0x1_0000 + value % 0x1_0000) as u64
    } else if size == 4 {
        (value % 0x1_0000_0000) as u64
    } else {
        value
    }
}

pub fn reg_bits(value: u64, size: usize, high8: bool) -> (r: Result<u64, ErrorKind>)
    ensures
        valid_operand_size(size) ==> r == Ok::<u64, ErrorKind>(reg_bits_spec(value, size, high8)),
        !valid_operand_size(size) ==> r == Err::<u64, ErrorKind>(ErrorKind::InvalidInput),
{
    if size == 1 && high8 {
        let out = (value >> 8u64) & 0xff;
        assert(out == (value / 0x100) % 0x100) by (bit_vector)
            requires
                out == (value >> 8u64) & 0xff,
        ;
        Ok(out)
    } else if size == 1 {
        let out = value & 0xff;
        assert(out == value % 0x100) by (bit_vector)
            requires
                out == value & 0xff,
        ;
        Ok(out)
    } else if size == 2 {
        let out = value & 0xffff;
        assert(out == value % 0x1_0000) by (bit_vector)
            requires
                out == value & 0xffff,
        ;
        Ok(out)
    } else if size == 4 {
        let out = value & 0xffff_ffff;
        assert(out == value % 0x1_0000_0000) by (bit_vector)
            requires
                out == value & 0xffff_ffff,
        ;
        Ok(out)
    } else if size == 8 {
        Ok(value)
    } else {
        Err(ErrorKind::InvalidInput)
    }
}

pub fn merge_reg_bits(current: u64, size: usize, high8: bool, value: u64) -> (r: Result<
    u64,
    ErrorKind,
>)
    ensures
        valid_operand_size(size) ==> r == Ok::<u64, ErrorKind>(
            merge_reg_bits_spec(current, size, high8, value),
        ),
        !valid_operand_size(size) ==> r == Err::<u64, ErrorKind>(ErrorKind::InvalidInput),
{
    if size == 1 && high8 {
        let merged = (current & !(0xffu64 << 8u64)) | ((value & 0xff) << 8u64);
        assert(merged == current - ((current / 0x100) % 0x100) * 0x100 + (value % 0x100) * 0x100)
            by (bit_vector)
            requires
                merged == (current & !(0xffu64 << 8u64)) | ((value & 0xff) << 8u64),
        ;
        Ok(merged)
    } else if size == 1 {
        let merged = (current & !0xffu64) | (value & 0xff);
        assert(merged == current - current % 0x100 + value % 0x100) by (bit_vector)
            requires
                merged == (current & !0xffu64) | (value & 0xff),
        ;
        Ok(merged)
    } else if size == 2 {
        let merged = (current & !0xffffu64) | (value & 0xffff);
        assert(merged == current - current % 0x1_0000 + value % 0x1_0000) by (bit_vector)
            requires
                merged == (current & !0xffffu64) | (value & 0xffff),
        ;
        Ok(merged)
    } else if size == 4 {
        let merged = value & 0xffff_ffff;
        assert(merged == value % 0x1_0000_0000) by (bit_vector)
            requires
                merged == value & 0xffff_ffff,
        ;
        Ok(merged)
    } else if size == 8 {
        Ok(value)
    } else {
        Err(ErrorKind::InvalidInput)
    }
}

/// Writing a register slice and reading the same slice back yields the low
/// `size` bytes of the written value; the bytes outside the slice keep their
/// old contents (for 1- and 2-byte slices) or become zero (4-byte writes).
pub proof fn lemma_merge_then_read(current: u64, size: usize, high8: bool, value: u64)
    requires
        valid_operand_size(size),
    ensures
        reg_bits_spec(merge_reg_bits_spec(current, size, high8, value), size, high8)
            == reg_bits_spec(value, size, false),
        size == 1 && high8 ==> merge_reg_bits_spec(current, size, high8, value) % 0x100
            == current % 0x100,
        size == 1 && high8 ==> merge_reg_bits_spec(current, size, high8, value) / 0x1_0000
            == current / 0x1_0000,
        size == 1 && !high8 ==> merge_reg_bits_spec(current, size, high8, value) / 0x100
            == current / 0x100,
        size == 2 ==> merge_reg_bits_spec(current, size, high8, value) / 0x1_0000 == current
            / 0x1_0000,
        size == 4 ==> merge_reg_bits_spec(current, size, high8, value) < 0x1_0000_0000,
{
    let m = merge_reg_bits_spec(current, size, high8, value);
    if size == 1 && high8 {
        let lo = current % 0x100;
        let hi = (current / 0x100) % 0x100;
        let top = current / 0x1_0000;
        let v = value % 0x100;
        assert(current == (current / 0x1_0000) * 0x1_0000 + ((current / 0x100) % 0x100) * 0x100
            + current % 0x100) by (bit_vector);
        assert(m == top * 0x1_0000 + v * 0x100 + lo);
        assert(0 <= lo < 0x100 && 0 <= v < 0x100);
        assert((top * 0x1_0000 + v * 0x100 + lo) / 0x100 == top * 0x100 + v) by (nonlinear_arith)
            requires
                0 <= lo < 0x100,
                0 <= v < 0x100,
                top >= 0,
        ;
        assert((top * 0x100 + v) % 0x100 == v) by (nonlinear_arith)
            requires
                0 <= v < 0x100,
                top >= 0,
        ;
        assert((top * 0x1_0000 + v * 0x100 + lo) % 0x100 == lo) by (nonlinear_arith)
            requires
                0 <= lo < 0x100,
                0 <= v < 0x100,
                top >= 0,
        ;
        assert((top * 0x1_0000 + v * 0x100 + lo) / 0x1_0000 == top) by (nonlinear_arith)
            requires
                0 <= lo < 0x100,
                0 <= v < 0x100,
                top >= 0,
        ;
    } else if size == 1 {
        let rest = current / 0x100;
        let v = value % 0x100;
        assert(current - current % 0x100 == (current / 0x100) * 0x100) by (bit_vector);
        assert((rest * 0x100 + v) % 0x100 == v) by (nonlinear_arith)
            requires
                0 <= v < 0x100,
                rest >= 0,
        ;
        assert((rest * 0x100 + v) / 0x100 == rest) by (nonlinear_arith)
            requires
                0 <= v < 0x100,
                rest >= 0,
        ;
    } else if size == 2 {
        let rest = current / 0x1_0000;
        let v = value % 0x1_0000;
        assert(current - current % 0x1_0000 == (current / 0x1_0000) * 0x1_0000) by (bit_vector);
        assert((rest * 0x1_0000 + v) % 0x1_0000 == v) by (nonlinear_arith)
            requires
                0 <= v < 0x1_0000,
                rest >= 0,
        ;
        assert((rest * 0x1_0000 + v) / 0x1_0000 == rest) by (nonlinear_arith)
            requires
                0 <= v < 0x1_0000,
                rest >= 0,
        ;
    }
}

/// Operand size of the full-width MOV forms.
pub fn operand_size_from_prefixes(rex: u8, operand_size_override: bool) -> (size: usize)
    ensures
        size == operand_size_spec(rex, operand_size_override),
{
    assert(((rex & 0x08) != 0) == ((rex / 8) % 2 == 1)) by (bit_vector);
    if (rex & 0x08) != 0 {
        8
    } else {
        if operand_size_override {
            2
        } else {
            4
        }
    }
}

/// Skips the SIB byte and displacement of the memory operand that `modrm`
/// addresses, starting at `idx`; returns the index just past them.
pub fn skip_modrm_address(bytes: &[u8], idx: usize, modrm: u8) -> (r: Result<usize, ErrorKind>)
    ensures
        match skip_modrm_spec(bytes@, idx as int, modrm) {
            Ok(end) => r == Ok::<usize, ErrorKind>(end as usize),
            Err(e) => r == Err::<usize, ErrorKind>(e),
        },
{
    let mod_bits = (modrm >> 6u8) & 0x3;
    let rm = modrm & 0x7;
    assert(mod_bits == modrm / 64 && rm == modrm % 8) by (bit_vector)
        requires
            mod_bits == (modrm >> 6u8) & 0x3,
            rm == modrm & 0x7,
    ;
    if mod_bits == 0x3 {
        return Err(ErrorKind::Unsupported);
    }
    let mut idx = idx;
    if rm == 0x4 {
        if idx >= bytes.len() {
            return Err(ErrorKind::InvalidData);
        }
        let sib = bytes[idx];
        idx = idx + 1;
        let base = sib & 0x7;
        assert(base == sib % 8) by (bit_vector)
            requires
                base == sib & 0x7,
        ;
        if mod_bits == 0x0 && base == 0x5 {
            match idx.checked_add(4) {
                Some(v) => {
                    idx = v;
                },
                None => {
                    return Err(ErrorKind::InvalidData);
                },
            }
        }
    }
    if mod_bits == 0x0 && rm == 0x5 {
        match idx.checked_add(4) {
            Some(v) => Ok(v),
            None => Err(ErrorKind::InvalidData),
        }
    } else if mod_bits == 0x1 {
        match idx.checked_add(1) {
            Some(v) => Ok(v),
            None => Err(ErrorKind::InvalidData),
        }
    } else if mod_bits == 0x2 {
        match idx.checked_add(4) {
            Some(v) => Ok(v),
            None => Err(ErrorKind::InvalidData),
        }
    } else {
        Ok(idx)
    }
}

/// `skip_modrm_spec` moves forward by at most a SIB byte and a 32-bit displacement.
proof fn lemma_skip_modrm_bounds(s: Seq<u8>, idx: int, modrm: u8)
    requires
        0 <= idx,
    ensures
        skip_modrm_spec(s, idx, modrm) matches Ok(end) ==> idx <= end <= idx + 5,
{
}

proof fn lemma_wrapping_add_u64(rip: u64, e: int)
    requires
        0 <= e <= u64::MAX,
    ensures
        vstd::wrapping::u64_specs::wrapping_add(rip, e as u64) == rip_plus(rip, e),
{
    let m: int = 0x1_0000_0000_0000_0000;
    let t: int = rip + e;
    if t > u64::MAX {
        assert(t % m == t - m) by (nonlinear_arith)
            requires
                m <= t < 2 * m,
                m == 0x1_0000_0000_0000_0000int,
        ;
    } else {
        assert(t % m == t) by (nonlinear_arith)
            requires
                0 <= t < m,
        ;
    }
}

fn add_to_rip(rip: u64, len: usize) -> (r: u64)
    ensures
        r == rip_plus(rip, len as int),
{
    proof {
        lemma_wrapping_add_u64(rip, len as int);
    }
    rip.wrapping_add(len as u64)
}

fn extended_reg_index(modrm: u8, rex: u8) -> (r: u8)
    ensures
        r == extended_reg(modrm, rex),
        r < 16,
{
    let reg_base = (modrm >> 3u8) & 0x7;
    let rex_r_bit = (rex >> 2u8) & 1;
    assert(reg_base == (modrm / 8) % 8 && rex_r_bit == (rex / 4) % 2) by (bit_vector)
        requires
            reg_base == (modrm >> 3u8) & 0x7,
            rex_r_bit == (rex >> 2u8) & 1,
    ;
    reg_base + rex_r_bit * 8
}

fn reg_field_of(modrm: u8) -> (r: u8)
    ensures
        r == reg_field(modrm),
        r < 8,
{
    let reg_base = (modrm >> 3u8) & 0x7;
    assert(reg_base == (modrm / 8) % 8) by (bit_vector)
        requires
            reg_base == (modrm >> 3u8) & 0x7,
    ;
    reg_base
}

fn decode_two_byte(rip: u64, bytes: &[u8], idx: usize, rex: u8, is_write: bool) -> (r: Result<
    DecodedMmioAccess,
    ErrorKind,
>)
    requires
        idx <= bytes@.len(),
        bytes@.len() <= isize::MAX,
    ensures
        r == decode_two_byte_spec(rip, bytes@, idx as int, rex, is_write),
{
    if idx >= bytes.len() {
        return Err(ErrorKind::InvalidData);
    }
    let opcode2 = bytes[idx];
    let idx = idx + 1;
    if idx >= bytes.len() {
        return Err(ErrorKind::InvalidData);
    }
    let modrm = bytes[idx];
    let idx = idx + 1;
    let reg_index = extended_reg_index(modrm, rex);
    let end = match skip_modrm_address(bytes, idx, modrm) {
        Ok(e) => e,
        Err(e) => {
            return Err(e);
        },
    };
    let next_rip = add_to_rip(rip, end);
    let (kind, size) = if opcode2 == 0x0d || opcode2 == 0x18 || opcode2 == 0x1f {
        (MmioAccessKind::Noop, 1usize)
    } else if opcode2 == 0xb6 && !is_write {
        (MmioAccessKind::ReadRegZeroExtend { reg_index }, 1)
    } else if opcode2 == 0xb7 && !is_write {
        (MmioAccessKind::ReadRegZeroExtend { reg_index }, 2)
    } else if opcode2 == 0xbe && !is_write {
        (MmioAccessKind::ReadRegSignExtend { reg_index }, 1)
    } else if opcode2 == 0xbf && !is_write {
        (MmioAccessKind::ReadRegSignExtend { reg_index }, 2)
    } else {
        return Err(ErrorKind::Unsupported);
    };
    Ok(DecodedMmioAccess { kind, next_rip, size })
}

fn decode_moffs(rip: u64, bytes: &[u8], opcode: u8, rex: u8, opsize: bool, is_write: bool) -> (r:
    Result<DecodedMmioAccess, ErrorKind>)
    ensures
        r == decode_moffs_spec(rip, bytes@, opcode, rex, opsize, is_write),
{
    let next_rip = add_to_rip(rip, bytes.len());
    let size = if opcode == 0xa0 || opcode == 0xa2 {
        1
    } else {
        operand_size_from_prefixes(rex, opsize)
    };
    let kind = if (opcode == 0xa0 || opcode == 0xa1) && !is_write {
        MmioAccessKind::ReadReg { reg_index: 0, high8: false }
    } else if (opcode == 0xa2 || opcode == 0xa3) && is_write {
        MmioAccessKind::WriteReg { reg_index: 0, high8: false }
    } else {
        return Err(ErrorKind::Unsupported);
    };
    Ok(DecodedMmioAccess { kind, next_rip, size })
}

fn c7_immediate(b0: u8, b1: u8, b2: u8, b3: u8, operand_size: usize) -> (v: u64)
    ensures
        operand_size == 2 ==> v == le_u16(b0, b1),
        operand_size != 2 && operand_size == 8 ==> v == sign_extend_32(le_u32(b0, b1, b2, b3)),
        operand_size != 2 && operand_size != 8 ==> v == le_u32(b0, b1, b2, b3) as u64,
{
    if operand_size == 2 {
        (b0 as u64) + (b1 as u64) * 0x100
    } else {
        let raw: u32 = (b0 as u32) + (b1 as u32) * 0x100 + (b2 as u32) * 0x1_0000 + (b3 as u32)
            * 0x100_0000;
        if operand_size == 8 {
            if raw >= 0x8000_0000 {
                (raw as u64) + 0xFFFF_FFFF_0000_0000
            } else {
                raw as u64
            }
        } else {
            raw as u64
        }
    }
}

fn decode_modrm_form(
    rip: u64,
    bytes: &[u8],
    idx: usize,
    opcode: u8,
    rex: u8,
    opsize: bool,
    is_write: bool,
) -> (r: Result<DecodedMmioAccess, ErrorKind>)
    requires
        idx <= bytes@.len(),
        bytes@.len() <= isize::MAX,
        is_modrm_opcode(opcode),
    ensures
        r == decode_modrm_spec(rip, bytes@, idx as int, opcode, rex, opsize, is_write),
{
    if idx >= bytes.len() {
        return Err(ErrorKind::InvalidData);
    }
    let modrm = bytes[idx];
    let idx = idx + 1;
    let reg_base = reg_field_of(modrm);
    let reg_extended = extended_reg_index(modrm, rex);
    let operand_size = if opcode == 0x8a || opcode == 0x88 || opcode == 0xc6 {
        1
    } else if opcode == 0x63 {
        4
    } else {
        operand_size_from_prefixes(rex, opsize)
    };
    proof {
        lemma_skip_modrm_bounds(bytes@, idx as int, modrm);
    }
    if (opcode == 0x8a || opcode == 0x8b || opcode == 0x88 || opcode == 0x89) && (((opcode == 0x8a
        || opcode == 0x8b) && !is_write) || ((opcode == 0x88 || opcode == 0x89) && is_write)) {
        let high8 = operand_size == 1 && rex == 0 && 4 <= reg_base && reg_base <= 7;
        let reg_index = if high8 {
            reg_base - 4
        } else {
            reg_extended
        };
        let end = match skip_modrm_address(bytes, idx, modrm) {
            Ok(e) => e,
            Err(e) => {
                return Err(e);
            },
        };
        let kind = if opcode == 0x8a || opcode == 0x8b {
            MmioAccessKind::ReadReg { reg_index, high8 }
        } else {
            MmioAccessKind::WriteReg { reg_index, high8 }
        };
        Ok(DecodedMmioAccess { kind, next_rip: add_to_rip(rip, end), size: operand_size })
    } else if opcode == 0x63 && !is_write {
        let end = match skip_modrm_address(bytes, idx, modrm) {
            Ok(e) => e,
            Err(e) => {
                return Err(e);
            },
        };
        Ok(
            DecodedMmioAccess {
                kind: MmioAccessKind::ReadRegSignExtend { reg_index: reg_extended },
                next_rip: add_to_rip(rip, end),
                size: operand_size,
            },
        )
    } else if opcode == 0xc6 && is_write {
        if reg_base != 0 {
            return Err(ErrorKind::Unsupported);
        }
        let imm_idx = match skip_modrm_address(bytes, idx, modrm) {
            Ok(e) => e,
            Err(e) => {
                return Err(e);
            },
        };
        if imm_idx >= bytes.len() {
            return Err(ErrorKind::InvalidData);
        }
        let imm = bytes[imm_idx] as u64;
        Ok(
            DecodedMmioAccess {
                kind: MmioAccessKind::WriteImm { value: imm },
                next_rip: add_to_rip(rip, imm_idx + 1),
                size: operand_size,
            },
        )
    } else if opcode == 0xc7 && is_write {
        if reg_base != 0 {
            return Err(ErrorKind::Unsupported);
        }
        let imm_idx = match skip_modrm_address(bytes, idx, modrm) {
            Ok(e) => e,
            Err(e) => {
                return Err(e);
            },
        };
        let imm_len: usize = if operand_size == 2 {
            2
        } else {
            4
        };
        if imm_idx + imm_len > bytes.len() {
            return Err(ErrorKind::InvalidData);
        }
        let b0 = bytes[imm_idx];
        let b1 = bytes[imm_idx + 1];
        let (b2, b3) = if imm_len == 4 {
            (bytes[imm_idx + 2], bytes[imm_idx + 3])
        } else {
            (0u8, 0u8)
        };
        let imm = c7_immediate(b0, b1, b2, b3, operand_size);
        Ok(
            DecodedMmioAccess {
                kind: MmioAccessKind::WriteImm { value: imm },
                next_rip: add_to_rip(rip, imm_idx + imm_len),
                size: operand_size,
            },
        )
    } else {
        Err(ErrorKind::Unsupported)
    }
}

/// Decodes the instruction that caused an MMIO exit at `rip`: what it does
/// with the accessed memory, how wide the access is and where the next
/// instruction starts.
pub fn decode_mmio_access(rip: u64, instruction_bytes: &[u8], is_write: bool) -> (r: Result<
    DecodedMmioAccess,
    ErrorKind,
>)
    requires
        instruction_bytes@.len() <= isize::MAX,
    ensures
        r == decode_spec(rip, instruction_bytes@, is_write),
{
    let ghost s = instruction_bytes@;
    let mut idx: usize = 0;
    let mut rex: u8 = 0;
    let mut opsize = false;
    while idx < instruction_bytes.len()
        invariant
            idx <= s.len(),
            s == instruction_bytes@,
            prefix_end(s, idx as int) == prefix_end(s, 0),
            last_rex(s, idx as int, rex) == last_rex(s, 0, 0),
            has_opsize_prefix(s, idx as int, opsize) == has_opsize_prefix(s, 0, false),
        ensures
            idx <= s.len(),
            idx == prefix_end(s, 0),
            rex == last_rex(s, 0, 0),
            opsize == has_opsize_prefix(s, 0, false),
        decreases s.len() - idx,
    {
        let b = instruction_bytes[idx];
        if is_legacy_prefix(b) {
            if b == 0x66 {
                opsize = true;
            }
            idx = idx + 1;
        } else if 0x40 <= b && b <= 0x4f {
            rex = b;
            idx = idx + 1;
        } else {
            break;
        }
    }
    if idx >= instruction_bytes.len() {
        return Err(ErrorKind::InvalidData);
    }
    let opcode = instruction_bytes[idx];
    let idx = idx + 1;
    if opcode == 0x0f {
        decode_two_byte(rip, instruction_bytes, idx, rex, is_write)
    } else if 0xa0 <= opcode && opcode <= 0xa3 {
        decode_moffs(rip, instruction_bytes, opcode, rex, opsize, is_write)
    } else if !(opcode == 0x8a || opcode == 0x8b || opcode == 0x88 || opcode == 0x89 || opcode
        == 0x63 || opcode == 0xc6 || opcode == 0xc7) {
        Err(ErrorKind::Unsupported)
    } else {
        decode_modrm_form(rip, instruction_bytes, idx, opcode, rex, opsize, is_write)
    }
}


/// The register-loading two-byte opcodes: a read through `0F BE /r` is a
/// sign-extending byte load and `0F BF /r` a sign-extending word load into
/// the register named by the ModRM reg field (extended by REX.R), while
/// `0F B6` and `0F B7` are the zero-extending byte and word loads; no other
/// two-byte opcode loads with extension. A ModRM byte that addresses memory
/// through a plain base register always decodes, and the next instruction
/// starts three bytes past the opcode escape.
pub proof fn lemma_two_byte_load_extension(rip: u64, s: Seq<u8>)
    requires
        prefix_end(s, 0) + 2 < s.len(),
        s[prefix_end(s, 0)] == 0x0f,
    ensures
        ({
            let p = prefix_end(s, 0);
            let op2 = s[p + 1];
            let modrm = s[p + 2];
            let rex = last_rex(s, 0, 0);
            let reg = ((modrm / 8) % 8 + 8 * ((rex / 4) % 2)) as u8;
            &&& decode_spec(rip, s, false) matches Ok(d) ==> {
                &&& op2 == 0xbe ==> d.kind == (MmioAccessKind::ReadRegSignExtend { reg_index: reg })
                    && d.size == 1
                &&& op2 == 0xbf ==> d.kind == (MmioAccessKind::ReadRegSignExtend { reg_index: reg })
                    && d.size == 2
                &&& op2 == 0xb6 ==> d.kind == (MmioAccessKind::ReadRegZeroExtend { reg_index: reg })
                    && d.size == 1
                &&& op2 == 0xb7 ==> d.kind == (MmioAccessKind::ReadRegZeroExtend { reg_index: reg })
                    && d.size == 2
                &&& d.kind is ReadRegSignExtend ==> op2 == 0xbe || op2 == 0xbf
                &&& d.kind is ReadRegZeroExtend ==> op2 == 0xb6 || op2 == 0xb7
            }
            &&& (op2 == 0xb6 || op2 == 0xb7 || op2 == 0xbe || op2 == 0xbf) && modrm / 64 == 0 && modrm
                % 8 != 4 && modrm % 8 != 5 ==> (decode_spec(rip, s, false) matches Ok(d) && d.next_rip
                == ((rip + p + 3) % 0x1_0000_0000_0000_0000) as u64)
        }),
{
}


/// The one-byte MOV forms without prefixes and with a ModRM byte that
/// addresses memory through a plain base register (mod 0, r/m neither 4
/// nor 5): 8B loads and 89 stores a 32-bit register, 8A loads and 88
/// stores a byte register (reg 4..7 being AH..BH), 63 loads a dword with
/// sign extension, C6 stores its byte immediate and C7 its little-endian
/// dword immediate; each instruction ends right after its ModRM byte and
/// immediate, and a load opcode met on a write (or a store on a read) is
/// refused.
pub proof fn lemma_mov_forms(rip: u64, s: Seq<u8>, is_write: bool)
    requires
        s.len() >= 2,
        !is_prefix_byte(s[0]),
        s[1] / 64 == 0,
        s[1] % 8 != 4,
        s[1] % 8 != 5,
    ensures
        ({
            let op = s[0];
            let reg = (s[1] / 8) % 8;
            let r = decode_spec(rip, s, is_write);
            let after_modrm = ((rip + 2) % 0x1_0000_0000_0000_0000) as u64;
            &&& op == 0x8b && !is_write ==> r == Ok::<DecodedMmioAccess, ErrorKind>(
                DecodedMmioAccess {
                    kind: MmioAccessKind::ReadReg { reg_index: reg as u8, high8: false },
                    next_rip: after_modrm,
                    size: 4,
                },
            )
            &&& op == 0x89 && is_write ==> r == Ok::<DecodedMmioAccess, ErrorKind>(
                DecodedMmioAccess {
                    kind: MmioAccessKind::WriteReg { reg_index: reg as u8, high8: false },
                    next_rip: after_modrm,
                    size: 4,
                },
            )
            &&& op == 0x8a && !is_write ==> r == Ok::<DecodedMmioAccess, ErrorKind>(
                DecodedMmioAccess {
                    kind: MmioAccessKind::ReadReg {
                        reg_index: (if reg >= 4 { reg - 4 } else { reg as int }) as u8,
                        high8: reg >= 4,
                    },
                    next_rip: after_modrm,
                    size: 1,
                },
            )
            &&& op == 0x88 && is_write ==> r == Ok::<DecodedMmioAccess, ErrorKind>(
                DecodedMmioAccess {
                    kind: MmioAccessKind::WriteReg {
                        reg_index: (if reg >= 4 { reg - 4 } else { reg as int }) as u8,
                        high8: reg >= 4,
                    },
                    next_rip: after_modrm,
                    size: 1,
                },
            )
            &&& op == 0x63 && !is_write ==> r == Ok::<DecodedMmioAccess, ErrorKind>(
                DecodedMmioAccess {
                    kind: MmioAccessKind::ReadRegSignExtend { reg_index: reg as u8 },
                    next_rip: after_modrm,
                    size: 4,
                },
            )
            &&& op == 0xc6 && is_write && reg == 0 && s.len() >= 3 ==> r == Ok::<
                DecodedMmioAccess,
                ErrorKind,
            >(
                DecodedMmioAccess {
                    kind: MmioAccessKind::WriteImm { value: s[2] as u64 },
                    next_rip: ((rip + 3) % 0x1_0000_0000_0000_0000) as u64,
                    size: 1,
                },
            )
            &&& op == 0xc7 && is_write && reg == 0 && s.len() >= 6 ==> r == Ok::<
                DecodedMmioAccess,
                ErrorKind,
            >(
                DecodedMmioAccess {
                    kind: MmioAccessKind::WriteImm {
                        value: (s[2] + 0x100 * s[3] + 0x1_0000 * s[4] + 0x100_0000 * s[5]) as u64,
                    },
                    next_rip: ((rip + 6) % 0x1_0000_0000_0000_0000) as u64,
                    size: 4,
                },
            )
            &&& (op == 0x8a || op == 0x8b || op == 0x63) && is_write ==> r == Err::<
                DecodedMmioAccess,
                ErrorKind,
            >(ErrorKind::Unsupported)
            &&& (op == 0x88 || op == 0x89 || op == 0xc6 || op == 0xc7) && !is_write ==> r == Err::<
                DecodedMmioAccess,
                ErrorKind,
            >(ErrorKind::Unsupported)
        }),
{
    assert(prefix_end(s, 0) == 0);
    assert(last_rex(s, 0, 0) == 0);
    assert(!has_opsize_prefix(s, 0, false));
}


/// Operand-size prefixes: after REX.W (0x48) an 8B load or 89 store moves
/// 8 bytes and a C7 store writes its dword immediate sign-extended to 64
/// bits; after 0x66 they move 2 bytes and C7 carries a word immediate.
pub proof fn lemma_mov_operand_size_prefixes(rip: u64, s: Seq<u8>, is_write: bool)
    requires
        s.len() >= 3,
        s[0] == 0x48 || s[0] == 0x66,
        !is_prefix_byte(s[1]),
        s[2] / 64 == 0,
        s[2] % 8 != 4,
        s[2] % 8 != 5,
    ensures
        ({
            let op = s[1];
            let r = decode_spec(rip, s, is_write);
            let wide = s[0] == 0x48;
            &&& (op == 0x8b && !is_write) || (op == 0x89 && is_write) ==> (r matches Ok(d) && d.size
                == (if wide { 8usize } else { 2usize }))
            &&& op == 0xc7 && is_write && (s[2] / 8) % 8 == 0 && wide && s.len() >= 7 ==> (r matches Ok(
                d,
            ) && d.size == 8 && d.kind == (MmioAccessKind::WriteImm {
                value: (s[3] + 0x100 * s[4] + 0x1_0000 * s[5] + 0x100_0000 * s[6] + (if s[6] >= 0x80 {
                    0xFFFF_FFFF_0000_0000int
                } else {
                    0int
                })) as u64,
            }))
            &&& op == 0xc7 && is_write && (s[2] / 8) % 8 == 0 && !wide && s.len() >= 5 ==> (r matches Ok(
                d,
            ) && d.size == 2 && d.kind == (MmioAccessKind::WriteImm {
                value: (s[3] + 0x100 * s[4]) as u64,
            }) && d.next_rip == ((rip + 5) % 0x1_0000_0000_0000_0000) as u64)
        }),
{
    assert(prefix_end(s, 1) == 1);
    assert(prefix_end(s, 0) == 1);
    assert(last_rex(s, 1, if s[0] == 0x48 { 0x48u8 } else { 0u8 }) == if s[0] == 0x48 { 0x48u8 } else { 0u8 });
    assert(has_opsize_prefix(s, 1, s[0] == 0x66) == (s[0] == 0x66));
}


/// A load into a register slice writes the low bytes of the loaded value
/// into exactly that slice: the low byte, the second byte (AH..BH), the low
/// word, or the whole register, where a 32-bit load clears the upper half
/// and a 64-bit load replaces everything.
pub proof fn lemma_merge_writes_slice(current: u64, size: usize, high8: bool, value: u64)
    requires
        valid_operand_size(size),
    ensures
        ({
            let m = merge_reg_bits_spec(current, size, high8, value);
            &&& size == 1 && !high8 ==> m % 0x100 == value % 0x100 && m / 0x100 == current / 0x100
            &&& size == 1 && high8 ==> (m / 0x100) % 0x100 == value % 0x100 && m % 0x100 == current
                % 0x100 && m / 0x1_0000 == current / 0x1_0000
            &&& size == 2 ==> m % 0x1_0000 == value % 0x1_0000 && m / 0x1_0000 == current / 0x1_0000
            &&& size == 4 ==> m == value % 0x1_0000_0000
            &&& size == 8 ==> m == value
        }),
{
    lemma_merge_then_read(current, size, high8, value);
}


/// An I/O port instruction is its opcode, one more byte for the port
/// operand of IN/OUT imm8 (E4..E7) and one byte per leading prefix:
/// unprefixed IN/OUT imm8 take 2 bytes and the DX and string forms 1; a
/// single prefix (such as 0x66 or REP) adds one.
pub proof fn lemma_io_instr_len(s: Seq<u8>)
    requires
        s.len() == 16,
    ensures
        !is_io_prefix_byte(s[0]) ==> io_instr_len_spec(s) == (if 0xE4 <= s[0] <= 0xE7 { 2u64 } else { 1u64 }),
        is_io_prefix_byte(s[0]) && !is_io_prefix_byte(s[1]) ==> io_instr_len_spec(s) == (if 0xE4
            <= s[1] <= 0xE7 {
            3u64
        } else {
            2u64
        }),
{
    if is_io_prefix_byte(s[0]) && !is_io_prefix_byte(s[1]) {
        assert(io_prefix_count(s, 1) == 1);
    }
}

} // verus!
