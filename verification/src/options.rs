//! Meaning of the string settings that tune the Windows hypervisor back
//! end: on/off switches, interrupt-delivery modes, a vector override and a
//! kernel command-line suffix. Each function takes the setting's raw value,
//! `None` when it is unset.

use vstd::prelude::*;
use vstd::string::*;
use crate::text::{
    normalize, normalized, spells, trim_to_string, trim_spec, chars_of, format_radix, radix_digits,
    digit_char,
};
use crate::inject::{
    PicFixedInjectionMode, PicFixedBuilderDirectMode, PicFixedTarget, PicFixedRequestInterruptType,
};

verus! {

/// "1", "true", "yes" or "on", in any case, with surrounding white space.
pub open spec fn is_on_word(n: Seq<char>) -> bool {
    n == "1"@ || n == "true"@ || n == "yes"@ || n == "on"@
}

/// "1", "true" or "yes", in any case, with surrounding white space.
pub open spec fn is_true_word(n: Seq<char>) -> bool {
    n == "1"@ || n == "true"@ || n == "yes"@
}

fn on_word(n: &Vec<char>) -> (b: bool)
    ensures
        b == is_on_word(n@),
{
    spells(n, "1") || spells(n, "true") || spells(n, "yes") || spells(n, "on")
}

fn true_word(n: &Vec<char>) -> (b: bool)
    ensures
        b == is_true_word(n@),
{
    spells(n, "1") || spells(n, "true") || spells(n, "yes")
}

/// A switch that is off unless set to "1", "true", "yes" or "on".
pub fn flag_enabled(value: Option<&str>) -> (b: bool)
    ensures
        b == (value.is_some() && is_on_word(normalized(value.unwrap()@))),
{
    match value {
        Some(v) => on_word(&normalize(v)),
        None => false,
    }
}

/// A switch that is off unless set to "1", "true" or "yes".
pub fn flag_true(value: Option<&str>) -> (b: bool)
    ensures
        b == (value.is_some() && is_true_word(normalized(value.unwrap()@))),
{
    match value {
        Some(v) => true_word(&normalize(v)),
        None => false,
    }
}

/// Hyper-V enlightenments are on unless the setting says otherwise: unset
/// means on; a set value means on only for "1", "true", "yes" or "on".
pub fn hyperv_enlightenments_from_value(value: Option<&str>) -> (b: bool)
    ensures
        value.is_none() ==> b,
        value.is_some() ==> b == is_on_word(normalized(value.unwrap()@)),
{
    match value {
        Some(v) => on_word(&normalize(v)),
        None => true,
    }
}

/// Whether a virtio console is attached besides the serial port; off unless
/// the setting is "1", "true", "yes" or "on".
pub fn windows_attach_implicit_virtio_console(value: Option<&str>) -> (b: bool)
    ensures
        b == (value.is_some() && is_on_word(normalized(value.unwrap()@))),
{
    flag_enabled(value)
}

/// Whether the vCPU re-enters the run loop right after a pending event was
/// queued on a halted processor: always.
pub fn windows_pending_event_halted_reenter() -> (b: bool)
    ensures
        b,
{
    true
}

pub open spec fn injection_mode_spec(value: Option<&str>) -> PicFixedInjectionMode {
    match value {
        Some(v) => {
            let n = normalized(v@);
            if n == "pending-interruption"@ || n == "pending-interrupt"@ || n == "register"@ {
                PicFixedInjectionMode::PendingInterruption
            } else {
                PicFixedInjectionMode::RequestInterrupt
            }
        },
        None => PicFixedInjectionMode::RequestInterrupt,
    }
}

/// How fixed PIC interrupts are injected: through the pending-interruption
/// register for "pending-interruption", "pending-interrupt" or "register",
/// else through an interrupt request.
pub fn pic_fixed_injection_mode_from_value(value: Option<&str>) -> (m: PicFixedInjectionMode)
    ensures
        m == injection_mode_spec(value),
{
    match value {
        Some(v) => {
            let n = normalize(v);
            if spells(&n, "pending-interruption") || spells(&n, "pending-interrupt") || spells(
                &n,
                "register",
            ) {
                PicFixedInjectionMode::PendingInterruption
            } else {
                PicFixedInjectionMode::RequestInterrupt
            }
        },
        None => PicFixedInjectionMode::RequestInterrupt,
    }
}

/// Whether the builder injects fixed PIC interrupts through the
/// pending-interruption register: for the same three words as above.
pub fn pic_fixed_pending_interruption_from_value(value: Option<&str>) -> (b: bool)
    ensures
        b == (injection_mode_spec(value) == PicFixedInjectionMode::PendingInterruption),
{
    match pic_fixed_injection_mode_from_value(value) {
        PicFixedInjectionMode::PendingInterruption => true,
        PicFixedInjectionMode::RequestInterrupt => false,
    }
}

pub open spec fn builder_direct_mode_spec(value: Option<&str>) -> PicFixedBuilderDirectMode {
    match value {
        Some(v) => {
            let n = normalized(v@);
            if n == "pending-event"@ || n == "pending-event-extint"@ || n == "event"@ || n
                == "extint"@ {
                PicFixedBuilderDirectMode::PendingEventExtInt
            } else {
                PicFixedBuilderDirectMode::PendingInterruption
            }
        },
        None => PicFixedBuilderDirectMode::PendingInterruption,
    }
}

/// How the builder delivers fixed PIC interrupts directly: as an ExtINT
/// pending event for "pending-event", "pending-event-extint", "event" or
/// "extint", else through the pending-interruption register.
pub fn pic_fixed_builder_direct_mode_from_value(value: Option<&str>) -> (m: PicFixedBuilderDirectMode)
    ensures
        m == builder_direct_mode_spec(value),
{
    match value {
        Some(v) => {
            let n = normalize(v);
            if spells(&n, "pending-event") || spells(&n, "pending-event-extint") || spells(
                &n,
                "event",
            ) || spells(&n, "extint") {
                PicFixedBuilderDirectMode::PendingEventExtInt
            } else {
                PicFixedBuilderDirectMode::PendingInterruption
            }
        },
        None => PicFixedBuilderDirectMode::PendingInterruption,
    }
}

pub open spec fn target_spec(value: Option<&str>) -> PicFixedTarget {
    match value {
        Some(v) => {
            let n = normalized(v@);
            if n == "physical-apic-id"@ || n == "apic-id"@ {
                PicFixedTarget::PhysicalApicId
            } else if n == "physical-1"@ || n == "one"@ {
                PicFixedTarget::PhysicalOne
            } else if n == "physical-broadcast"@ || n == "broadcast"@ {
                PicFixedTarget::PhysicalBroadcast
            } else if n == "logical-ldr"@ || n == "ldr"@ || n == "logical"@ {
                PicFixedTarget::LogicalLdr
            } else if n == "logical-broadcast"@ {
                PicFixedTarget::LogicalBroadcast
            } else {
                PicFixedTarget::PhysicalZero
            }
        },
        None => PicFixedTarget::PhysicalZero,
    }
}

/// Destination of fixed PIC interrupts named by the setting; physical APIC
/// 0 when unset or unrecognised.
pub fn pic_fixed_target_from_value(value: Option<&str>) -> (t: PicFixedTarget)
    ensures
        t == target_spec(value),
{
    match value {
        Some(v) => {
            let n = normalize(v);
            if spells(&n, "physical-apic-id") || spells(&n, "apic-id") {
                PicFixedTarget::PhysicalApicId
            } else if spells(&n, "physical-1") || spells(&n, "one") {
                PicFixedTarget::PhysicalOne
            } else if spells(&n, "physical-broadcast") || spells(&n, "broadcast") {
                PicFixedTarget::PhysicalBroadcast
            } else if spells(&n, "logical-ldr") || spells(&n, "ldr") || spells(&n, "logical") {
                PicFixedTarget::LogicalLdr
            } else if spells(&n, "logical-broadcast") {
                PicFixedTarget::LogicalBroadcast
            } else {
                PicFixedTarget::PhysicalZero
            }
        },
        None => PicFixedTarget::PhysicalZero,
    }
}

pub open spec fn request_type_spec(value: Option<&str>) -> PicFixedRequestInterruptType {
    match value {
        Some(v) => {
            let n = normalized(v@);
            if n == "lowest-priority"@ || n == "lowest"@ || n == "lp"@ {
                PicFixedRequestInterruptType::LowestPriority
            } else if n == "nmi"@ {
                PicFixedRequestInterruptType::Nmi
            } else if n == "local-int1"@ || n == "lint1"@ || n == "localint1"@ {
                PicFixedRequestInterruptType::LocalInt1
            } else {
                PicFixedRequestInterruptType::Fixed
            }
        },
        None => PicFixedRequestInterruptType::Fixed,
    }
}

/// Interrupt type used when fixed PIC interrupts are requested; `Fixed`
/// when unset or unrecognised.
pub fn pic_fixed_request_interrupt_type_from_value(value: Option<&str>) -> (t: PicFixedRequestInterruptType)
    ensures
        t == request_type_spec(value),
{
    match value {
        Some(v) => {
            let n = normalize(v);
            if spells(&n, "lowest-priority") || spells(&n, "lowest") || spells(&n, "lp") {
                PicFixedRequestInterruptType::LowestPriority
            } else if spells(&n, "nmi") {
                PicFixedRequestInterruptType::Nmi
            } else if spells(&n, "local-int1") || spells(&n, "lint1") || spells(&n, "localint1") {
                PicFixedRequestInterruptType::LocalInt1
            } else {
                PicFixedRequestInterruptType::Fixed
            }
        },
        None => PicFixedRequestInterruptType::Fixed,
    }
}

/// Value of digit `c` in base `radix` (10 or 16), if it is one.
pub open spec fn digit_value(c: char, radix: nat) -> Option<nat> {
    let u = c as u32;
    let d: int = if 0x30 <= u <= 0x39 {
        u - 0x30
    } else if 0x61 <= u <= 0x7A {
        u - 0x61 + 10
    } else if 0x41 <= u <= 0x5A {
        u - 0x41 + 10
    } else {
        99
    };
    if d < radix {
        Some(d as nat)
    } else {
        None
    }
}

/// Value of the digit string `s` in base `radix`, if every character is a
/// digit.
pub open spec fn digits_value(s: Seq<char>, radix: nat) -> Option<nat>
    decreases s.len(),
{
    if s.len() == 0 {
        Some(0)
    } else {
        match (digits_value(s.drop_last(), radix), digit_value(s.last(), radix)) {
            (Some(a), Some(d)) => Some(a * radix + d),
            _ => None,
        }
    }
}

/// An unsigned byte written in base `radix`, with an optional leading `+`,
/// as `u8::from_str_radix` reads it.
pub open spec fn parse_u8_spec(s: Seq<char>, radix: nat) -> Option<u8> {
    let body = if s.len() > 0 && s[0] == '+' {
        s.drop_first()
    } else {
        s
    };
    if body.len() == 0 {
        None
    } else {
        match digits_value(body, radix) {
            Some(v) => if v <= 255 {
                Some(v as u8)
            } else {
                None
            },
            None => None,
        }
    }
}

fn digit_of(c: char, radix: u32) -> (d: Option<u32>)
    requires
        radix == 10 || radix == 16,
    ensures
        d.is_some() == digit_value(c, radix as nat).is_some(),
        d.is_some() ==> d.unwrap() == digit_value(c, radix as nat).unwrap(),
{
    let u = c as u32;
    let v: u32 = if 0x30 <= u && u <= 0x39 {
        u - 0x30
    } else if 0x61 <= u && u <= 0x7A {
        u - 0x61 + 10
    } else if 0x41 <= u && u <= 0x5A {
        u - 0x41 + 10
    } else {
        99
    };
    if v < radix {
        Some(v)
    } else {
        None
    }
}

/// `digits` read as a byte in base `radix`.
fn parse_u8_chars(s: &Vec<char>, from: usize, radix: u32) -> (r: Option<u8>)
    requires
        radix == 10 || radix == 16,
        from <= s@.len(),
    ensures
        r == parse_u8_spec(s@.subrange(from as int, s@.len() as int), radix as nat),
{
    let ghost whole = s@.subrange(from as int, s@.len() as int);
    let mut i: usize = from;
    if i < s.len() && s[i] == '+' {
        i = i + 1;
    }
    let ghost body = s@.subrange(i as int, s@.len() as int);
    assert(body =~= (if whole.len() > 0 && whole[0] == '+' {
        whole.drop_first()
    } else {
        whole
    }));
    if i == s.len() {
        return None;
    }
    let start = i;
    // `acc` is the value read so far, capped at 256.
    let mut acc: u32 = 0;
    while i < s.len()
        invariant
            radix == 10 || radix == 16,
            start <= i <= s@.len(),
            body == s@.subrange(start as int, s@.len() as int),
            body.len() > 0,
            whole == s@.subrange(from as int, s@.len() as int),
            body == (if whole.len() > 0 && whole[0] == '+' {
                whole.drop_first()
            } else {
                whole
            }),
            digits_value(s@.subrange(start as int, i as int), radix as nat).is_some(),
            acc == (if digits_value(s@.subrange(start as int, i as int), radix as nat).unwrap()
                <= 255 {
                digits_value(s@.subrange(start as int, i as int), radix as nat).unwrap()
            } else {
                256
            }),
        decreases s@.len() - i,
    {
        let ghost prefix = s@.subrange(start as int, i as int);
        let ghost next = s@.subrange(start as int, i + 1);
        assert(next.drop_last() =~= prefix);
        assert(next.last() == s@[i as int]);
        match digit_of(s[i], radix) {
            Some(d) => {
                let ghost a = digits_value(prefix, radix as nat).unwrap();
                let ghost v = a * radix + d;
                assert(digits_value(next, radix as nat) == Some(v as nat));
                let t: u32 = acc * radix + d;
                acc = if t > 255 {
                    256
                } else {
                    t
                };
                assert(acc == (if v <= 255 {
                    v
                } else {
                    256
                })) by (nonlinear_arith)
                    requires
                        radix >= 10,
                        d < radix,
                        acc == (if t > 255 {
                            256
                        } else {
                            t
                        }),
                        t == (if a <= 255 {
                            a
                        } else {
                            256
                        }) * radix + d,
                        v == a * radix + d,
                        a >= 0,
                ;
            },
            None => {
                proof {
                    assert(body[i - start] == s@[i as int]);
                    lemma_invalid_digit_poisons(body, (i - start) as int, radix as nat);
                }
                return None;
            },
        }
        i = i + 1;
    }
    assert(s@.subrange(start as int, i as int) =~= body);
    if acc <= 255 {
        Some(acc as u8)
    } else {
        None
    }
}

/// A non-digit at position `k` makes the whole string unreadable.
proof fn lemma_invalid_digit_poisons(s: Seq<char>, k: int, radix: nat)
    requires
        0 <= k < s.len(),
        digit_value(s[k], radix).is_none(),
    ensures
        digits_value(s, radix).is_none(),
    decreases s.len(),
{
    if k < s.len() - 1 {
        lemma_invalid_digit_poisons(s.drop_last(), k, radix);
    }
}

pub open spec fn vector_override_spec(value: Option<&str>) -> Option<u8> {
    match value {
        Some(v) => {
            let t = trim_spec(v@);
            if t.len() == 0 {
                None
            } else if t.len() >= 2 && t[0] == '0' && (t[1] == 'x' || t[1] == 'X') {
                parse_u8_spec(t.subrange(2, t.len() as int), 16)
            } else {
                parse_u8_spec(t, 10)
            }
        },
        None => None,
    }
}

/// Vector to use for fixed PIC interrupts in place of the routed one: the
/// trimmed setting read as hexadecimal after "0x" or "0X", else as decimal;
/// `None` when unset, empty or not a byte.
pub fn pic_fixed_vector_override_from_value(value: Option<&str>) -> (r: Option<u8>)
    ensures
        r == vector_override_spec(value),
{
    match value {
        Some(v) => {
            let t = chars_of(trim_to_string(v).as_str());
            if t.len() == 0 {
                None
            } else if t.len() >= 2 && t[0] == '0' && (t[1] == 'x' || t[1] == 'X') {
                parse_u8_chars(&t, 2, 16)
            } else {
                let r = parse_u8_chars(&t, 0, 10);
                assert(t@.subrange(0, t@.len() as int) =~= t@);
                r
            }
        },
        None => None,
    }
}

/// Text appended to the kernel command line: the trimmed setting, if not
/// empty.
pub fn windows_kernel_cmdline_append_from_value(value: Option<&str>) -> (r: Option<String>)
    ensures
        value.is_none() ==> r.is_none(),
        value.is_some() ==> (r.is_some() <==> trim_spec(value.unwrap()@).len() > 0),
        r.is_some() ==> r.unwrap()@ == trim_spec(value.unwrap()@),
{
    match value {
        Some(v) => {
            let t = trim_to_string(v);
            if t.as_str().unicode_len() == 0 {
                None
            } else {
                Some(t)
            }
        },
        None => None,
    }
}

/// MMIO addresses whose accesses are always traced: the 16 MiB window at
/// 0xd000_0000 and the I/O APIC through local APIC range.
pub fn should_log_mmio_gpa(gpa: u64) -> (b: bool)
    ensures
        b == ((0xd000_0000 <= gpa <= 0xd0ff_ffff) || (0xfec0_0000 <= gpa <= 0xfee0_0fff)),
{
    (0xd000_0000 <= gpa && gpa <= 0xd0ff_ffff) || (0xfec0_0000 <= gpa && gpa <= 0xfee0_0fff)
}

/// I/O ports whose accesses are always traced: the PICs, the PIT, the
/// speaker port and PCI configuration.
pub fn should_always_log_io_port(port: u16) -> (b: bool)
    ensures
        b == (port == 0x20 || port == 0x21 || port == 0xa0 || port == 0xa1 || port == 0x40 || port
            == 0x41 || port == 0x42 || port == 0x43 || port == 0x61 || port == 0xcf8 || port
            == 0xcfc),
{
    port == 0x20 || port == 0x21 || port == 0xa0 || port == 0xa1 || port == 0x40 || port == 0x41
        || port == 0x42 || port == 0x43 || port == 0x61 || port == 0xcf8 || port == 0xcfc
}

/// The trace line of a VM exit: its kind, RIP in hexadecimal and any
/// extra detail; the caller writes it to the I/O trace when tracing is on.
pub fn windows_exit_debug_log(kind: &str, rip: u64, extra: &str) -> (line: String)
    ensures
        line@ == "[EXIT] kind="@ + kind@ + " rip=0x"@ + radix_digits(rip as nat, 16) + " "@ + extra@,
{
    let mut line = String::from_str("[EXIT] kind=");
    line.append(kind);
    line.append(" rip=0x");
    let hex = format_radix(rip, 16, 0);
    line.append(hex.as_str());
    line.append(" ");
    line.append(extra);
    line
}

proof fn lemma_digit_roundtrip(d: nat, radix: nat)
    requires
        d < radix,
        radix == 10 || radix == 16,
    ensures
        digit_value(digit_char(d), radix) == Some(d),
{
}

/// Reading back the digits a number is written with gives the number:
/// formatting and parsing agree in bases 10 and 16.
pub proof fn lemma_digits_roundtrip(v: nat, radix: nat)
    requires
        radix == 10 || radix == 16,
    ensures
        digits_value(radix_digits(v, radix), radix) == Some(v),
    decreases v,
{
    if v < radix {
        lemma_digit_roundtrip(v, radix);
        assert(seq![digit_char(v)].drop_last() =~= Seq::<char>::empty());
        assert(digits_value(Seq::<char>::empty(), radix) == Some(0nat));
        assert(radix_digits(v, radix) == seq![digit_char(v)]);
    } else {
        let q = v / radix;
        let r = v % radix;
        assert(q < v && q * radix + r == v && r < radix) by (nonlinear_arith)
            requires
                radix >= 10,
                v >= radix,
                q == v / radix,
                r == v % radix,
        ;
        lemma_digits_roundtrip(q, radix);
        lemma_digit_roundtrip(r, radix);
        let s = radix_digits(q, radix).push(digit_char(r));
        assert(s.drop_last() =~= radix_digits(q, radix));
        assert(radix_digits(v, radix) == s);
        assert(s.last() == digit_char(r));
        assert(digits_value(s, radix) == Some((q * radix + r) as nat));
    }
}

} // verus!
