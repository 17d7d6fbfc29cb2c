//! Decisions of the vCPU thread when it delivers queued PIC interrupts:
//! whether to inject now, what register value or hypervisor request delivers
//! an interrupt, what a failed delivery leads to, and the decoding of local
//! APIC state and of INIT/SIPI interrupt command words.

use vstd::prelude::*;
use crate::irq::{
    PendingInterrupt, PendingInterruptQueue, queued_irq, InterruptControl, InterruptSlots, control_bitfield_spec,
    make_whpx_interrupt_control_bitfield, DESTINATION_MODE_PHYSICAL, DESTINATION_MODE_LOGICAL,
    TRIGGER_MODE_EDGE, INTERRUPT_TYPE_FIXED, INTERRUPT_TYPE_LOWEST_PRIORITY, INTERRUPT_TYPE_NMI,
    INTERRUPT_TYPE_LOCAL_INT1, INTERRUPT_TYPE_INIT, INTERRUPT_TYPE_SIPI,
};

verus! {

/// Byte offsets of xAPIC registers in the interrupt-controller state page.
pub const XAPIC_ID_OFFSET: usize = 0x020;

pub const XAPIC_LDR_OFFSET: usize = 0x0D0;

/// `WHV_X64_PENDING_EVENT_TYPE` of an external interrupt.
pub const PENDING_EVENT_EXT_INT: u64 = 5;

/// HRESULT the hypervisor returns when an interrupt slot is occupied.
pub const WHV_E_INTERRUPT_SLOT_BUSY: u32 = 0xc035_0005;

#[derive(Clone, Copy, Debug, PartialEq, Eq, Structural)]
pub enum PicFixedInjectionMode {
    RequestInterrupt,
    PendingInterruption,
}

#[derive(Clone, Copy, Debug, PartialEq, Eq, Structural)]
pub enum PicFixedBuilderDirectMode {
    PendingInterruption,
    PendingEventExtInt,
}

/// Where fixed-vector PIC interrupts are sent.
#[derive(Clone, Copy, Debug, PartialEq, Eq, Structural)]
pub enum PicFixedTarget {
    PhysicalZero,
    PhysicalApicId,
    PhysicalOne,
    PhysicalBroadcast,
    LogicalLdr,
    LogicalBroadcast,
}

#[derive(Clone, Copy, Debug, PartialEq, Eq, Structural)]
pub enum PicFixedRequestInterruptType {
    Fixed,
    LowestPriority,
    Nmi,
    LocalInt1,
}

pub open spec fn le_u32_at(s: Seq<u8>, offset: int) -> u32 {
    (s[offset] + 0x100 * s[offset + 1] + 0x1_0000 * s[offset + 2] + 0x100_0000 * s[offset + 3]) as u32
}

/// The little-endian 32-bit value at `offset`, if four bytes are there.
pub fn read_u32_le(buf: &[u8], offset: usize) -> (v: Option<u32>)
    requires
        offset <= usize::MAX - 4,
    ensures
        offset + 4 <= buf@.len() ==> v == Some(le_u32_at(buf@, offset as int)),
        offset + 4 > buf@.len() ==> v.is_none(),
{
    if offset + 4 > buf.len() {
        return None;
    }
    let v: u32 = (buf[offset] as u32) + (buf[offset + 1] as u32) * 0x100 + (buf[offset + 2] as u32)
        * 0x1_0000 + (buf[offset + 3] as u32) * 0x100_0000;
    Some(v)
}

/// Stores `value` little-endian at `offset`; false (and no change) if the
/// four bytes do not fit.
pub fn write_u32_le(buf: &mut [u8], offset: usize, value: u32) -> (ok: bool)
    requires
        offset <= usize::MAX - 4,
    ensures
        ok == (offset + 4 <= old(buf)@.len()),
        final(buf)@.len() == old(buf)@.len(),
        ok ==> le_u32_at(final(buf)@, offset as int) == value,
        ok ==> forall|i: int|
            0 <= i < final(buf)@.len() && !(offset <= i < offset + 4) ==> final(buf)@[i] == old(
                buf,
            )@[i],
        !ok ==> final(buf)@ == old(buf)@,
{
    if offset + 4 > buf.len() {
        return false;
    }
    let w0: u32 = value & 0xff;
    let w1: u32 = (value >> 8u32) & 0xff;
    let w2: u32 = (value >> 16u32) & 0xff;
    let w3: u32 = (value >> 24u32) & 0xff;
    assert(w0 + 0x100 * w1 + 0x1_0000 * w2 + 0x100_0000 * w3 == value && w0 < 0x100 && w1 < 0x100
        && w2 < 0x100 && w3 < 0x100) by (bit_vector)
        requires
            w0 == value & 0xff,
            w1 == (value >> 8u32) & 0xff,
            w2 == (value >> 16u32) & 0xff,
            w3 == (value >> 24u32) & 0xff,
    ;
    buf[offset] = w0 as u8;
    buf[offset + 1] = w1 as u8;
    buf[offset + 2] = w2 as u8;
    buf[offset + 3] = w3 as u8;
    true
}

/// Destination chosen for fixed-vector PIC interrupts from the local APIC's
/// ID and logical destination registers.
#[derive(Clone, Copy, Debug, PartialEq, Eq, Structural)]
pub struct ApicDestination {
    pub apic_id_raw: u32,
    pub ldr_raw: u32,
    pub destination_mode: u32,
    pub destination: u32,
    pub target: PicFixedTarget,
}

pub open spec fn top_byte(v: u32) -> u32 {
    v / 0x100_0000
}

pub open spec fn target_destination(target: PicFixedTarget, apic_id_raw: u32, ldr_raw: u32) -> (u32, u32) {
    match target {
        PicFixedTarget::PhysicalZero => (DESTINATION_MODE_PHYSICAL, 0u32),
        PicFixedTarget::PhysicalApicId => (DESTINATION_MODE_PHYSICAL, top_byte(apic_id_raw)),
        PicFixedTarget::PhysicalOne => (DESTINATION_MODE_PHYSICAL, 1u32),
        PicFixedTarget::PhysicalBroadcast => (DESTINATION_MODE_PHYSICAL, 0xffu32),
        PicFixedTarget::LogicalLdr => (DESTINATION_MODE_LOGICAL, top_byte(ldr_raw)),
        PicFixedTarget::LogicalBroadcast => (DESTINATION_MODE_LOGICAL, 0xffu32),
    }
}

/// Computes the destination for `target` from the interrupt-controller state
/// page: the APIC ID and LDR registers hold their value in the top byte.
/// `None` when the page is too short to hold both registers.
pub fn apic_destination(apic_state: &[u8], target: PicFixedTarget) -> (d: Option<ApicDestination>)
    ensures
        apic_state@.len() >= XAPIC_LDR_OFFSET + 4 ==> d == Some(
            ApicDestination {
                apic_id_raw: le_u32_at(apic_state@, XAPIC_ID_OFFSET as int),
                ldr_raw: le_u32_at(apic_state@, XAPIC_LDR_OFFSET as int),
                destination_mode: target_destination(
                    target,
                    le_u32_at(apic_state@, XAPIC_ID_OFFSET as int),
                    le_u32_at(apic_state@, XAPIC_LDR_OFFSET as int),
                ).0,
                destination: target_destination(
                    target,
                    le_u32_at(apic_state@, XAPIC_ID_OFFSET as int),
                    le_u32_at(apic_state@, XAPIC_LDR_OFFSET as int),
                ).1,
                target,
            },
        ),
        apic_state@.len() < XAPIC_LDR_OFFSET + 4 ==> d.is_none(),
{
    let apic_id_raw = match read_u32_le(apic_state, XAPIC_ID_OFFSET) {
        Some(v) => v,
        None => {
            return None;
        },
    };
    let ldr_raw = match read_u32_le(apic_state, XAPIC_LDR_OFFSET) {
        Some(v) => v,
        None => {
            return None;
        },
    };
    let apic_id = (apic_id_raw >> 24u32) & 0xff;
    let ldr = (ldr_raw >> 24u32) & 0xff;
    assert(apic_id == apic_id_raw / 0x100_0000 && ldr == ldr_raw / 0x100_0000) by (bit_vector)
        requires
            apic_id == (apic_id_raw >> 24u32) & 0xff,
            ldr == (ldr_raw >> 24u32) & 0xff,
    ;
    let (destination_mode, destination) = match target {
        PicFixedTarget::PhysicalZero => (DESTINATION_MODE_PHYSICAL, 0),
        PicFixedTarget::PhysicalApicId => (DESTINATION_MODE_PHYSICAL, apic_id),
        PicFixedTarget::PhysicalOne => (DESTINATION_MODE_PHYSICAL, 1),
        PicFixedTarget::PhysicalBroadcast => (DESTINATION_MODE_PHYSICAL, 0xff),
        PicFixedTarget::LogicalLdr => (DESTINATION_MODE_LOGICAL, ldr),
        PicFixedTarget::LogicalBroadcast => (DESTINATION_MODE_LOGICAL, 0xff),
    };
    Some(ApicDestination { apic_id_raw, ldr_raw, destination_mode, destination, target })
}

/// Whether the vCPU thread may try to inject now, and what it does otherwise.
#[derive(Clone, Copy, Debug, PartialEq, Eq, Structural)]
pub enum InjectGate {
    /// Interrupts are masked: wait, optionally arming the interrupt-window
    /// notification for this interrupt.
    Deferred { arm_window_for: Option<PendingInterrupt> },
    /// An interrupt slot of the vCPU is still occupied.
    SlotBusy,
    /// Pop the queue and inject.
    Proceed,
}

pub open spec fn inject_gate_spec(
    front: Option<PendingInterrupt>,
    depth: usize,
    can_inject_now: bool,
    fixed_mode: PicFixedInjectionMode,
    arm_on_if_cleared: bool,
    slots: Option<InterruptSlots>,
) -> InjectGate {
    let fixed_override = (front matches Some(PendingInterrupt::PicFixed { .. })) && fixed_mode
        == PicFixedInjectionMode::PendingInterruption;
    if !can_inject_now && !fixed_override {
        InjectGate::Deferred {
            arm_window_for: if depth != 0 && arm_on_if_cleared {
                front
            } else {
                None
            },
        }
    } else if slots.is_some() && (slots.unwrap().pending_interrupt_busy
        || slots.unwrap().pending_event_busy) {
        InjectGate::SlotBusy
    } else {
        InjectGate::Proceed
    }
}

/// Decides whether queued PIC interrupts can be injected: with interrupts
/// masked (RFLAGS.IF clear) only a fixed interrupt in pending-interruption
/// mode may go ahead; a busy interrupt slot (when the slots could be read)
/// defers injection.
pub fn inject_gate(
    front: Option<PendingInterrupt>,
    depth: usize,
    can_inject_now: bool,
    fixed_mode: PicFixedInjectionMode,
    arm_on_if_cleared: bool,
    slots: Option<InterruptSlots>,
) -> (g: InjectGate)
    ensures
        g == inject_gate_spec(front, depth, can_inject_now, fixed_mode, arm_on_if_cleared, slots),
{
    let fixed_override = match front {
        Some(PendingInterrupt::PicFixed { .. }) => fixed_mode
            == PicFixedInjectionMode::PendingInterruption,
        _ => false,
    };
    if !can_inject_now && !fixed_override {
        return InjectGate::Deferred {
            arm_window_for: if depth != 0 && arm_on_if_cleared {
                front
            } else {
                None
            },
        };
    }
    match slots {
        Some(s) => {
            if s.pending_interrupt_busy || s.pending_event_busy {
                InjectGate::SlotBusy
            } else {
                InjectGate::Proceed
            }
        },
        None => InjectGate::Proceed,
    }
}

/// The register words that deliver a PIC interrupt, field by field: the
/// pending-event word has the valid bit, event type 5 (ExtINT) in bits 1..3
/// and the vector in bits 8..15; the pending-interruption word has the valid
/// bit and the vector in bits 16..23; the interrupt-window word sets bit 1
/// and the vector's priority class (its top four bits) in bits 2..5.
pub proof fn lemma_delivery_words(vector: u8)
    ensures
        ext_int_event_spec(vector) & 1 == 1,
        (ext_int_event_spec(vector) >> 1u64) & 7 == 5,
        (ext_int_event_spec(vector) >> 8u64) & 0xff == vector,
        ext_int_event_spec(vector) >> 16u64 == 0,
        pending_interruption_spec(vector) & 0xffff == 1,
        (pending_interruption_spec(vector) >> 16u64) & 0xff == vector,
        pending_interruption_spec(vector) >> 24u64 == 0,
        interrupt_window_spec(vector) & 3 == 2,
        (interrupt_window_spec(vector) >> 2u64) & 0xf == (vector >> 4u8),
        interrupt_window_spec(vector) >> 6u64 == 0,
{
    let v = vector as u64;
    let e = ext_int_event_spec(vector);
    let p = pending_interruption_spec(vector);
    let w = interrupt_window_spec(vector);
    assert(e == 1 + 10 + v * 0x100);
    assert(p == 1 + v * 0x1_0000);
    assert(w == 2 + (v / 16) * 4);
    assert(e & 1 == 1 && (e >> 1u64) & 7 == 5 && (e >> 8u64) & 0xff == v && e >> 16u64 == 0 && p
        & 0xffff == 1 && (p >> 16u64) & 0xff == v && p >> 24u64 == 0 && w & 3 == 2 && (w >> 2u64)
        & 0xf == v / 16 && w >> 6u64 == 0 && (vector >> 4u8) as u64 == v / 16) by (bit_vector)
        requires
            e == 1 + 10 + v * 0x100,
            p == 1 + v * 0x1_0000,
            w == 2 + (v / 16) * 4,
            v < 0x100,
            v == vector as u64,
    ;
}

/// Pending-event register value for an external interrupt with `vector`:
/// valid bit, event type ExtINT in bits 1..3, vector from bit 8.
pub open spec fn ext_int_event_spec(vector: u8) -> u64 {
    (1 + PENDING_EVENT_EXT_INT * 2 + (vector as u64) * 0x100) as u64
}

pub fn ext_int_event_bits(vector: u8) -> (bits: u64)
    ensures
        bits == ext_int_event_spec(vector),
{
    let v = vector as u64;
    let bits = 1u64 | (PENDING_EVENT_EXT_INT << 1u64) | (v << 8u64);
    assert(bits == 1 + 5 * 2 + v * 0x100) by (bit_vector)
        requires
            bits == 1u64 | (5u64 << 1u64) | (v << 8u64),
            v < 0x100,
    ;
    bits
}

/// Pending-interruption register value: valid bit and vector from bit 16.
pub open spec fn pending_interruption_spec(vector: u8) -> u64 {
    (1 + (vector as u64) * 0x1_0000) as u64
}

pub fn pending_interruption_bits(vector: u8) -> (bits: u64)
    ensures
        bits == pending_interruption_spec(vector),
{
    let v = vector as u64;
    let bits = 1u64 | (v << 16u64);
    assert(bits == 1 + v * 0x1_0000) by (bit_vector)
        requires
            bits == 1u64 | (v << 16u64),
            v < 0x100,
    ;
    bits
}

/// Deliverability-notification register value that arms the interrupt
/// window: bit 1 set and the vector's priority class in bits 2..5.
pub open spec fn interrupt_window_spec(vector: u8) -> u64 {
    (2 + ((vector / 16) as u64) * 4) as u64
}

pub fn interrupt_window_notification_bits(vector: u8) -> (bits: u64)
    ensures
        bits == interrupt_window_spec(vector),
{
    let priority = ((vector >> 4u8) as u64) & 0xf;
    let bits = (1u64 << 1u64) | (priority << 2u64);
    assert(priority == vector / 16) by (bit_vector)
        requires
            priority == ((vector >> 4u8) as u64) & 0xf,
    ;
    assert(bits == 2 + priority * 4) by (bit_vector)
        requires
            bits == (1u64 << 1u64) | (priority << 2u64),
            priority < 16,
    ;
    bits
}

pub open spec fn request_type_code(t: PicFixedRequestInterruptType) -> u32 {
    match t {
        PicFixedRequestInterruptType::Fixed => INTERRUPT_TYPE_FIXED,
        PicFixedRequestInterruptType::LowestPriority => INTERRUPT_TYPE_LOWEST_PRIORITY,
        PicFixedRequestInterruptType::Nmi => INTERRUPT_TYPE_NMI,
        PicFixedRequestInterruptType::LocalInt1 => INTERRUPT_TYPE_LOCAL_INT1,
    }
}

/// How a popped interrupt is delivered.
#[derive(Clone, Copy, Debug, PartialEq, Eq, Structural)]
pub enum Injection {
    /// Write this value to the pending-event register.
    PendingEvent { value: u64 },
    /// Write this value to the pending-interruption register.
    PendingInterruption { value: u64 },
    /// Post this interrupt request.
    Request { control: InterruptControl },
}

pub open spec fn injection_spec(
    pending: PendingInterrupt,
    fixed_mode: PicFixedInjectionMode,
    builder_mode: PicFixedBuilderDirectMode,
    request_type: PicFixedRequestInterruptType,
    destination: Option<ApicDestination>,
    vector_override: Option<u8>,
) -> Injection {
    match pending {
        PendingInterrupt::PicExtInt { vector, .. } => Injection::PendingEvent {
            value: ext_int_event_spec(vector),
        },
        PendingInterrupt::PicFixed { vector, .. } => match fixed_mode {
            PicFixedInjectionMode::RequestInterrupt => {
                let (mode, dest) = match destination {
                    Some(d) => (d.destination_mode, d.destination),
                    None => (DESTINATION_MODE_PHYSICAL, 0u32),
                };
                Injection::Request {
                    control: InterruptControl {
                        bitfield: control_bitfield_spec(request_type_code(request_type), mode, TRIGGER_MODE_EDGE),
                        destination: dest,
                        vector: match vector_override {
                            Some(v) => v as u32,
                            None => vector as u32,
                        },
                    },
                }
            },
            PicFixedInjectionMode::PendingInterruption => if builder_mode
                == PicFixedBuilderDirectMode::PendingEventExtInt {
                Injection::PendingEvent { value: ext_int_event_spec(vector) }
            } else {
                Injection::PendingInterruption { value: pending_interruption_spec(vector) }
            },
        },
    }
}

/// The delivery of a popped interrupt: an ExtINT goes to the pending-event
/// register; a fixed interrupt is requested from the hypervisor (to the APIC
/// destination, with the vector override if one is configured), or written to
/// the pending-event or pending-interruption register with its own vector.
pub fn injection_for(
    pending: PendingInterrupt,
    fixed_mode: PicFixedInjectionMode,
    builder_mode: PicFixedBuilderDirectMode,
    request_type: PicFixedRequestInterruptType,
    destination: Option<ApicDestination>,
    vector_override: Option<u8>,
) -> (inj: Injection)
    ensures
        inj == injection_spec(pending, fixed_mode, builder_mode, request_type, destination, vector_override),
{
    match pending {
        PendingInterrupt::PicExtInt { vector, .. } => Injection::PendingEvent {
            value: ext_int_event_bits(vector),
        },
        PendingInterrupt::PicFixed { vector, .. } => match fixed_mode {
            PicFixedInjectionMode::RequestInterrupt => {
                let (mode, dest) = match destination {
                    Some(d) => (d.destination_mode, d.destination),
                    None => (DESTINATION_MODE_PHYSICAL, 0u32),
                };
                let type_code = match request_type {
                    PicFixedRequestInterruptType::Fixed => INTERRUPT_TYPE_FIXED,
                    PicFixedRequestInterruptType::LowestPriority => INTERRUPT_TYPE_LOWEST_PRIORITY,
                    PicFixedRequestInterruptType::Nmi => INTERRUPT_TYPE_NMI,
                    PicFixedRequestInterruptType::LocalInt1 => INTERRUPT_TYPE_LOCAL_INT1,
                };
                let effective_vector = match vector_override {
                    Some(v) => v,
                    None => vector,
                };
                Injection::Request {
                    control: InterruptControl {
                        bitfield: make_whpx_interrupt_control_bitfield(
                            type_code,
                            mode,
                            TRIGGER_MODE_EDGE,
                        ),
                        destination: dest,
                        vector: effective_vector as u32,
                    },
                }
            },
            PicFixedInjectionMode::PendingInterruption => {
                if builder_mode == PicFixedBuilderDirectMode::PendingEventExtInt {
                    Injection::PendingEvent { value: ext_int_event_bits(vector) }
                } else {
                    Injection::PendingInterruption { value: pending_interruption_bits(vector) }
                }
            },
        },
    }
}

/// What a failed delivery leads to (the interrupt is re-queued first).
#[derive(Clone, Copy, Debug, PartialEq, Eq, Structural)]
pub enum InjectFailure {
    /// Report "not injected" and retry later.
    Deferred,
    /// Report an error.
    Failed,
}

pub open spec fn injection_failure_spec(pending: PendingInterrupt, hresult: u32, post_slots: Option<
    InterruptSlots,
>) -> InjectFailure {
    if (pending is PicExtInt) && hresult == WHV_E_INTERRUPT_SLOT_BUSY && post_slots.is_some() && (
    post_slots.unwrap().pending_interrupt_busy || post_slots.unwrap().pending_event_busy) {
        InjectFailure::Deferred
    } else {
        InjectFailure::Failed
    }
}

/// An ExtINT rejected with "slot busy" while the re-read state shows a busy
/// slot is deferred; every other failure is an error.
pub fn injection_failure_outcome(pending: PendingInterrupt, hresult: u32, post_slots: Option<
    InterruptSlots,
>) -> (o: InjectFailure)
    ensures
        o == injection_failure_spec(pending, hresult, post_slots),
{
    match pending {
        PendingInterrupt::PicExtInt { .. } => {
            if hresult == WHV_E_INTERRUPT_SLOT_BUSY {
                match post_slots {
                    Some(s) => if s.pending_interrupt_busy || s.pending_event_busy {
                        InjectFailure::Deferred
                    } else {
                        InjectFailure::Failed
                    },
                    None => InjectFailure::Failed,
                }
            } else {
                InjectFailure::Failed
            }
        },
        PendingInterrupt::PicFixed { .. } => InjectFailure::Failed,
    }
}

/// The head of a queue, if any.
pub open spec fn queue_front(s: Seq<PendingInterrupt>) -> Option<PendingInterrupt> {
    if s.len() == 0 {
        None
    } else {
        Some(s[0])
    }
}

/// Decides from the head and depth of `queue` whether to inject now and,
/// when it may, takes the head of the queue for delivery.
pub fn take_for_injection(
    queue: &mut PendingInterruptQueue,
    can_inject_now: bool,
    fixed_mode: PicFixedInjectionMode,
    arm_on_if_cleared: bool,
    slots: Option<InterruptSlots>,
) -> (r: (InjectGate, Option<PendingInterrupt>))
    requires
        old(queue).wf(),
    ensures
        r.0 == inject_gate_spec(
            queue_front(old(queue)@),
            old(queue)@.len() as usize,
            can_inject_now,
            fixed_mode,
            arm_on_if_cleared,
            slots,
        ),
        r.0 is Proceed ==> r.1 == queue_front(old(queue)@) && final(queue)@ == (if old(queue)@.len()
            == 0 {
            old(queue)@
        } else {
            old(queue)@.drop_first()
        }),
        !(r.0 is Proceed) ==> r.1.is_none() && final(queue)@ == old(queue)@,
        final(queue).wf(),
{
    let front = queue.front();
    let depth = queue.len();
    let gate = inject_gate(front, depth, can_inject_now, fixed_mode, arm_on_if_cleared, slots);
    match gate {
        InjectGate::Proceed => {
            let p = queue.pop_front();
            (gate, p)
        },
        _ => (gate, None),
    }
}

/// Settles the delivery of `pending`, just taken from the head of `queue`:
/// a delivered interrupt is gone; one whose delivery the hypervisor refused
/// with `hresult` goes back to the head of the queue, and the failure is
/// classified from the slots read back afterwards.
pub fn settle_injection(
    queue: &mut PendingInterruptQueue,
    pending: PendingInterrupt,
    delivered: Result<(), u32>,
    post_slots: Option<InterruptSlots>,
) -> (o: Option<InjectFailure>)
    ensures
        delivered is Ok ==> o.is_none() && final(queue)@ == old(queue)@,
        delivered matches Err(hresult) ==> {
            &&& final(queue)@ == seq![pending] + old(queue)@
            &&& o == Some(injection_failure_spec(pending, hresult, post_slots))
        },
        old(queue).wf() && !queued_irq(old(queue)@, pending.irq_spec()) ==> final(queue).wf(),
{
    match delivered {
        Ok(()) => None,
        Err(hresult) => {
            queue.push_front(pending);
            Some(injection_failure_outcome(pending, hresult, post_slots))
        },
    }
}

/// Whether a canceled run should report the vCPU as halted: the pending-event
/// slot is busy (bit 0 of its low word) and the activity state is HLT (bit 1).
pub fn pending_event_busy_and_halted(pending_event_low: u64, internal_activity: u64) -> (b: bool)
    ensures
        b == (pending_event_low % 2 == 1 && crate::irq::activity_halted(internal_activity)),
{
    let busy = (pending_event_low & 1) != 0;
    assert(((pending_event_low & 1) != 0) == (pending_event_low % 2 == 1)) by (bit_vector);
    busy && crate::irq::is_halted_activity(internal_activity)
}

/// The INIT or SIPI request encoded in a local APIC interrupt command word:
/// vector in bits 0..7, delivery mode in bits 8..10 (0b101 INIT, 0b110 SIPI;
/// others are ignored), logical destination mode if bit 11, destination in
/// bits 56..63; always edge-triggered.
pub open spec fn init_sipi_spec(icr: u64) -> Option<InterruptControl> {
    let delivery = (icr / 0x100) % 8;
    let logical = (icr / 0x800) % 2 == 1;
    if delivery == 5 || delivery == 6 {
        Some(
            InterruptControl {
                bitfield: control_bitfield_spec(
                    if delivery == 5 {
                        INTERRUPT_TYPE_INIT
                    } else {
                        INTERRUPT_TYPE_SIPI
                    },
                    if logical {
                        DESTINATION_MODE_LOGICAL
                    } else {
                        DESTINATION_MODE_PHYSICAL
                    },
                    TRIGGER_MODE_EDGE,
                ),
                destination: (icr / 0x100_0000_0000_0000) as u32,
                vector: (icr % 0x100) as u32,
            },
        )
    } else {
        None
    }
}

/// An interrupt command with delivery mode 0b101 (bits 8..10) is an INIT
/// request (type 5) and one with 0b110 a SIPI request (type 6); both are
/// edge-triggered, keep the command's vector (bits 0..7), destination
/// (bits 56..63) and destination mode (bit 11); every other delivery mode is
/// not emulated.
pub proof fn lemma_init_sipi_types(icr: u64)
    ensures
        (icr / 0x100) % 8 != 5 && (icr / 0x100) % 8 != 6 ==> init_sipi_spec(icr).is_none(),
        (icr / 0x100) % 8 == 5 || (icr / 0x100) % 8 == 6 ==> (init_sipi_spec(icr) matches Some(c)
            && c.bitfield & 0xff == (if (icr / 0x100) % 8 == 5 { 5u64 } else { 6u64 }) && (c.bitfield
            >> 12u64) & 0xf == 0 && (c.bitfield >> 8u64) & 0xf == (icr / 0x800) % 2 && c.vector == icr
            % 0x100 && c.destination == icr / 0x100_0000_0000_0000),
{
    let delivery = (icr / 0x100) % 8;
    let logical = (icr / 0x800) % 2 == 1;
    if delivery == 5 || delivery == 6 {
        crate::irq::lemma_control_bitfield_fields(
            if delivery == 5 { 5 } else { 6 },
            if logical { 1 } else { 0 },
            0,
        );
    }
}

pub fn decode_init_sipi(icr: u64) -> (c: Option<InterruptControl>)
    ensures
        c == init_sipi_spec(icr),
{
    let vector64 = icr & 0xff;
    let delivery64 = (icr >> 8u64) & 0x7;
    let logical = ((icr >> 11u64) & 0x1) != 0;
    let dest64 = (icr >> 56u64) & 0xff;
    assert(vector64 == icr % 0x100 && delivery64 == (icr / 0x100) % 8 && logical == ((icr / 0x800)
        % 2 == 1) && dest64 == icr / 0x100_0000_0000_0000) by (bit_vector)
        requires
            vector64 == icr & 0xff,
            delivery64 == (icr >> 8u64) & 0x7,
            logical == (((icr >> 11u64) & 0x1) != 0),
            dest64 == (icr >> 56u64) & 0xff,
    ;
    let interrupt_type = if delivery64 == 5 {
        INTERRUPT_TYPE_INIT
    } else if delivery64 == 6 {
        INTERRUPT_TYPE_SIPI
    } else {
        return None;
    };
    let mode = if logical {
        DESTINATION_MODE_LOGICAL
    } else {
        DESTINATION_MODE_PHYSICAL
    };
    Some(
        InterruptControl {
            bitfield: make_whpx_interrupt_control_bitfield(interrupt_type, mode, TRIGGER_MODE_EDGE),
            destination: dest64 as u32,
            vector: vector64 as u32,
        },
    )
}

} // verus!
