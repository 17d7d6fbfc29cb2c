//! Interrupt routing for the WHPX interrupt controller: resolving an IRQ line
//! to an I/O APIC route, a PIC ExtINT request or a fixed fallback vector;
//! encoding hypervisor interrupt requests; and the queue of PIC interrupts
//! awaiting delivery by the vCPU thread.

use vstd::prelude::*;
use std::collections::VecDeque;

verus! {

/// `WHV_INTERRUPT_TYPE` values.
pub const INTERRUPT_TYPE_FIXED: u32 = 0;

pub const INTERRUPT_TYPE_LOWEST_PRIORITY: u32 = 1;

pub const INTERRUPT_TYPE_NMI: u32 = 2;

pub const INTERRUPT_TYPE_INIT: u32 = 5;

pub const INTERRUPT_TYPE_SIPI: u32 = 6;

pub const INTERRUPT_TYPE_LOCAL_INT1: u32 = 9;

/// `WHV_INTERRUPT_DESTINATION_MODE` values.
pub const DESTINATION_MODE_PHYSICAL: u32 = 0;

pub const DESTINATION_MODE_LOGICAL: u32 = 1;

/// `WHV_INTERRUPT_TRIGGER_MODE` values.
pub const TRIGGER_MODE_EDGE: u32 = 0;

pub const TRIGGER_MODE_LEVEL: u32 = 1;

/// A legacy PIC interrupt waiting for the vCPU thread to inject it.
#[derive(Clone, Copy, Debug, PartialEq, Eq, Structural)]
pub enum PendingInterrupt {
    PicExtInt { irq: u8, vector: u8 },
    PicFixed { irq: u8, vector: u8 },
}

impl PendingInterrupt {
    pub open spec fn irq_spec(self) -> u8 {
        match self {
            PendingInterrupt::PicExtInt { irq, .. } => irq,
            PendingInterrupt::PicFixed { irq, .. } => irq,
        }
    }

    pub open spec fn vector_spec(self) -> u8 {
        match self {
            PendingInterrupt::PicExtInt { vector, .. } => vector,
            PendingInterrupt::PicFixed { vector, .. } => vector,
        }
    }

    /// The PIC input line of this interrupt.
    pub fn irq(&self) -> (irq: u8)
        ensures
            irq == self.irq_spec(),
    {
        match self {
            PendingInterrupt::PicExtInt { irq, .. } => *irq,
            PendingInterrupt::PicFixed { irq, .. } => *irq,
        }
    }

    /// The vector the PIC assigned to this interrupt.
    pub fn vector(&self) -> (vector: u8)
        ensures
            vector == self.vector_spec(),
    {
        match self {
            PendingInterrupt::PicExtInt { vector, .. } => *vector,
            PendingInterrupt::PicFixed { vector, .. } => *vector,
        }
    }
}

/// Whether an entry for PIC line `irq` is in `s`.
pub open spec fn queued_irq(s: Seq<PendingInterrupt>, irq: u8) -> bool {
    exists|i: int| 0 <= i < s.len() && (#[trigger] s[i]).irq_spec() == irq
}

/// No two entries of `s` are for the same PIC line.
pub open spec fn distinct_irqs(s: Seq<PendingInterrupt>) -> bool {
    forall|i: int, j: int|
        0 <= i < s.len() && 0 <= j < s.len() && i != j ==> (#[trigger] s[i]).irq_spec() != (
        #[trigger] s[j]).irq_spec()
}

/// FIFO of PIC interrupts awaiting injection, shared between the interrupt
/// controller (producer) and the vCPU thread (consumer).
pub struct PendingInterruptQueue {
    queue: VecDeque<PendingInterrupt>,
}

impl View for PendingInterruptQueue {
    type V = Seq<PendingInterrupt>;

    closed spec fn view(&self) -> Seq<PendingInterrupt> {
        self.queue@
    }
}

impl PendingInterruptQueue {
    /// The invariant that enqueueing keeps: one entry per PIC line at most.
    pub open spec fn wf(&self) -> bool {
        distinct_irqs(self@)
    }

    pub fn new() -> (q: Self)
        ensures
            q@ == Seq::<PendingInterrupt>::empty(),
            q.wf(),
    {
        PendingInterruptQueue { queue: VecDeque::new() }
    }

    pub fn len(&self) -> (n: usize)
        ensures
            n == self@.len(),
    {
        self.queue.len()
    }

    pub fn is_empty(&self) -> (b: bool)
        ensures
            b == (self@.len() == 0),
    {
        self.queue.len() == 0
    }

    /// The entry that will be injected next.
    pub fn front(&self) -> (f: Option<PendingInterrupt>)
        ensures
            self@.len() == 0 ==> f.is_none(),
            self@.len() > 0 ==> f == Some(self@[0]),
    {
        if self.queue.len() == 0 {
            None
        } else {
            Some(self.queue[0])
        }
    }

    /// Whether an interrupt for PIC line `irq` is already waiting.
    pub fn contains_irq(&self, irq: u8) -> (b: bool)
        ensures
            b == queued_irq(self@, irq),
    {
        let mut i: usize = 0;
        while i < self.queue.len()
            invariant
                i <= self@.len(),
                forall|k: int| 0 <= k < i ==> (#[trigger] self@[k]).irq_spec() != irq,
            decreases self@.len() - i,
        {
            if self.queue[i].irq() == irq {
                return true;
            }
            i = i + 1;
        }
        false
    }

    /// Appends `pending` unless an interrupt for the same PIC line is already
    /// waiting; returns whether it was appended.
    pub fn push_unique(&mut self, pending: PendingInterrupt) -> (pushed: bool)
        requires
            old(self).wf(),
        ensures
            pushed == !queued_irq(old(self)@, pending.irq_spec()),
            pushed ==> final(self)@ == old(self)@.push(pending),
            !pushed ==> final(self)@ == old(self)@,
            final(self).wf(),
    {
        if self.contains_irq(pending.irq()) {
            false
        } else {
            self.queue.push_back(pending);
            proof {
                let s = self@;
                assert forall|i: int, j: int|
                    0 <= i < s.len() && 0 <= j < s.len() && i != j implies (#[trigger] s[i]).irq_spec()
                    != (#[trigger] s[j]).irq_spec() by {
                    if i == s.len() - 1 {
                        assert(old(self)@[j] == s[j]);
                    } else if j == s.len() - 1 {
                        assert(old(self)@[i] == s[i]);
                    }
                }
            }
            true
        }
    }

    /// Removes and returns the oldest waiting interrupt.
    pub fn pop_front(&mut self) -> (p: Option<PendingInterrupt>)
        requires
            old(self).wf(),
        ensures
            old(self)@.len() == 0 ==> p.is_none() && final(self)@ == old(self)@,
            old(self)@.len() > 0 ==> p == Some(old(self)@[0]) && final(self)@ == old(self)@.drop_first(),
            final(self).wf(),
    {
        let p = self.queue.pop_front();
        proof {
            if old(self)@.len() > 0 {
                let s = self@;
                assert(s =~= old(self)@.drop_first());
                assert forall|i: int, j: int|
                    0 <= i < s.len() && 0 <= j < s.len() && i != j implies (#[trigger] s[i]).irq_spec()
                    != (#[trigger] s[j]).irq_spec() by {
                    assert(s[i] == old(self)@[i + 1]);
                    assert(s[j] == old(self)@[j + 1]);
                }
            }
        }
        p
    }

    /// Puts an interrupt whose injection failed back at the head of the queue.
    pub fn push_front(&mut self, pending: PendingInterrupt)
        ensures
            final(self)@ == seq![pending] + old(self)@,
            old(self).wf() && !queued_irq(old(self)@, pending.irq_spec()) ==> final(self).wf(),
    {
        self.queue.push_front(pending);
        proof {
            let s = self@;
            assert(s =~= seq![pending] + old(self)@);
            if old(self).wf() && !queued_irq(old(self)@, pending.irq_spec()) {
                assert forall|i: int, j: int|
                    0 <= i < s.len() && 0 <= j < s.len() && i != j implies (#[trigger] s[i]).irq_spec()
                    != (#[trigger] s[j]).irq_spec() by {
                    if i == 0 {
                        assert(s[j] == old(self)@[j - 1]);
                    } else if j == 0 {
                        assert(s[i] == old(self)@[i - 1]);
                    } else {
                        assert(s[i] == old(self)@[i - 1]);
                        assert(s[j] == old(self)@[j - 1]);
                    }
                }
            }
        }
    }
}

/// Re-queueing the interrupt that was just popped restores the queue and
/// keeps one entry per PIC line.
pub proof fn lemma_pop_then_requeue(s: Seq<PendingInterrupt>)
    requires
        distinct_irqs(s),
        s.len() > 0,
    ensures
        seq![s[0]] + s.drop_first() == s,
        !queued_irq(s.drop_first(), s[0].irq_spec()),
{
    assert(seq![s[0]] + s.drop_first() =~= s);
    if queued_irq(s.drop_first(), s[0].irq_spec()) {
        let i = choose|i: int|
            0 <= i < s.drop_first().len() && (#[trigger] s.drop_first()[i]).irq_spec()
                == s[0].irq_spec();
        assert(s[i + 1] == s.drop_first()[i]);
        assert(s[0].irq_spec() != s[i + 1].irq_spec());
    }
}

/// Legacy ISA IRQ lines are remapped to interrupt vectors starting at 0x20.
pub fn irq_to_vector(irq_line: u32) -> (vector: u32)
    requires
        irq_line <= u32::MAX - 0x20,
    ensures
        vector == irq_line + 0x20,
{
    0x20 + irq_line
}

/// The redirection entry the I/O APIC model holds for an IRQ line.
#[derive(Clone, Copy, Debug, PartialEq, Eq, Structural)]
pub struct IoApicRoute {
    pub vector: u8,
    pub masked: bool,
    pub destination_mode_logical: bool,
    pub trigger_mode_level: bool,
    pub delivery_mode: u8,
    pub destination: u8,
}

/// How an IRQ line reaches the guest.
#[derive(Clone, Copy, Debug, PartialEq, Eq, Structural)]
#[allow(inconsistent_fields)]
pub enum WhpxInterruptRoute {
    IoApic {
        vector: u32,
        destination_mode: u32,
        trigger_mode: u32,
        interrupt_type: u32,
        destination: u32,
    },
    PicExtIntRequest { irq: u8, vector: u8 },
    FallbackFixed { vector: u32 },
    Unresolved,
}

pub open spec fn resolve_route_spec(irq_line: u32, ioapic: Option<IoApicRoute>, pic_vector: Option<u8>)
    -> WhpxInterruptRoute {
    if ioapic.is_some() && !ioapic.unwrap().masked && ioapic.unwrap().vector != 0 {
        let r = ioapic.unwrap();
        WhpxInterruptRoute::IoApic {
            vector: r.vector as u32,
            destination_mode: if r.destination_mode_logical {
                DESTINATION_MODE_LOGICAL
            } else {
                DESTINATION_MODE_PHYSICAL
            },
            trigger_mode: if r.trigger_mode_level {
                TRIGGER_MODE_LEVEL
            } else {
                TRIGGER_MODE_EDGE
            },
            interrupt_type: if r.delivery_mode == 1 {
                INTERRUPT_TYPE_LOWEST_PRIORITY
            } else {
                INTERRUPT_TYPE_FIXED
            },
            destination: r.destination as u32,
        }
    } else if irq_line < 16 {
        match pic_vector {
            Some(vector) => WhpxInterruptRoute::PicExtIntRequest { irq: irq_line as u8, vector },
            None => WhpxInterruptRoute::Unresolved,
        }
    } else {
        WhpxInterruptRoute::FallbackFixed { vector: (irq_line + 0x20) as u32 }
    }
}

/// Resolves the route of `irq_line` from the I/O APIC redirection entry for
/// it (if any) and the vector the PIC assigns to it (consulted for lines
/// below 16 only): an unmasked I/O APIC entry with a nonzero vector wins;
/// otherwise a PIC line is an ExtINT request, or unresolved if the PIC has no
/// vector for it; other lines get the fixed vector `0x20 + irq_line`.
pub fn resolve_interrupt_route(irq_line: u32, ioapic: Option<IoApicRoute>, pic_vector: Option<u8>)
    -> (route: WhpxInterruptRoute)
    requires
        irq_line <= u32::MAX - 0x20,
    ensures
        route == resolve_route_spec(irq_line, ioapic, pic_vector),
{
    if let Some(r) = ioapic {
        if !r.masked && r.vector != 0 {
            return WhpxInterruptRoute::IoApic {
                vector: r.vector as u32,
                destination_mode: if r.destination_mode_logical {
                    DESTINATION_MODE_LOGICAL
                } else {
                    DESTINATION_MODE_PHYSICAL
                },
                trigger_mode: if r.trigger_mode_level {
                    TRIGGER_MODE_LEVEL
                } else {
                    TRIGGER_MODE_EDGE
                },
                interrupt_type: if r.delivery_mode == 1 {
                    INTERRUPT_TYPE_LOWEST_PRIORITY
                } else {
                    INTERRUPT_TYPE_FIXED
                },
                destination: r.destination as u32,
            };
        }
    }
    if irq_line < 16 {
        return match pic_vector {
            Some(vector) => WhpxInterruptRoute::PicExtIntRequest { irq: irq_line as u8, vector },
            None => WhpxInterruptRoute::Unresolved,
        };
    }
    WhpxInterruptRoute::FallbackFixed { vector: irq_to_vector(irq_line) }
}

/// The control word of a hypervisor interrupt request: type in bits 0..7,
/// destination mode from bit 8, trigger mode from bit 12.
pub open spec fn control_bitfield_spec(interrupt_type: u32, destination_mode: u32, trigger_mode: u32) -> u64 {
    (interrupt_type as u64) | ((destination_mode as u64) << 8u64) | ((trigger_mode as u64) << 12u64)
}

pub fn make_whpx_interrupt_control_bitfield(
    interrupt_type: u32,
    destination_mode: u32,
    trigger_mode: u32,
) -> (bits: u64)
    ensures
        bits == control_bitfield_spec(interrupt_type, destination_mode, trigger_mode),
{
    (interrupt_type as u64) | ((destination_mode as u64) << 8u64) | ((trigger_mode as u64) << 12u64)
}

/// The fields of a control word read back: bits 0..7, 8..11 and 12..15 hold
/// the type, destination mode and trigger mode that were packed into it.
pub proof fn lemma_control_bitfield_fields(interrupt_type: u32, destination_mode: u32, trigger_mode: u32)
    requires
        interrupt_type < 0x100,
        destination_mode < 0x10,
        trigger_mode < 0x10,
    ensures
        control_bitfield_spec(interrupt_type, destination_mode, trigger_mode) & 0xff
            == interrupt_type,
        (control_bitfield_spec(interrupt_type, destination_mode, trigger_mode) >> 8u64) & 0xf
            == destination_mode,
        (control_bitfield_spec(interrupt_type, destination_mode, trigger_mode) >> 12u64) & 0xf
            == trigger_mode,
{
    let t = interrupt_type as u64;
    let d = destination_mode as u64;
    let g = trigger_mode as u64;
    assert(((t | (d << 8u64) | (g << 12u64)) & 0xff == t) && (((t | (d << 8u64) | (g << 12u64))
        >> 8u64) & 0xf == d) && (((t | (d << 8u64) | (g << 12u64)) >> 12u64) & 0xf == g))
        by (bit_vector)
        requires
            t < 0x100,
            d < 0x10,
            g < 0x10,
    ;
}

/// A hypervisor interrupt request: control word, destination and vector.
#[derive(Clone, Copy, Debug, PartialEq, Eq, Structural)]
pub struct InterruptControl {
    pub bitfield: u64,
    pub destination: u32,
    pub vector: u32,
}

pub open spec fn interrupt_control_spec(route: WhpxInterruptRoute, vcpu_count: u32) -> InterruptControl {
    match route {
        WhpxInterruptRoute::IoApic { vector, destination_mode, trigger_mode, interrupt_type, destination } => {
            let single_logical = vcpu_count == 1 && destination_mode == DESTINATION_MODE_LOGICAL;
            InterruptControl {
                bitfield: control_bitfield_spec(
                    interrupt_type,
                    if single_logical { DESTINATION_MODE_PHYSICAL } else { destination_mode },
                    trigger_mode,
                ),
                destination: if single_logical { 0 } else { destination },
                vector,
            }
        },
        WhpxInterruptRoute::PicExtIntRequest { vector, .. } => InterruptControl {
            bitfield: control_bitfield_spec(INTERRUPT_TYPE_FIXED, DESTINATION_MODE_PHYSICAL, TRIGGER_MODE_EDGE),
            destination: 0,
            vector: vector as u32,
        },
        WhpxInterruptRoute::FallbackFixed { vector } => InterruptControl {
            bitfield: control_bitfield_spec(INTERRUPT_TYPE_FIXED, DESTINATION_MODE_PHYSICAL, TRIGGER_MODE_EDGE),
            destination: 0,
            vector,
        },
        WhpxInterruptRoute::Unresolved => InterruptControl { bitfield: 0, destination: 0, vector: 0 },
    }
}

/// The request to post for a resolved route. With a single vCPU a logical
/// I/O APIC destination is normalized to physical destination 0; PIC and
/// fallback routes are edge-triggered fixed interrupts to APIC 0.
pub fn interrupt_control_for_route(route: WhpxInterruptRoute, vcpu_count: u32) -> (c: InterruptControl)
    requires
        !(route is Unresolved),
    ensures
        c == interrupt_control_spec(route, vcpu_count),
{
    match route {
        WhpxInterruptRoute::IoApic { vector, destination_mode, trigger_mode, interrupt_type, destination } => {
            let (mode, dest) = if vcpu_count == 1 && destination_mode == DESTINATION_MODE_LOGICAL {
                (DESTINATION_MODE_PHYSICAL, 0)
            } else {
                (destination_mode, destination)
            };
            InterruptControl {
                bitfield: make_whpx_interrupt_control_bitfield(interrupt_type, mode, trigger_mode),
                destination: dest,
                vector,
            }
        },
        WhpxInterruptRoute::PicExtIntRequest { vector, .. } => InterruptControl {
            bitfield: make_whpx_interrupt_control_bitfield(
                INTERRUPT_TYPE_FIXED,
                DESTINATION_MODE_PHYSICAL,
                TRIGGER_MODE_EDGE,
            ),
            destination: 0,
            vector: vector as u32,
        },
        WhpxInterruptRoute::FallbackFixed { vector } => InterruptControl {
            bitfield: make_whpx_interrupt_control_bitfield(
                INTERRUPT_TYPE_FIXED,
                DESTINATION_MODE_PHYSICAL,
                TRIGGER_MODE_EDGE,
            ),
            destination: 0,
            vector,
        },
        WhpxInterruptRoute::Unresolved => InterruptControl { bitfield: 0, destination: 0, vector: 0 },
    }
}

/// A request for an I/O APIC route carries the route's vector, interrupt
/// type (bits 0..7) and trigger mode (bits 12..15) unchanged; its destination
/// mode (bits 8..11) and destination are the route's, except that with a
/// single vCPU a logical destination becomes physical destination 0.
pub proof fn lemma_ioapic_request_fields(
    vector: u32,
    destination_mode: u32,
    trigger_mode: u32,
    interrupt_type: u32,
    destination: u32,
    vcpu_count: u32,
)
    requires
        interrupt_type < 0x100,
        destination_mode < 0x10,
        trigger_mode < 0x10,
    ensures
        ({
            let c = interrupt_control_spec(
                WhpxInterruptRoute::IoApic {
                    vector,
                    destination_mode,
                    trigger_mode,
                    interrupt_type,
                    destination,
                },
                vcpu_count,
            );
            let normalized = vcpu_count == 1 && destination_mode == 1;
            &&& c.bitfield & 0xff == interrupt_type
            &&& (c.bitfield >> 12u64) & 0xf == trigger_mode
            &&& (c.bitfield >> 8u64) & 0xf == (if normalized { 0 } else { destination_mode })
            &&& c.vector == vector
            &&& c.destination == (if normalized { 0 } else { destination })
        }),
{
    let normalized = vcpu_count == 1 && destination_mode == 1;
    lemma_control_bitfield_fields(
        interrupt_type,
        if normalized { 0 } else { destination_mode },
        trigger_mode,
    );
}

/// Raising a line that an unmasked I/O APIC entry with a vector routes posts
/// a request with that vector, level-triggered (1) exactly when the entry is
/// level-triggered, and of the lowest-priority type (1) exactly when the
/// entry's delivery mode is 1, else fixed (0).
pub proof fn lemma_ioapic_entry_request(
    irq_line: u32,
    entry: IoApicRoute,
    pic_vector: Option<u8>,
    force_pic_irq0_fixed: bool,
    vcpu_count: u32,
)
    requires
        !entry.masked,
        entry.vector != 0,
    ensures
        plan_irq_spec(
            Some(irq_line),
            resolve_route_spec(irq_line, Some(entry), pic_vector),
            force_pic_irq0_fixed,
            vcpu_count,
        ) matches IrqPlan::Request { control } && control.vector == entry.vector && (control.bitfield
            >> 12u64) & 0xf == (if entry.trigger_mode_level { 1u64 } else { 0u64 }) && control.bitfield
            & 0xff == (if entry.delivery_mode == 1 { 1u64 } else { 0u64 }),
{
    let route = resolve_route_spec(irq_line, Some(entry), pic_vector);
    if let WhpxInterruptRoute::IoApic { vector, destination_mode, trigger_mode, interrupt_type, destination } = route {
        lemma_ioapic_request_fields(vector, destination_mode, trigger_mode, interrupt_type, destination, vcpu_count);
    }
}

/// Raising a line that no unmasked I/O APIC entry with a vector routes: a
/// line of 16 or more is posted as an edge-triggered fixed interrupt with
/// vector 0x20 + line to physical APIC 0; a PIC line with a PIC vector is
/// queued as an ExtINT with that vector (line 0 as a fixed interrupt when
/// that is forced); a PIC line without a vector is unresolved, and only for
/// line 0 is a deferred interrupt replayed. No line at all is refused.
pub proof fn lemma_irq_plan_without_ioapic(
    line: u32,
    ioapic: Option<IoApicRoute>,
    pic_vector: Option<u8>,
    force_pic_irq0_fixed: bool,
    vcpu_count: u32,
)
    requires
        line <= u32::MAX - 0x20,
        ioapic matches Some(r) ==> r.masked || r.vector == 0,
    ensures
        ({
            let plan = plan_irq_spec(
                Some(line),
                resolve_route_spec(line, ioapic, pic_vector),
                force_pic_irq0_fixed,
                vcpu_count,
            );
            &&& line >= 16 ==> plan == (IrqPlan::Request {
                control: InterruptControl { bitfield: 0, destination: 0, vector: (line + 0x20) as u32 },
            })
            &&& line < 16 && pic_vector.is_some() ==> plan == (IrqPlan::QueuePic {
                pending: if line == 0 && force_pic_irq0_fixed {
                    PendingInterrupt::PicFixed { irq: 0, vector: pic_vector.unwrap() }
                } else {
                    PendingInterrupt::PicExtInt { irq: line as u8, vector: pic_vector.unwrap() }
                },
            })
            &&& line < 16 && pic_vector is None ==> plan == (IrqPlan::Unresolved {
                replay_deferred: line == 0,
            })
        }),
        plan_irq_spec(None, resolve_route_spec(line, ioapic, pic_vector), force_pic_irq0_fixed, vcpu_count)
            == IrqPlan::MissingLine,
{
    assert(control_bitfield_spec(0, 0, 0) == 0) by (bit_vector);
}

/// What raising an IRQ line leads to, before any hypervisor call.
#[derive(Clone, Copy, Debug, PartialEq, Eq, Structural)]
pub enum IrqPlan {
    /// No IRQ line was given: the request fails.
    MissingLine,
    /// Nothing routes the line yet; for line 0 a deferred PIC interrupt may be replayed.
    Unresolved { replay_deferred: bool },
    /// Queue a PIC interrupt for the vCPU thread.
    QueuePic { pending: PendingInterrupt },
    /// Post the request to the hypervisor.
    Request { control: InterruptControl },
}

pub open spec fn plan_irq_spec(
    irq_line: Option<u32>,
    route: WhpxInterruptRoute,
    force_pic_irq0_fixed: bool,
    vcpu_count: u32,
) -> IrqPlan {
    match irq_line {
        None => IrqPlan::MissingLine,
        Some(line) => match route {
            WhpxInterruptRoute::Unresolved => IrqPlan::Unresolved { replay_deferred: line == 0 },
            WhpxInterruptRoute::PicExtIntRequest { irq, vector } => if irq == 0
                && force_pic_irq0_fixed {
                IrqPlan::QueuePic { pending: PendingInterrupt::PicFixed { irq, vector } }
            } else {
                IrqPlan::QueuePic { pending: PendingInterrupt::PicExtInt { irq, vector } }
            },
            _ => IrqPlan::Request { control: interrupt_control_spec(route, vcpu_count) },
        },
    }
}

/// Decides how a raised IRQ line is delivered once its route is known: PIC
/// ExtINT routes go through the pending queue (as fixed-vector interrupts for
/// line 0 when `force_pic_irq0_fixed`), other resolved routes become a direct
/// hypervisor request.
pub fn plan_irq(
    irq_line: Option<u32>,
    route: WhpxInterruptRoute,
    force_pic_irq0_fixed: bool,
    vcpu_count: u32,
) -> (plan: IrqPlan)
    ensures
        plan == plan_irq_spec(irq_line, route, force_pic_irq0_fixed, vcpu_count),
{
    match irq_line {
        None => IrqPlan::MissingLine,
        Some(line) => match route {
            WhpxInterruptRoute::Unresolved => IrqPlan::Unresolved { replay_deferred: line == 0 },
            WhpxInterruptRoute::PicExtIntRequest { irq, vector } => {
                if irq == 0 && force_pic_irq0_fixed {
                    IrqPlan::QueuePic { pending: PendingInterrupt::PicFixed { irq, vector } }
                } else {
                    IrqPlan::QueuePic { pending: PendingInterrupt::PicExtInt { irq, vector } }
                }
            },
            _ => IrqPlan::Request { control: interrupt_control_for_route(route, vcpu_count) },
        },
    }
}

/// Snapshot of the vCPU's interrupt slots: pending-interruption busy,
/// pending-event busy, internal activity state.
#[derive(Clone, Copy, Debug, PartialEq, Eq, Structural)]
pub struct InterruptSlots {
    pub pending_interrupt_busy: bool,
    pub pending_event_busy: bool,
    pub internal_activity: u64,
}

/// Whether the activity state says the vCPU is halted (bit 1).
pub open spec fn activity_halted(internal_activity: u64) -> bool {
    (internal_activity / 2) % 2 == 1
}

pub fn is_halted_activity(internal_activity: u64) -> (b: bool)
    ensures
        b == activity_halted(internal_activity),
{
    let r = (internal_activity & 0x2) != 0;
    assert(((internal_activity & 0x2) != 0) == ((internal_activity / 2) % 2 == 1)) by (bit_vector);
    r
}

/// Counter behind the "kick every fourth duplicate on a halted vCPU" rule.
pub struct DuplicateKickCounter {
    pub count: u64,
}

impl DuplicateKickCounter {
    pub fn new() -> (c: Self)
        ensures
            c.count == 0,
    {
        DuplicateKickCounter { count: 0 }
    }

    /// Counts one more duplicate; true on every fourth one.
    pub fn tick(&mut self) -> (kick: bool)
        ensures
            final(self).count == vstd::wrapping::u64_specs::wrapping_add(old(self).count, 1),
            kick == (final(self).count % 4 == 0),
    {
        self.count = self.count.wrapping_add(1);
        self.count % 4 == 0
    }
}

/// Whether the vCPU must be kicked after an IRQ found its line already
/// queued. With a busy slot it is kicked only when the pending event is busy
/// on a halted vCPU and the counter says so (the counter advances only
/// then); with free slots, or when the slots could not be read, it is kicked.
pub fn duplicate_needs_kick(slots: Option<InterruptSlots>, counter: &mut DuplicateKickCounter) -> (kick:
    bool)
    ensures
        match slots {
            Some(s) if s.pending_interrupt_busy || s.pending_event_busy => if s.pending_event_busy
                && activity_halted(s.internal_activity) {
                final(counter).count == vstd::wrapping::u64_specs::wrapping_add(old(counter).count, 1)
                    && kick == (final(counter).count % 4 == 0)
            } else {
                final(counter).count == old(counter).count && !kick
            },
            _ => final(counter).count == old(counter).count && kick,
        },
{
    match slots {
        Some(s) => {
            if s.pending_interrupt_busy || s.pending_event_busy {
                if s.pending_event_busy && is_halted_activity(s.internal_activity) {
                    counter.tick()
                } else {
                    false
                }
            } else {
                true
            }
        },
        None => true,
    }
}

/// Whether delivering an IRQ cancels the running vCPUs: always, unless
/// `skip_cancel_when_halted` is set and the slots show a halted vCPU.
pub fn should_cancel_after_irq_delivery(skip_cancel_when_halted: bool, slots: Option<InterruptSlots>) -> (cancel:
    bool)
    ensures
        cancel == (!skip_cancel_when_halted || !(slots.is_some() && activity_halted(
            slots.unwrap().internal_activity,
        ))),
{
    if !skip_cancel_when_halted {
        return true;
    }
    match slots {
        Some(s) => !is_halted_activity(s.internal_activity),
        None => true,
    }
}

/// Whether a deferred PIC interrupt is replayed for an unresolved IRQ 0: a
/// pending interrupt exists and the vCPU's RFLAGS has IF (bit 9) set.
pub open spec fn interrupts_enabled(rflags: u64) -> bool {
    (rflags / 0x200) % 2 == 1
}

pub fn rflags_interrupts_enabled(rflags: u64) -> (b: bool)
    ensures
        b == interrupts_enabled(rflags),
{
    let r = (rflags & (1u64 << 9u64)) != 0;
    assert(((rflags & (1u64 << 9u64)) != 0) == ((rflags / 0x200) % 2 == 1)) by (bit_vector);
    r
}

pub fn should_replay_deferred(front: Option<PendingInterrupt>, rflags: u64) -> (replay: bool)
    ensures
        replay == (front.is_some() && interrupts_enabled(rflags)),
{
    front.is_some() && rflags_interrupts_enabled(rflags)
}

} // verus!
