//! The legacy PC devices a Windows host exposes on the port bus, and the
//! 100 Hz timer that drives IRQ 0 once the guest has routed it.

use vstd::prelude::*;
use crate::irq::IoApicRoute;

verus! {

/// Legacy devices on the port bus.
#[derive(Clone, Copy, Debug, PartialEq, Eq, Structural)]
pub enum LegacyPortDevice {
    /// 8254 programmable interval timer.
    Pit,
    /// Primary 8259A interrupt controller.
    PicPrimary,
    /// Secondary (cascaded) 8259A interrupt controller.
    PicSecondary,
    /// PCI configuration mechanism #1.
    PciConfig,
}

/// A device's port range: first port and number of ports.
#[derive(Clone, Copy, Debug, PartialEq, Eq, Structural)]
pub struct PortRange {
    pub device: LegacyPortDevice,
    pub base: u64,
    pub len: u64,
}

pub open spec fn legacy_ports_spec() -> Seq<PortRange> {
    seq![
        PortRange { device: LegacyPortDevice::Pit, base: 0x40, len: 0x4 },
        PortRange { device: LegacyPortDevice::PicPrimary, base: 0x20, len: 0x2 },
        PortRange { device: LegacyPortDevice::PicSecondary, base: 0xA0, len: 0x2 },
        PortRange { device: LegacyPortDevice::PciConfig, base: 0xCF8, len: 0x8 },
    ]
}

/// Where the legacy devices sit, in the order they are registered: the PIT
/// at 0x40, the PICs at 0x20 and 0xA0, PCI configuration at 0xCF8.
pub fn legacy_port_layout() -> (v: Vec<PortRange>)
    ensures
        v@ == legacy_ports_spec(),
{
    let mut v: Vec<PortRange> = Vec::new();
    v.push(PortRange { device: LegacyPortDevice::Pit, base: 0x40, len: 0x4 });
    v.push(PortRange { device: LegacyPortDevice::PicPrimary, base: 0x20, len: 0x2 });
    v.push(PortRange { device: LegacyPortDevice::PicSecondary, base: 0xA0, len: 0x2 });
    v.push(PortRange { device: LegacyPortDevice::PciConfig, base: 0xCF8, len: 0x8 });
    assert(v@ =~= legacy_ports_spec());
    v
}

/// The legacy port ranges do not overlap, so each port reaches one device.
pub proof fn lemma_legacy_ports_disjoint(i: int, j: int)
    requires
        0 <= i < 4,
        0 <= j < 4,
        i != j,
    ensures
        legacy_ports_spec()[i].base + legacy_ports_spec()[i].len <= legacy_ports_spec()[j].base
            || legacy_ports_spec()[j].base + legacy_ports_spec()[j].len
            <= legacy_ports_spec()[i].base,
{
}

/// How IRQ 0 currently reaches the guest.
#[derive(Clone, Copy, Debug, PartialEq, Eq, Structural)]
pub enum Irq0Route {
    /// An unmasked I/O APIC entry with a vector.
    IoApic,
    /// The legacy PIC has a vector for it.
    Pic,
    /// The guest has not routed it yet.
    Waiting,
}

pub open spec fn irq0_route_spec(ioapic: Option<IoApicRoute>, pic_vector: Option<u8>) -> Irq0Route {
    if ioapic matches Some(r) && !r.masked && r.vector != 0 {
        Irq0Route::IoApic
    } else if pic_vector.is_some() {
        Irq0Route::Pic
    } else {
        Irq0Route::Waiting
    }
}

/// The route of IRQ 0 given its I/O APIC entry and PIC vector: the I/O APIC
/// wins once the guest unmasks it with a vector, then the PIC.
pub fn irq0_route(ioapic: Option<IoApicRoute>, pic_vector: Option<u8>) -> (r: Irq0Route)
    ensures
        r == irq0_route_spec(ioapic, pic_vector),
{
    if let Some(route) = ioapic {
        if !route.masked && route.vector != 0 {
            return Irq0Route::IoApic;
        }
    }
    if pic_vector.is_some() {
        Irq0Route::Pic
    } else {
        Irq0Route::Waiting
    }
}

/// Milliseconds between timer ticks (100 Hz).
pub const PIT_TICK_MS: u64 = 10;

/// What the IRQ 0 timer thread remembers between ticks.
#[derive(Clone, Copy, Debug, PartialEq, Eq, Structural)]
pub struct PitTimerState {
    /// The route seen at the previous tick.
    pub last_route: Irq0Route,
    /// Ticks so far.
    pub ticks: u64,
}

/// The outcome of one tick.
#[derive(Clone, Copy, Debug, PartialEq, Eq, Structural)]
pub struct PitTick {
    /// The route differs from the one of the previous tick.
    pub route_changed: bool,
    /// The timer goes on; it stops for good after the first IRQ 0 that the
    /// interrupt controller refuses.
    pub keep_running: bool,
}

impl PitTimerState {
    /// Before the first tick: no route seen, no tick counted.
    pub fn new() -> (s: Self)
        ensures
            s.last_route == Irq0Route::Waiting,
            s.ticks == 0,
    {
        PitTimerState { last_route: Irq0Route::Waiting, ticks: 0 }
    }

    /// One tick of the timer: `route` is how IRQ 0 reaches the guest now,
    /// and `irq_delivered` whether the interrupt controller accepted IRQ 0.
    pub fn tick(&mut self, route: Irq0Route, irq_delivered: bool) -> (t: PitTick)
        requires
            old(self).ticks < u64::MAX,
        ensures
            final(self).last_route == route,
            final(self).ticks == old(self).ticks + 1,
            t.route_changed == (route != old(self).last_route),
            t.keep_running == irq_delivered,
    {
        let route_changed = route != self.last_route;
        self.last_route = route;
        self.ticks = self.ticks + 1;
        PitTick { route_changed, keep_running: irq_delivered }
    }
}

} // verus!
