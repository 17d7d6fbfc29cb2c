use krun_vmm::irq::IoApicRoute;
use krun_vmm::legacy::{
    irq0_route, legacy_port_layout, Irq0Route, LegacyPortDevice, PitTimerState, PIT_TICK_MS,
};
use krun_vmm::stdin::InputBuffer;

#[test]
fn input_is_first_in_first_out() {
    let mut b = InputBuffer::new();
    b.push(b"hello");
    b.push(b" world");
    let mut buf = [0xaau8; 4];
    assert_eq!(b.read(&mut buf), (4, false));
    assert_eq!(&buf, b"hell");
    let mut big = [0xaau8; 16];
    assert_eq!(b.read(&mut big), (7, true));
    assert_eq!(&big[..7], b"o world");
    assert!(big[7..].iter().all(|x| *x == 0xaa));
    assert_eq!(b.read(&mut big), (0, true));
    assert_eq!(b.len(), 0);
}

#[test]
fn legacy_ports_and_irq0_route() {
    let layout = legacy_port_layout();
    assert_eq!(layout.len(), 4);
    assert_eq!(layout[0].device, LegacyPortDevice::Pit);
    assert_eq!((layout[0].base, layout[0].len), (0x40, 4));
    assert_eq!((layout[3].base, layout[3].len), (0xCF8, 8));
    let r = IoApicRoute {
        vector: 0x30,
        masked: false,
        destination_mode_logical: false,
        trigger_mode_level: false,
        delivery_mode: 0,
        destination: 0,
    };
    assert_eq!(irq0_route(Some(r), Some(0x20)), Irq0Route::IoApic);
    assert_eq!(irq0_route(Some(IoApicRoute { masked: true, ..r }), Some(0x20)), Irq0Route::Pic);
    assert_eq!(irq0_route(Some(IoApicRoute { vector: 0, ..r }), None), Irq0Route::Waiting);
    assert_eq!(PIT_TICK_MS, 10);
}

#[test]
fn pit_timer_stops_after_a_refused_irq() {
    let mut s = PitTimerState::new();
    let t = s.tick(Irq0Route::Waiting, true);
    assert!(!t.route_changed && t.keep_running);
    let t = s.tick(Irq0Route::Pic, true);
    assert!(t.route_changed && t.keep_running);
    let t = s.tick(Irq0Route::Pic, false);
    assert!(!t.route_changed && !t.keep_running);
    assert_eq!(s.ticks, 3);
    assert_eq!(s.last_route, Irq0Route::Pic);
}
