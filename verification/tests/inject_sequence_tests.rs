use krun_vmm::inject::{
    settle_injection, take_for_injection, InjectFailure, InjectGate, PicFixedInjectionMode,
    WHV_E_INTERRUPT_SLOT_BUSY,
};
use krun_vmm::irq::{InterruptSlots, PendingInterrupt, PendingInterruptQueue};

fn queue_of(items: &[PendingInterrupt]) -> PendingInterruptQueue {
    let mut q = PendingInterruptQueue::new();
    for p in items {
        assert!(q.push_unique(*p));
    }
    q
}

#[test]
fn refused_delivery_puts_the_interrupt_back_first() {
    let a = PendingInterrupt::PicExtInt { irq: 0, vector: 0x20 };
    let b = PendingInterrupt::PicExtInt { irq: 4, vector: 0x24 };
    let mut q = queue_of(&[a, b]);
    let (gate, taken) =
        take_for_injection(&mut q, true, PicFixedInjectionMode::RequestInterrupt, false, None);
    assert_eq!(gate, InjectGate::Proceed);
    assert_eq!(taken, Some(a));
    assert_eq!(q.len(), 1);

    let busy = InterruptSlots { pending_interrupt_busy: false, pending_event_busy: true, internal_activity: 0 };
    let outcome = settle_injection(&mut q, a, Err(WHV_E_INTERRUPT_SLOT_BUSY), Some(busy));
    assert_eq!(outcome, Some(InjectFailure::Deferred));
    assert_eq!(q.len(), 2);
    assert_eq!(q.front(), Some(a));
    assert!(!q.push_unique(a));

    let outcome = settle_injection(&mut q, b, Err(0x8000_4005), None);
    assert_eq!(outcome, Some(InjectFailure::Failed));
}

#[test]
fn delivered_interrupt_leaves_the_queue() {
    let a = PendingInterrupt::PicFixed { irq: 1, vector: 0x21 };
    let mut q = queue_of(&[a]);
    let (gate, taken) =
        take_for_injection(&mut q, true, PicFixedInjectionMode::RequestInterrupt, false, None);
    assert_eq!(gate, InjectGate::Proceed);
    assert_eq!(taken, Some(a));
    assert_eq!(settle_injection(&mut q, a, Ok(()), None), None);
    assert!(q.is_empty());
}

#[test]
fn masked_or_busy_vcpu_takes_nothing() {
    let a = PendingInterrupt::PicExtInt { irq: 3, vector: 0x23 };
    let mut q = queue_of(&[a]);
    let (gate, taken) =
        take_for_injection(&mut q, false, PicFixedInjectionMode::RequestInterrupt, true, None);
    assert_eq!(gate, InjectGate::Deferred { arm_window_for: Some(a) });
    assert_eq!(taken, None);
    assert_eq!(q.len(), 1);
    let busy = InterruptSlots { pending_interrupt_busy: true, pending_event_busy: false, internal_activity: 0 };
    let (gate, taken) = take_for_injection(
        &mut q,
        true,
        PicFixedInjectionMode::RequestInterrupt,
        false,
        Some(busy),
    );
    assert_eq!(gate, InjectGate::SlotBusy);
    assert_eq!(taken, None);
    assert_eq!(q.len(), 1);
}
