use task_runtime::park::ParkOutcome;
use task_runtime::park::ParkSignal;
use task_runtime::wake_slot::WakeSlot;

#[test]
fn new_slot_has_nothing_pending() {
    let mut slot = WakeSlot::new();
    assert!(!slot.is_notified());
    assert_eq!(slot.waiting(), None);
    assert!(!slot.take_wake());
}

#[test]
fn register_then_wake_is_seen_once() {
    let mut slot = WakeSlot::new();
    slot.register(7);
    assert_eq!(slot.wake(), Some(7));
    assert!(slot.take_wake());
    assert!(!slot.take_wake());
}

#[test]
fn wake_then_register_is_seen_once() {
    let mut slot = WakeSlot::new();
    assert_eq!(slot.wake(), None);
    slot.register(7);
    assert_eq!(slot.waiting(), Some(7));
    assert!(slot.take_wake());
    assert!(!slot.take_wake());
    assert_eq!(slot.waiting(), Some(7));
}

#[test]
fn wakes_coalesce_into_one() {
    let mut slot = WakeSlot::new();
    slot.register(3);
    assert_eq!(slot.wake(), Some(3));
    for _ in 0..9 {
        assert_eq!(slot.wake(), None);
    }
    assert!(slot.is_notified());
    assert!(slot.take_wake());
    assert!(!slot.take_wake());
}

#[test]
fn register_does_not_clear_a_pending_wake() {
    let mut slot = WakeSlot::new();
    slot.wake();
    slot.register(1);
    slot.register(2);
    assert!(slot.is_notified());
    assert_eq!(slot.wake(), Some(2));
    assert!(slot.take_wake());
}

#[test]
fn register_alone_signals_nothing() {
    let mut slot = WakeSlot::new();
    slot.register(1);
    slot.register(2);
    assert!(!slot.take_wake());
    assert_eq!(slot.waiting(), Some(2));
}

#[test]
fn wake_after_take_is_a_new_signal() {
    let mut slot = WakeSlot::new();
    slot.wake();
    assert!(slot.take_wake());
    slot.wake();
    assert!(slot.take_wake());
    assert!(!slot.take_wake());
}

#[test]
fn unpark_before_park_returns_at_once() {
    let mut signal = ParkSignal::new();
    assert_eq!(signal.unpark(), None);
    assert!(signal.is_pending());
    assert_eq!(signal.park(11), ParkOutcome::Resumed);
    assert!(!signal.is_pending());
}

#[test]
fn park_without_unpark_must_block() {
    let mut signal = ParkSignal::new();
    assert_eq!(signal.park(11), ParkOutcome::MustBlock);
    assert_eq!(signal.unpark(), Some(11));
    assert_eq!(signal.park(11), ParkOutcome::Resumed);
}

#[test]
fn one_unpark_satisfies_one_park() {
    let mut signal = ParkSignal::new();
    signal.unpark();
    signal.unpark();
    assert_eq!(signal.park(5), ParkOutcome::Resumed);
    assert_eq!(signal.park(5), ParkOutcome::MustBlock);
}

#[test]
fn unpark_names_the_blocked_thread_once() {
    let mut signal = ParkSignal::new();
    assert_eq!(signal.park(21), ParkOutcome::MustBlock);
    assert_eq!(signal.unpark(), Some(21));
    assert_eq!(signal.unpark(), None);
}
