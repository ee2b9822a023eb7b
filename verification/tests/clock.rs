use catalyst::clock::{Clock, VirtualClock};

#[test]
fn test_virtual_clock_advance() {
    let mut clock = VirtualClock::new(1000);
    assert_eq!(clock.now_ms(), 1000);
    clock.advance(500);
    assert_eq!(clock.now_ms(), 1500);
}

#[test]
fn test_virtual_clock_sleep() {
    let mut clock = VirtualClock::new(0);
    clock.sleep_ms(100);
    assert_eq!(clock.now_ms(), 100);
}

#[test]
fn virtual_clock_set_and_wrap() {
    let mut clock = VirtualClock::default();
    assert_eq!(clock.now_ms(), 0);
    clock.set(u64::MAX - 1);
    clock.advance(3);
    assert_eq!(clock.now_ms(), 1);
}
