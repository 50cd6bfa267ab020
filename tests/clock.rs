use brightness_control::clock::{elapsed, tick_increment, MillisClock, Prescaler};

#[test]
fn elapsed_without_wrap() {
    assert_eq!(elapsed(100, 700), 600);
    assert_eq!(elapsed(5, 5), 0);
}

#[test]
fn elapsed_across_wraparound() {
    assert_eq!(elapsed(u32::MAX - 9, 20), 30);
    assert_eq!(elapsed(1, 0), u32::MAX);
}

#[test]
fn prescaler_from_supported_divisors() {
    assert_eq!(Prescaler::from_divisor(8), Some(Prescaler::Div8));
    assert_eq!(Prescaler::from_divisor(64), Some(Prescaler::Div64));
    assert_eq!(Prescaler::from_divisor(256), Some(Prescaler::Div256));
    assert_eq!(Prescaler::from_divisor(1024), Some(Prescaler::Div1024));
    assert_eq!(Prescaler::Div1024.divisor(), 1024);
}

#[test]
fn prescaler_rejects_unsupported_divisor() {
    assert_eq!(Prescaler::from_divisor(0), None);
    assert_eq!(Prescaler::from_divisor(32), None);
    assert_eq!(Prescaler::from_divisor(1000), None);
}

#[test]
fn increment_for_sixteen_megahertz() {
    assert_eq!(tick_increment(Prescaler::Div1024, 125, 16000), 8);
    assert_eq!(tick_increment(Prescaler::Div64, 250, 16000), 1);
    assert_eq!(tick_increment(Prescaler::Div8, 100, 16000), 0);
}

#[test]
fn clock_advances_per_interrupt() {
    let mut clock = MillisClock::new(8);
    assert_eq!(clock.now(), 0);
    clock.on_timer_interrupt();
    clock.on_timer_interrupt();
    clock.on_timer_interrupt();
    assert_eq!(clock.now(), 24);
    clock.reset();
    assert_eq!(clock.now(), 0);
}

#[test]
fn clock_wraps_around() {
    let mut clock = MillisClock::new(u32::MAX);
    clock.on_timer_interrupt();
    assert_eq!(clock.now(), u32::MAX);
    clock.on_timer_interrupt();
    assert_eq!(clock.now(), u32::MAX - 1);
    assert_eq!(elapsed(u32::MAX, clock.now()), u32::MAX);
}
