use brightness_control::button::Button;

#[test]
fn new_button_is_released() {
    let b = Button::new();
    assert!(!b.is_pressed());
    assert!(!b.is_held(0, 1000));
    assert_eq!(b.last_down(), 0);
    assert_eq!(b.last_up(), 0);
}

#[test]
fn long_hold_is_held_and_not_bumped() {
    let mut b = Button::new();
    b.update(true, 0);
    assert!(b.is_pressed());
    assert!(!b.is_held(500, 400));
    assert!(!b.is_held(500, 500));
    assert!(b.is_held(500, 550));
    b.update(false, 600);
    assert!(!b.is_pressed());
    assert!(!b.is_held(500, 650));
    assert!(!b.was_bumped(500));
}

#[test]
fn short_press_is_bumped_once() {
    let mut b = Button::new();
    b.update(true, 2000);
    b.update(true, 2050);
    b.update(false, 2100);
    assert_eq!(b.last_down(), 2000);
    assert_eq!(b.last_up(), 2100);
    assert!(b.was_bumped(500));
    assert!(!b.was_bumped(500));
}

#[test]
fn bump_read_clears_even_when_too_long() {
    let mut b = Button::new();
    b.update(true, 0);
    b.update(false, 300);
    assert!(!b.was_bumped(200));
    assert!(!b.was_bumped(1000));
}

#[test]
fn bump_needs_duration_below_threshold() {
    let mut b = Button::new();
    b.update(true, 0);
    b.update(false, 500);
    assert!(!b.was_bumped(500));
    b.update(true, 1000);
    b.update(false, 1499);
    assert!(b.was_bumped(500));
}

#[test]
fn held_and_bumped_across_clock_wrap() {
    let mut b = Button::new();
    b.update(true, u32::MAX - 49);
    assert!(b.is_held(100, 60));
    assert!(!b.is_held(110, 60));
    b.update(false, 50);
    assert!(b.was_bumped(101));
}

#[test]
fn later_press_overwrites_unread_one() {
    let mut b = Button::new();
    b.update(true, 0);
    b.update(false, 50);
    b.update(true, 100);
    b.update(false, 900);
    assert!(!b.was_bumped(500));
    assert!(!b.was_bumped(500));
}

#[test]
fn polls_without_release_record_nothing() {
    let mut b = Button::new();
    b.update(false, 10);
    b.update(false, 20);
    assert!(!b.was_bumped(u32::MAX));
    b.update(true, 30);
    b.update(true, 40);
    assert_eq!(b.last_down(), 30);
    assert!(!b.was_bumped(u32::MAX));
}
