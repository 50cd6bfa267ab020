use brightness_control::control::Controller;
use brightness_control::encoder::Encoder;
use brightness_control::pwm::{ChannelDrive, Outputs, PwmAccuracy};

#[test]
fn quiet_loop_writes_nothing() {
    let mut c = Controller::new(500);
    let mut e = Encoder::new(PwmAccuracy::High, 25);
    assert_eq!(c.step(&mut e, 0, false), None);
    assert_eq!(c.step(&mut e, 50, false), None);
    assert!(!c.is_powered());
}

#[test]
fn short_press_toggles_power_once() {
    let mut c = Controller::new(500);
    let mut e = Encoder::with_levels(PwmAccuracy::High, 25, 300, 500);
    assert_eq!(c.step(&mut e, 0, true), None);
    assert!(c.is_pressed());
    let out = c.step(&mut e, 100, false);
    assert!(c.is_powered());
    assert_eq!(
        out,
        Some(Outputs { red: ChannelDrive::Duty(146), green: ChannelDrive::Duty(500) })
    );
    assert_eq!(c.step(&mut e, 150, false), None);
    assert_eq!(c.step(&mut e, 200, false), None);
    assert!(c.is_powered());
}

#[test]
fn second_bump_turns_lamp_off() {
    let mut c = Controller::new(500);
    let mut e = Encoder::with_levels(PwmAccuracy::High, 25, 300, 500);
    c.step(&mut e, 0, true);
    c.step(&mut e, 100, false);
    assert!(c.is_powered());
    c.step(&mut e, 1000, true);
    let out = c.step(&mut e, 1050, false);
    assert!(!c.is_powered());
    assert_eq!(out, Some(Outputs { red: ChannelDrive::Off, green: ChannelDrive::Off }));
}

#[test]
fn long_press_leaves_power_alone() {
    let mut c = Controller::new(500);
    let mut e = Encoder::new(PwmAccuracy::High, 25);
    c.step(&mut e, 0, true);
    c.step(&mut e, 300, true);
    assert_eq!(c.step(&mut e, 600, false), None);
    assert!(!c.is_powered());
}

#[test]
fn encoder_change_recomputes_outputs() {
    let mut c = Controller::new(500);
    let mut e = Encoder::with_levels(PwmAccuracy::High, 25, 0, 1000);
    c.step(&mut e, 0, true);
    c.step(&mut e, 50, false);
    e.on_pin_change(true, true, false);
    let out = c.step(&mut e, 100, false);
    assert_eq!(out, Some(Outputs { red: ChannelDrive::Off, green: ChannelDrive::On }));
    assert_eq!(c.step(&mut e, 150, false), None);
}

#[test]
fn encoder_change_while_off_keeps_outputs_off() {
    let mut c = Controller::new(500);
    let mut e = Encoder::with_levels(PwmAccuracy::High, 25, 500, 500);
    e.on_pin_change(true, true, true);
    let out = c.step(&mut e, 10, false);
    assert_eq!(out, Some(Outputs { red: ChannelDrive::Off, green: ChannelDrive::Off }));
    assert_eq!(e.knobs().temperature, 525);
}
