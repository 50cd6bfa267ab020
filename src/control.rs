use vstd::prelude::*;

use crate::button::{bump_below, bump_consumed, polled, Button, ButtonState};
use crate::encoder::{Encoder, EncoderState};
use crate::pwm::{outputs, outputs_for, Outputs};

verus! {

/// What the control loop holds besides the encoder: the button, whether the
/// lamp is on, and the longest press that counts as a bump.
pub struct ControlState {
    pub button: ButtonState,
    pub powered: bool,
    pub bump_threshold: u32,
}

/// Whether the poll of the button at `now` ends a press shorter than the
/// bump threshold.
pub open spec fn bumped_at(s: ControlState, button_low: bool, now: u32) -> bool {
    bump_below(polled(s.button, button_low, now), s.bump_threshold)
}

/// The state after one iteration: the button is polled, its press read,
/// and a bump switches the lamp on or off.
pub open spec fn stepped(s: ControlState, button_low: bool, now: u32) -> ControlState {
    ControlState {
        button: bump_consumed(polled(s.button, button_low, now)),
        powered: s.powered != bumped_at(s, button_low, now),
        ..s
    }
}

/// The main loop's decisions: a bump of the button turns the lamp on or
/// off, and the outputs are worked out again whenever the lamp was switched
/// or the encoder moved.
pub struct Controller {
    button: Button,
    powered: bool,
    bump_threshold: u32,
}

impl View for Controller {
    type V = ControlState;

    closed spec fn view(&self) -> ControlState {
        ControlState {
            button: self.button@,
            powered: self.powered,
            bump_threshold: self.bump_threshold,
        }
    }
}

impl Controller {
    /// A lamp that is off, with a released button; presses shorter than
    /// `bump_threshold` ticks count as bumps.
    pub fn new(bump_threshold: u32) -> (r: Controller)
        ensures
            r@ == (ControlState {
                button: ButtonState { pressed: false, last_down: 0, last_up: 0, bump: None },
                powered: false,
                bump_threshold,
            }),
    {
        Controller { button: Button::new(), powered: false, bump_threshold }
    }

    /// One iteration of the main loop at clock reading `now`, with the
    /// button pin read low when `button_low` holds. Polls the button, lets a
    /// bump switch the lamp, and takes the encoder's change flag. Returns the
    /// new outputs when the lamp was switched or the encoder moved, and
    /// `None` when nothing needs writing.
    pub fn step(&mut self, encoder: &mut Encoder, now: u32, button_low: bool) -> (r: Option<
        Outputs,
    >)
        ensures
            final(self)@ == stepped(old(self)@, button_low, now),
            final(encoder)@ == (EncoderState { changed: false, ..old(encoder)@ }),
            r == if bumped_at(old(self)@, button_low, now) || old(encoder)@.changed {
                Some(
                    outputs_for(
                        old(encoder)@.temperature,
                        old(encoder)@.brightness,
                        old(encoder)@.max,
                        final(self)@.powered,
                    ),
                )
            } else {
                None
            },
    {
        self.button.update(button_low, now);
        let bumped = self.button.was_bumped(self.bump_threshold);
        if bumped {
            self.powered = !self.powered;
        }
        let changed = encoder.take_changed();
        if bumped || changed {
            let k = encoder.knobs();
            let max = encoder.max();
            Some(outputs(k.temperature, k.brightness, max, self.powered))
        } else {
            None
        }
    }

    /// Whether the lamp is on.
    pub fn is_powered(&self) -> (r: bool)
        ensures
            r == self@.powered,
    {
        self.powered
    }

    /// Whether the button is down.
    pub fn is_pressed(&self) -> (r: bool)
        ensures
            r == self@.button.pressed,
    {
        self.button.is_pressed()
    }
}

} // verus!
