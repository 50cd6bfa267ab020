use vstd::prelude::*;

use crate::clock::{elapsed, ring_elapsed};

verus! {

/// What a debounced button holds.
pub struct ButtonState {
    /// The debounced level: true while the button is down.
    pub pressed: bool,
    /// Clock reading when the button last went down.
    pub last_down: u32,
    /// Clock reading when the button last came up.
    pub last_up: u32,
    /// Length of the last press, until it has been read once.
    pub bump: Option<u32>,
}

/// The state after one poll that saw the pin low (`pin_low`) at clock
/// reading `now`: a press is recorded on the first low reading, a release on
/// the first high one, and a release stores the length of the press.
pub open spec fn polled(s: ButtonState, pin_low: bool, now: u32) -> ButtonState {
    if pin_low && !s.pressed {
        ButtonState { pressed: true, last_down: now, ..s }
    } else if !pin_low && s.pressed {
        ButtonState {
            pressed: false,
            last_up: now,
            bump: Some(ring_elapsed(s.last_down, now) as u32),
            ..s
        }
    } else {
        s
    }
}

/// Whether the stored press, if any, was shorter than `threshold`.
pub open spec fn bump_below(s: ButtonState, threshold: u32) -> bool {
    match s.bump {
        Some(d) => d < threshold,
        None => false,
    }
}

/// The state once the stored press has been read.
pub open spec fn bump_consumed(s: ButtonState) -> ButtonState {
    ButtonState { bump: None, ..s }
}

/// Whether the button is down and has been for more than `threshold` ticks.
pub open spec fn held_longer(s: ButtonState, threshold: u32, now: u32) -> bool {
    s.pressed && ring_elapsed(s.last_down, now) > threshold
}

/// A push button on a pull-up input (low means pressed), turned into presses,
/// holds and short presses ("bumps") by polling.
pub struct Button {
    pressed: bool,
    last_down: u32,
    last_up: u32,
    bump_duration: Option<u32>,
}

impl View for Button {
    type V = ButtonState;

    closed spec fn view(&self) -> ButtonState {
        ButtonState {
            pressed: self.pressed,
            last_down: self.last_down,
            last_up: self.last_up,
            bump: self.bump_duration,
        }
    }
}

impl Button {
    /// A released button with no press recorded.
    pub fn new() -> (r: Button)
        ensures
            r@ == (ButtonState { pressed: false, last_down: 0, last_up: 0, bump: None }),
    {
        Button { pressed: false, last_down: 0, last_up: 0, bump_duration: None }
    }

    /// One poll of the pin, which read low when `pin_low` holds, at clock
    /// reading `now`.
    pub fn update(&mut self, pin_low: bool, now: u32)
        ensures
            final(self)@ == polled(old(self)@, pin_low, now),
    {
        if pin_low {
            if !self.pressed {
                self.pressed = true;
                self.last_down = now;
            }
        } else if self.pressed {
            self.pressed = false;
            self.last_up = now;
            self.bump_duration = Some(elapsed(self.last_down, now));
        }
    }

    /// Whether the button is down.
    pub fn is_pressed(&self) -> (r: bool)
        ensures
            r == self@.pressed,
    {
        self.pressed
    }

    /// Whether the button is down and has been for more than `threshold`
    /// ticks at clock reading `now`.
    pub fn is_held(&self, threshold: u32, now: u32) -> (r: bool)
        ensures
            r == held_longer(self@, threshold, now),
    {
        if self.pressed {
            elapsed(self.last_down, now) > threshold
        } else {
            false
        }
    }

    /// Whether the last press was shorter than `threshold`. The press is
    /// consumed: until the button is released again this returns false.
    pub fn was_bumped(&mut self, threshold: u32) -> (r: bool)
        ensures
            r == bump_below(old(self)@, threshold),
            final(self)@ == bump_consumed(old(self)@),
    {
        let bumped = match self.bump_duration {
            Some(d) => d < threshold,
            None => false,
        };
        self.bump_duration = None;
        bumped
    }

    /// Clock reading when the button last went down.
    pub fn last_down(&self) -> (r: u32)
        ensures
            r == self@.last_down,
    {
        self.last_down
    }

    /// Clock reading when the button last came up.
    pub fn last_up(&self) -> (r: u32)
        ensures
            r == self@.last_up,
    {
        self.last_up
    }
}

/// A press is reported as a bump at most once: once read, the stored press
/// is gone, whatever threshold the next read uses, and polls that do not
/// release the button do not bring it back.
pub proof fn lemma_bump_reported_once(s: ButtonState, threshold: u32, pin_low: bool, now: u32)
    ensures
        !bump_below(bump_consumed(s), threshold),
        !(s.pressed && !pin_low) ==> polled(bump_consumed(s), pin_low, now).bump is None,
{
}

} // verus!
