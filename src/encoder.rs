use vstd::prelude::*;

use crate::pwm::PwmAccuracy;

verus! {

/// Which way the knob turned.
#[derive(Clone, Copy, Debug, PartialEq, Eq, Structural)]
pub enum Direction {
    Increase,
    Decrease,
}

/// The counter that a pulse adjusts.
#[derive(Clone, Copy, Debug, PartialEq, Eq, Structural)]
pub enum Knob {
    Temperature,
    Brightness,
}

/// One detent of the rotary encoder: which counter moves, and which way.
#[derive(Clone, Copy, Debug, PartialEq, Eq, Structural)]
pub struct Pulse {
    pub knob: Knob,
    pub direction: Direction,
}

/// The pulse that a pin-change interrupt stands for, given the levels read
/// in the handler: channel B must be low (the edge of interest), channel A
/// low means increase, and the button held down selects the temperature.
pub open spec fn decoded(channel_b_low: bool, channel_a_low: bool, button_low: bool) -> Option<
    Pulse,
> {
    if !channel_b_low {
        None
    } else {
        Some(
            Pulse {
                knob: if button_low {
                    Knob::Temperature
                } else {
                    Knob::Brightness
                },
                direction: if channel_a_low {
                    Direction::Increase
                } else {
                    Direction::Decrease
                },
            },
        )
    }
}

/// Decodes the pin levels read in a pin-change interrupt into a pulse, or
/// `None` when the interrupt was not for a falling edge of channel B.
pub fn decode_edge(channel_b_low: bool, channel_a_low: bool, button_low: bool) -> (r: Option<
    Pulse,
>)
    ensures
        r == decoded(channel_b_low, channel_a_low, button_low),
{
    if !channel_b_low {
        return None;
    }
    let knob = if button_low {
        Knob::Temperature
    } else {
        Knob::Brightness
    };
    let direction = if channel_a_low {
        Direction::Increase
    } else {
        Direction::Decrease
    };
    Some(Pulse { knob, direction })
}

/// `value` moved by `step` in direction `d`, held within `[0, max]`.
pub open spec fn adjusted(value: u16, d: Direction, step: u16, max: u16) -> u16 {
    match d {
        Direction::Increase => if value + step < max {
            (value + step) as u16
        } else {
            max
        },
        Direction::Decrease => if value > step {
            (value - step) as u16
        } else {
            0
        },
    }
}

/// Moves `value` by `step` in direction `d`, saturating at `0` and at `max`
/// rather than wrapping.
pub fn adjust(value: u16, d: Direction, step: u16, max: u16) -> (r: u16)
    ensures
        r == adjusted(value, d, step, max),
{
    match d {
        Direction::Increase => {
            let raised: u32 = value as u32 + step as u32;
            if raised < max as u32 {
                raised as u16
            } else {
                max
            }
        },
        Direction::Decrease => if value > step {
            value - step
        } else {
            0
        },
    }
}

/// The two counters the main loop reads.
#[derive(Clone, Copy, Debug, PartialEq, Eq, Structural)]
pub struct Knobs {
    pub temperature: u16,
    pub brightness: u16,
}

/// What the encoder holds: both counters, the change flag, the upper bound
/// of the counters and the amount one pulse moves them.
pub struct EncoderState {
    pub temperature: u16,
    pub brightness: u16,
    pub changed: bool,
    pub max: u16,
    pub step: u16,
}

/// Both counters lie within `[0, max]`.
pub open spec fn in_range(s: EncoderState) -> bool {
    s.temperature <= s.max && s.brightness <= s.max
}

/// The state after one pulse: the selected counter moves and the change
/// flag is set; the other counter stays.
pub open spec fn after_pulse(s: EncoderState, p: Pulse) -> EncoderState {
    match p.knob {
        Knob::Temperature => EncoderState {
            temperature: adjusted(s.temperature, p.direction, s.step, s.max),
            changed: true,
            ..s
        },
        Knob::Brightness => EncoderState {
            brightness: adjusted(s.brightness, p.direction, s.step, s.max),
            changed: true,
            ..s
        },
    }
}

/// The state after `n` equal pulses.
pub open spec fn after_pulses(s: EncoderState, p: Pulse, n: nat) -> EncoderState
    decreases n,
{
    if n == 0 {
        s
    } else {
        after_pulse(after_pulses(s, p, (n - 1) as nat), p)
    }
}

/// The state shared between the encoder's interrupt handler, its only
/// writer, and the main loop, which reads the counters and clears the
/// change flag. Both counters always lie within `[0, max]`.
pub struct Encoder {
    temperature: u16,
    brightness: u16,
    changed: bool,
    max: u16,
    step: u16,
}

impl View for Encoder {
    type V = EncoderState;

    closed spec fn view(&self) -> EncoderState {
        EncoderState {
            temperature: self.temperature,
            brightness: self.brightness,
            changed: self.changed,
            max: self.max,
            step: self.step,
        }
    }
}

impl Encoder {
    #[verifier::type_invariant]
    spec fn counters_in_range(&self) -> bool {
        self.max > 0 && in_range(self@)
    }

    /// Both counters at zero, bounded by the largest duty of `accuracy`,
    /// moved by `step` per pulse.
    pub fn new(accuracy: PwmAccuracy, step: u16) -> (r: Encoder)
        ensures
            r@ == (EncoderState {
                temperature: 0,
                brightness: 0,
                changed: false,
                max: accuracy.val_spec(),
                step,
            }),
    {
        Encoder { temperature: 0, brightness: 0, changed: false, max: accuracy.val(), step }
    }

    /// Counters starting at the given levels, which must not exceed the
    /// largest duty of `accuracy`.
    pub fn with_levels(accuracy: PwmAccuracy, step: u16, temperature: u16, brightness: u16) -> (r:
        Encoder)
        requires
            temperature <= accuracy.val_spec(),
            brightness <= accuracy.val_spec(),
        ensures
            r@ == (EncoderState {
                temperature,
                brightness,
                changed: false,
                max: accuracy.val_spec(),
                step,
            }),
    {
        Encoder { temperature, brightness, changed: false, max: accuracy.val(), step }
    }

    /// Applies one pulse.
    pub fn apply(&mut self, p: Pulse)
        ensures
            final(self)@ == after_pulse(old(self)@, p),
    {
        proof {
            use_type_invariant(&*self);
        }
        match p.knob {
            Knob::Temperature => {
                self.temperature = adjust(self.temperature, p.direction, self.step, self.max);
            },
            Knob::Brightness => {
                self.brightness = adjust(self.brightness, p.direction, self.step, self.max);
            },
        }
        self.changed = true;
    }

    /// The work of the pin-change interrupt, given the levels it read: a
    /// falling edge of channel B moves one counter and sets the change flag;
    /// any other edge changes nothing.
    pub fn on_pin_change(&mut self, channel_b_low: bool, channel_a_low: bool, button_low: bool)
        ensures
            final(self)@ == match decoded(channel_b_low, channel_a_low, button_low) {
                Some(p) => after_pulse(old(self)@, p),
                None => old(self)@,
            },
    {
        match decode_edge(channel_b_low, channel_a_low, button_low) {
            Some(p) => self.apply(p),
            None => {},
        }
    }

    /// Reads and clears the change flag: true iff a pulse came since the
    /// last call.
    pub fn take_changed(&mut self) -> (r: bool)
        ensures
            r == old(self)@.changed,
            final(self)@ == (EncoderState { changed: false, ..old(self)@ }),
    {
        proof {
            use_type_invariant(&*self);
        }
        let was = self.changed;
        self.changed = false;
        was
    }

    /// The current counters, which lie within `[0, max]`.
    pub fn knobs(&self) -> (r: Knobs)
        ensures
            r.temperature == self@.temperature,
            r.brightness == self@.brightness,
            in_range(self@),
            self@.max > 0,
    {
        proof {
            use_type_invariant(self);
        }
        Knobs { temperature: self.temperature, brightness: self.brightness }
    }

    /// The upper bound of both counters.
    pub fn max(&self) -> (r: u16)
        ensures
            r == self@.max,
            r > 0,
    {
        proof {
            use_type_invariant(self);
        }
        self.max
    }
}

/// Pulses past a bound change nothing: a counter at `max` stays there under
/// any number of increases, and one at `0` under any number of decreases.
pub proof fn lemma_saturated_counter_stays(s: EncoderState, knob: Knob, n: nat)
    requires
        in_range(s),
    ensures
        ({
            let up = after_pulses(s, Pulse { knob, direction: Direction::Increase }, n);
            (knob == Knob::Temperature && s.temperature == s.max ==> up.temperature == s.max)
                && (knob == Knob::Brightness && s.brightness == s.max ==> up.brightness
                == s.max)
        }),
        ({
            let down = after_pulses(s, Pulse { knob, direction: Direction::Decrease }, n);
            (knob == Knob::Temperature && s.temperature == 0 ==> down.temperature == 0) && (knob
                == Knob::Brightness && s.brightness == 0 ==> down.brightness == 0)
        }),
    decreases n,
{
    if n > 0 {
        lemma_saturated_counter_stays(s, knob, (n - 1) as nat);
        lemma_pulses_stay_in_range(s, Pulse { knob, direction: Direction::Increase }, (n - 1) as nat);
        lemma_pulses_stay_in_range(s, Pulse { knob, direction: Direction::Decrease }, (n - 1) as nat);
    }
}

/// Pulses keep both counters within `[0, max]`, and leave the bound and the
/// step as they were.
pub proof fn lemma_pulses_stay_in_range(s: EncoderState, p: Pulse, n: nat)
    requires
        in_range(s),
    ensures
        in_range(after_pulses(s, p, n)),
        after_pulses(s, p, n).max == s.max,
        after_pulses(s, p, n).step == s.step,
    decreases n,
{
    if n > 0 {
        lemma_pulses_stay_in_range(s, p, (n - 1) as nat);
    }
}

} // verus!
