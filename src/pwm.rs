use vstd::prelude::*;

use crate::clock::Prescaler;

verus! {

/// Resolution of the PWM timer, which fixes the largest duty.
#[derive(Clone, Copy, Debug, PartialEq, Eq, Structural)]
pub enum PwmAccuracy {
    Low,
    Medium,
    High,
}

impl PwmAccuracy {
    pub open spec fn val_spec(self) -> u16 {
        match self {
            PwmAccuracy::Low => 255,
            PwmAccuracy::Medium => 511,
            PwmAccuracy::High => 1023,
        }
    }

    /// The largest duty: 8, 9 or 10 bits.
    pub fn val(&self) -> (r: u16)
        ensures
            r == self.val_spec(),
            r > 0,
    {
        match self {
            PwmAccuracy::Low => 255,
            PwmAccuracy::Medium => 511,
            PwmAccuracy::High => 1023,
        }
    }

    /// The low waveform-generation bits that select phase-correct PWM of
    /// this width.
    pub fn waveform_bits(&self) -> (r: u8)
        ensures
            r == match self {
                PwmAccuracy::Low => 1u8,
                PwmAccuracy::Medium => 2u8,
                PwmAccuracy::High => 3u8,
            },
    {
        match self {
            PwmAccuracy::Low => 0b01,
            PwmAccuracy::Medium => 0b10,
            PwmAccuracy::High => 0b11,
        }
    }

    /// The clock division used at this width.
    pub fn prescaler(&self) -> (r: Prescaler)
        ensures
            r == match self {
                PwmAccuracy::Low => Prescaler::Div256,
                PwmAccuracy::Medium => Prescaler::Div256,
                PwmAccuracy::High => Prescaler::Div64,
            },
    {
        match self {
            PwmAccuracy::Low => Prescaler::Div256,
            PwmAccuracy::Medium => Prescaler::Div256,
            PwmAccuracy::High => Prescaler::Div64,
        }
    }
}

/// The duties of the two colour channels.
#[derive(Clone, Copy, Debug, PartialEq, Eq, Structural)]
pub struct Duties {
    pub red: u16,
    pub green: u16,
}

pub open spec fn min_int(a: int, b: int) -> int {
    if a <= b {
        a
    } else {
        b
    }
}

/// Red duty: `min(max, temperature) * brightness / max`.
pub open spec fn mix_red(temperature: u16, brightness: u16, max: u16) -> int {
    min_int(max as int, temperature as int) * brightness / max as int
}

/// Green duty: `min(max, 2 * max - temperature) * brightness / max`.
pub open spec fn mix_green(temperature: u16, brightness: u16, max: u16) -> int {
    min_int(max as int, 2 * max - temperature) * brightness / max as int
}

proof fn lemma_scaled_at_most(x: int, b: int, max: int)
    requires
        0 <= x <= max,
        0 <= b,
        max > 0,
    ensures
        0 <= x * b / max <= b,
{
    assert(0 <= x * b <= max * b) by (nonlinear_arith)
        requires
            0 <= x <= max,
            0 <= b,
    ;
    assert(x * b / max <= max * b / max) by (nonlinear_arith)
        requires
            0 <= x * b <= max * b,
            max > 0,
    ;
    assert(max * b / max == b) by (nonlinear_arith)
        requires
            max > 0,
    ;
    assert(0 <= x * b / max) by (nonlinear_arith)
        requires
            0 <= x * b,
            max > 0,
    ;
}

/// Crossfades red and green by `temperature` and scales both by
/// `brightness`. The temperature may run to twice `max`: from `0` (all
/// green) through `max` (both full) to `2 * max` (all red).
pub fn color_mix(temperature: u16, brightness: u16, max: u16) -> (r: Duties)
    requires
        max > 0,
        temperature <= 2 * max,
        brightness <= max,
    ensures
        r.red as int == mix_red(temperature, brightness, max),
        r.green as int == mix_green(temperature, brightness, max),
{
    let m: u32 = max as u32;
    let t: u32 = temperature as u32;
    let b: u32 = brightness as u32;
    let red_part: u32 = if m < t {
        m
    } else {
        t
    };
    let falling: u32 = 2 * m - t;
    let green_part: u32 = if m < falling {
        m
    } else {
        falling
    };
    proof {
        lemma_scaled_at_most(red_part as int, b as int, m as int);
        lemma_scaled_at_most(green_part as int, b as int, m as int);
        assert(red_part * b <= 0xffff * 0xffff) by (nonlinear_arith)
            requires
                red_part <= 0xffff,
                b <= 0xffff,
        ;
        assert(green_part * b <= 0xffff * 0xffff) by (nonlinear_arith)
            requires
                green_part <= 0xffff,
                b <= 0xffff,
        ;
    }
    let red: u32 = red_part * b / m;
    let green: u32 = green_part * b / m;
    Duties { red: red as u16, green: green as u16 }
}

/// Both duties stay within `[0, max]` for every temperature and brightness
/// in `[0, max]`. At full brightness, temperature `0` gives `(0, max)`,
/// temperature `max` gives `(max, max)`, and `(max, 0)` is reached only at
/// temperature `2 * max`.
pub proof fn lemma_mix_in_range(temperature: u16, brightness: u16, max: u16)
    requires
        max > 0,
        temperature <= max,
        brightness <= max,
    ensures
        0 <= mix_red(temperature, brightness, max) <= max,
        0 <= mix_green(temperature, brightness, max) <= max,
        mix_red(0, max, max) == 0,
        mix_green(0, max, max) == max,
        mix_red(max, max, max) == max,
        mix_green(max, max, max) == max,
        max <= 0x7fff ==> mix_red((2 * max) as u16, max, max) == max,
        max <= 0x7fff ==> mix_green((2 * max) as u16, max, max) == 0,
{
    lemma_scaled_at_most(min_int(max as int, temperature as int), brightness as int, max as int);
    lemma_scaled_at_most(
        min_int(max as int, 2 * max - temperature),
        brightness as int,
        max as int,
    );
    assert((max as int) * (max as int) / (max as int) == max as int) by (nonlinear_arith)
        requires
            max > 0,
    ;
    assert(0int * (max as int) / (max as int) == 0) by (nonlinear_arith)
        requires
            max > 0,
    ;
}

/// How one output pin is driven.
#[derive(Clone, Copy, Debug, PartialEq, Eq, Structural)]
pub enum ChannelDrive {
    /// Held low: no light.
    Off,
    /// Held high: full light.
    On,
    /// Switched by the timer with this compare value.
    Duty(u16),
}

/// The drive for a channel with duty `duty` out of `max`: nothing at all
/// while the lamp is off, and a fixed level at either end of the range.
pub open spec fn drive_for(duty: u16, max: u16, powered: bool) -> ChannelDrive {
    if !powered || duty == 0 {
        ChannelDrive::Off
    } else if duty == max {
        ChannelDrive::On
    } else {
        ChannelDrive::Duty(duty)
    }
}

/// Chooses how to drive a channel of duty `duty` out of `max`.
pub fn channel_drive(duty: u16, max: u16, powered: bool) -> (r: ChannelDrive)
    ensures
        r == drive_for(duty, max, powered),
{
    if !powered || duty == 0 {
        ChannelDrive::Off
    } else if duty == max {
        ChannelDrive::On
    } else {
        ChannelDrive::Duty(duty)
    }
}

impl ChannelDrive {
    /// The compare value that makes a phase-correct PWM channel with top
    /// `max` drive the pin this way: `0` holds it low and `max` holds it
    /// high.
    pub fn compare_value(&self, max: u16) -> (r: u16)
        ensures
            r == match self {
                ChannelDrive::Off => 0u16,
                ChannelDrive::On => max,
                ChannelDrive::Duty(d) => *d,
            },
    {
        match self {
            ChannelDrive::Off => 0,
            ChannelDrive::On => max,
            ChannelDrive::Duty(d) => *d,
        }
    }
}

/// How both output pins are driven.
#[derive(Clone, Copy, Debug, PartialEq, Eq, Structural)]
pub struct Outputs {
    pub red: ChannelDrive,
    pub green: ChannelDrive,
}

/// The outputs for the given counters and power state.
pub open spec fn outputs_for(temperature: u16, brightness: u16, max: u16, powered: bool) -> Outputs {
    Outputs {
        red: drive_for(mix_red(temperature, brightness, max) as u16, max, powered),
        green: drive_for(mix_green(temperature, brightness, max) as u16, max, powered),
    }
}

/// Mixes the colours for the given counters and drives both channels,
/// holding both off while the lamp is off.
pub fn outputs(temperature: u16, brightness: u16, max: u16, powered: bool) -> (r: Outputs)
    requires
        max > 0,
        temperature <= 2 * max,
        brightness <= max,
    ensures
        r == outputs_for(temperature, brightness, max, powered),
        !powered ==> r.red == ChannelDrive::Off && r.green == ChannelDrive::Off,
{
    let d = color_mix(temperature, brightness, max);
    Outputs {
        red: channel_drive(d.red, max, powered),
        green: channel_drive(d.green, max, powered),
    }
}

} // verus!
