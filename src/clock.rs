use vstd::prelude::*;

verus! {

/// Number of distinct values of a tick counter.
pub open spec fn tick_modulus() -> int {
    0x1_0000_0000
}

/// Ticks from `since` to `now` on the wrapping 32-bit clock.
pub open spec fn ring_elapsed(since: u32, now: u32) -> int {
    (now as int - since as int) % tick_modulus()
}

/// Ticks that elapsed from `since` to `now`, counting one wraparound of the
/// clock between them.
pub fn elapsed(since: u32, now: u32) -> (r: u32)
    ensures
        r as int == ring_elapsed(since, now),
{
    now.wrapping_sub(since)
}

/// Clock divisions that the tick timer supports.
#[derive(Clone, Copy, Debug, PartialEq, Eq, Structural)]
pub enum Prescaler {
    Div8,
    Div64,
    Div256,
    Div1024,
}

impl Prescaler {
    pub open spec fn divisor_spec(self) -> u32 {
        match self {
            Prescaler::Div8 => 8,
            Prescaler::Div64 => 64,
            Prescaler::Div256 => 256,
            Prescaler::Div1024 => 1024,
        }
    }

    /// The factor by which the timer divides the CPU clock.
    pub fn divisor(&self) -> (r: u32)
        ensures
            r == self.divisor_spec(),
    {
        match self {
            Prescaler::Div8 => 8,
            Prescaler::Div64 => 64,
            Prescaler::Div256 => 256,
            Prescaler::Div1024 => 1024,
        }
    }

    /// The prescaler that divides by `divisor`, if the timer has one.
    /// Any other value is a configuration error.
    pub fn from_divisor(divisor: u32) -> (r: Option<Prescaler>)
        ensures
            r is Some <==> (divisor == 8 || divisor == 64 || divisor == 256 || divisor == 1024),
            r matches Some(p) ==> p.divisor_spec() == divisor,
    {
        match divisor {
            8 => Some(Prescaler::Div8),
            64 => Some(Prescaler::Div64),
            256 => Some(Prescaler::Div256),
            1024 => Some(Prescaler::Div1024),
            _ => None,
        }
    }
}

/// Milliseconds added to the clock on each timer interrupt: the interrupt
/// period `divisor * compare / cpu_khz`, rounded down. The rounding error is
/// not corrected later.
pub fn tick_increment(prescaler: Prescaler, compare: u8, cpu_khz: u32) -> (r: u32)
    requires
        cpu_khz > 0,
    ensures
        r as int == (prescaler.divisor_spec() as int * compare as int) / cpu_khz as int,
{
    let d = prescaler.divisor();
    assert(d as int * compare as int <= 1024 * 255) by (nonlinear_arith)
        requires
            d <= 1024,
    ;
    d * (compare as u32) / cpu_khz
}

/// What a millisecond clock holds: the ticks counted so far and what each
/// timer interrupt adds.
pub struct ClockState {
    pub ticks: u32,
    pub increment: u32,
}

/// Free-running millisecond counter, advanced by a periodic timer interrupt.
pub struct MillisClock {
    ticks: u32,
    increment: u32,
}

impl View for MillisClock {
    type V = ClockState;

    closed spec fn view(&self) -> ClockState {
        ClockState { ticks: self.ticks, increment: self.increment }
    }
}

impl MillisClock {
    /// A clock at zero that advances by `increment` per interrupt.
    pub fn new(increment: u32) -> (r: MillisClock)
        ensures
            r@.ticks == 0,
            r@.increment == increment,
    {
        MillisClock { ticks: 0, increment }
    }

    /// The work of one timer interrupt: advance by the increment, wrapping.
    pub fn on_timer_interrupt(&mut self)
        ensures
            final(self)@.ticks as int == (old(self)@.ticks as int + old(self)@.increment as int)
                % tick_modulus(),
            final(self)@.increment == old(self)@.increment,
    {
        self.ticks = self.ticks.wrapping_add(self.increment);
    }

    /// The ticks counted so far.
    pub fn now(&self) -> (r: u32)
        ensures
            r == self@.ticks,
    {
        self.ticks
    }

    /// Sets the count back to zero.
    pub fn reset(&mut self)
        ensures
            final(self)@.ticks == 0,
            final(self)@.increment == old(self)@.increment,
    {
        self.ticks = 0;
    }
}

} // verus!
