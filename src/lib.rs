//! Logic of a rotary-encoder lamp with two colour channels: a millisecond
//! clock kept by a timer interrupt, a debounced push button, the encoder's
//! edge decoder with bounded counters, the colour mix, and the decisions of
//! the main loop. Pin reads, register writes and critical sections belong to
//! the program that runs on the device; every function here takes and
//! returns plain values.

pub mod button;
pub mod clock;
pub mod control;
pub mod encoder;
pub mod pwm;
