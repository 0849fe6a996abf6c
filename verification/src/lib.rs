//! Firmware core for a word-based wall clock.
//!
//! The crate decodes a DCF77 radio time signal from edge-timing events,
//! maps the decoded time to a set of illuminated German time phrases with
//! a multiplexed line-driver activation pattern, and computes gradual
//! brightness transitions for the LED outputs. Hardware access (pins,
//! timers, PWM, ADC) is left to the surrounding scheduler, which hands
//! plain values in and carries command sequences out.

use vstd::prelude::*;

pub mod bits;
pub mod brightness;
pub mod calendar;
pub mod cli;
pub mod dcf77;
pub mod display;
pub mod serial;

verus! {

} // verus!
