//! Logic of a set of small STM32F4 programs: an ultrasonic trigger/echo range
//! finder, a button that toggles an LED, and a button that steps a blink delay.
//! The hardware itself (pins, timers, interrupts) is driven by the caller; this
//! crate decides what to do with what the hardware reports.

pub mod blink;
pub mod echo;
pub mod sensor;

use vstd::prelude::*;

verus! {

} // verus!
