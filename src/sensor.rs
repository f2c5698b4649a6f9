//! An ultrasonic trigger/echo sensor: the trigger line, the echo line, and the
//! delay source that times the trigger pulse.

use vstd::prelude::*;

verus! {

/// The three parts a ranging cycle needs. The caller drives them: it raises
/// `trigger_pin` for `echo::TRIGGER_PULSE_US` microseconds using `delay`,
/// then feeds the level of `echo_pin` into an `echo::Ranging`.
pub struct UltrasonicSensor<T, E, D> {
    pub trigger_pin: T,
    pub echo_pin: E,
    pub delay: D,
}

impl<T, E, D> UltrasonicSensor<T, E, D> {
    /// Puts the trigger line, the echo line and the delay source together.
    pub fn new(trigger_pin: T, echo_pin: E, delay: D) -> (r: Self)
        ensures
            r.trigger_pin == trigger_pin,
            r.echo_pin == echo_pin,
            r.delay == delay,
    {
        Self { trigger_pin, echo_pin, delay }
    }
}

} // verus!
