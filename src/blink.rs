//! Rules of the LED programs: a button press steps the blink delay down and
//! wraps it round, or toggles the LED; a timer reports the LED's state.

use vstd::prelude::*;

verus! {

/// The blink delay at start-up, and the one it wraps back to.
pub const BLINK_DELAY_MAX_MS: u32 = 2000;

/// How much each button press shortens the blink delay, and the shortest
/// delay kept.
pub const BLINK_DELAY_STEP_MS: u32 = 500;

/// The delays the button cycles through: 2000, 1500, 1000 and 500 ms.
pub open spec fn is_blink_delay(d: u32) -> bool {
    d == 2000 || d == 1500 || d == 1000 || d == 500
}

/// The delay after one button press: one step shorter, or back to the
/// longest once it would drop under one step.
pub open spec fn next_blink_delay_spec(d: u32) -> int {
    if d - 500 < 500 {
        2000
    } else {
        d - 500
    }
}

/// The blink delay after a button press, from the delay before it.
pub fn next_blink_delay(current_ms: u32) -> (r: u32)
    requires
        current_ms >= BLINK_DELAY_STEP_MS,
    ensures
        r == next_blink_delay_spec(current_ms),
        is_blink_delay(current_ms) ==> is_blink_delay(r),
{
    let shorter: u32 = current_ms - BLINK_DELAY_STEP_MS;
    if shorter < BLINK_DELAY_STEP_MS {
        BLINK_DELAY_MAX_MS
    } else {
        shorter
    }
}

/// Four presses bring any delay of the cycle back to itself, and every
/// delay of the cycle is one that a press accepts.
pub proof fn lemma_blink_delay_cycle(d: u32)
    requires
        is_blink_delay(d),
    ensures
        d >= 500,
        next_blink_delay_spec(
            next_blink_delay_spec(
                next_blink_delay_spec(next_blink_delay_spec(d) as u32) as u32,
            ) as u32,
        ) == d,
{
}

/// Whether the LED is on after a button press: a press lights an LED whose
/// output was low and switches off one whose output was high.
pub fn led_on_after_press(output_was_low: bool) -> (r: bool)
    ensures
        r == output_was_low,
{
    output_was_low
}

/// The line the periodic report prints for the LED's state.
pub fn led_report(led_on: bool) -> (r: &'static str)
    ensures
        led_on ==> r@ == "LED is ON"@,
        !led_on ==> r@ == "LED is OFF"@,
{
    if led_on {
        "LED is ON"
    } else {
        "LED is OFF"
    }
}

} // verus!
