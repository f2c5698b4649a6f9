//! Timing of an ultrasonic echo and the distance it stands for.

use vstd::prelude::*;

verus! {

/// Width of the pulse on the trigger line that starts a ranging cycle.
pub const TRIGGER_PULSE_US: u32 = 10;

/// Period of the timer that starts one ranging cycle after another.
pub const RANGING_PERIOD_MS: u32 = 100;

/// Hundredths of a centimetre of distance for each microsecond of echo.
pub const HUNDREDTHS_CM_PER_US: u64 = 17;

/// Microseconds from `start` to `end` on a free-running 32-bit microsecond
/// counter that may have wrapped once in between. A gap of more than half
/// the counter's range means `end` was read before `start`: then `None`.
pub open spec fn elapsed_spec(start: u32, end: u32) -> Option<u32> {
    let d: int = if end >= start { end - start } else { end + 0x1_0000_0000 - start };
    if d <= 0x7fff_ffff {
        Some(d as u32)
    } else {
        None
    }
}

/// Relies on fugit's `Instant::checked_duration_since` for a 1 MHz `u32`
/// instant (the type a microsecond counter reports), then `Duration::to_micros`,
/// which at 1 MHz is the tick count itself.
#[verifier::external_body]
fn checked_elapsed_us(start: u32, end: u32) -> (r: Option<u32>)
    ensures
        r == elapsed_spec(start, end),
{
    let start = fugit::TimerInstantU32::<1_000_000>::from_ticks(start);
    let end = fugit::TimerInstantU32::<1_000_000>::from_ticks(end);
    end.checked_duration_since(start).map(|d| d.to_micros())
}

/// Distance, in hundredths of a centimetre, for an echo of `echo_us`
/// microseconds: 0.17 cm per microsecond.
pub open spec fn distance_spec(echo_us: u32) -> int {
    echo_us * 17
}

/// Distance in hundredths of a centimetre for an echo that lasted `echo_us`
/// microseconds.
pub fn distance_hundredths_cm(echo_us: u32) -> (r: u64)
    ensures
        r == distance_spec(echo_us),
{
    echo_us as u64 * HUNDREDTHS_CM_PER_US
}

/// Progress of one ranging cycle, after the trigger pulse was sent, as the
/// echo line is sampled together with a free-running microsecond counter.
#[derive(Clone, Copy, Debug, PartialEq, Eq, Structural)]
pub enum Ranging {
    /// The echo line has not gone high yet.
    AwaitingEcho,
    /// The echo line went high when the counter read `start`.
    EchoHigh { start: u32 },
    /// The echo line stayed high for `echo_us` microseconds.
    Complete { echo_us: u32 },
    /// The counter readings were out of order: no duration can be told.
    Invalid,
}

impl Ranging {
    /// The state right after the trigger pulse.
    pub fn start() -> (r: Ranging)
        ensures
            r == Ranging::AwaitingEcho,
    {
        Ranging::AwaitingEcho
    }

    /// True once the cycle has ended, with a duration or without one.
    pub open spec fn is_finished(self) -> bool {
        self is Complete || self is Invalid
    }

    /// The state after one sample: the echo line's level `echo_high`, read
    /// when the counter showed `now`.
    pub open spec fn next_spec(self, echo_high: bool, now: u32) -> Ranging {
        match self {
            Ranging::AwaitingEcho => if echo_high {
                Ranging::EchoHigh { start: now }
            } else {
                Ranging::AwaitingEcho
            },
            Ranging::EchoHigh { start } => if echo_high {
                self
            } else {
                match elapsed_spec(start, now) {
                    Some(us) => Ranging::Complete { echo_us: us },
                    None => Ranging::Invalid,
                }
            },
            _ => self,
        }
    }

    /// Takes one sample of the echo line into account.
    pub fn sample(self, echo_high: bool, now: u32) -> (r: Ranging)
        ensures
            r == self.next_spec(echo_high, now),
            self.is_finished() ==> r == self,
    {
        match self {
            Ranging::AwaitingEcho => if echo_high {
                Ranging::EchoHigh { start: now }
            } else {
                Ranging::AwaitingEcho
            },
            Ranging::EchoHigh { start } => if echo_high {
                self
            } else {
                match checked_elapsed_us(start, now) {
                    Some(us) => Ranging::Complete { echo_us: us },
                    None => Ranging::Invalid,
                }
            },
            _ => self,
        }
    }

    /// True once no further sample changes the state.
    pub fn finished(&self) -> (r: bool)
        ensures
            r == self.is_finished(),
    {
        match self {
            Ranging::Complete { .. } | Ranging::Invalid => true,
            _ => false,
        }
    }

    /// The measured distance, in hundredths of a centimetre, once the cycle
    /// has completed with a duration.
    pub fn distance_hundredths_cm(&self) -> (r: Option<u64>)
        ensures
            r == (match *self {
                Ranging::Complete { echo_us } => Some(distance_spec(echo_us) as u64),
                _ => None,
            }),
    {
        match self {
            Ranging::Complete { echo_us } => Some(distance_hundredths_cm(*echo_us)),
            _ => None,
        }
    }
}

/// An echo line that goes high when the counter reads `rise` and low again
/// when it reads `fall`, no more than half the counter's range later, gives a
/// duration of the counter's advance and 0.17 cm for each microsecond of it,
/// whatever low samples came before the rise and high ones before the fall.
pub proof fn lemma_pulse_gives_distance(rise: u32, fall: u32, before: u32, during: u32)
    ensures
        ({
            let advance: int = if fall >= rise { fall - rise } else { fall + 0x1_0000_0000 - rise };
            let done = Ranging::AwaitingEcho.next_spec(false, before).next_spec(true, rise)
                .next_spec(true, during).next_spec(false, fall);
            &&& advance <= 0x7fff_ffff ==> done == Ranging::Complete { echo_us: advance as u32 }
            &&& advance > 0x7fff_ffff ==> done == Ranging::Invalid
        }),
{
}

} // verus!
