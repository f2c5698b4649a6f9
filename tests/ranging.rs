use ultrasonic_sensor::echo::{Ranging, HUNDREDTHS_CM_PER_US, TRIGGER_PULSE_US, RANGING_PERIOD_MS};
use ultrasonic_sensor::echo::distance_hundredths_cm;
use ultrasonic_sensor::sensor::UltrasonicSensor;

fn run(samples: &[(bool, u32)]) -> Ranging {
    let mut r = Ranging::start();
    for &(high, now) in samples {
        r = r.sample(high, now);
    }
    r
}

#[test]
fn waits_while_echo_low() {
    let r = run(&[(false, 5), (false, 9)]);
    assert_eq!(r, Ranging::AwaitingEcho);
    assert!(!r.finished());
    assert_eq!(r.distance_hundredths_cm(), None);
}

#[test]
fn rise_records_counter() {
    let r = run(&[(false, 5), (true, 120)]);
    assert_eq!(r, Ranging::EchoHigh { start: 120 });
    assert!(!r.finished());
}

#[test]
fn fall_gives_duration_and_distance() {
    let r = run(&[(false, 5), (true, 1_000), (true, 1_500), (false, 2_000)]);
    assert_eq!(r, Ranging::Complete { echo_us: 1_000 });
    assert!(r.finished());
    // 1000 us at 0.17 cm/us is 170 cm
    assert_eq!(r.distance_hundredths_cm(), Some(17_000));
}

#[test]
fn duration_across_counter_wrap() {
    let r = run(&[(true, u32::MAX - 9), (false, 20)]);
    assert_eq!(r, Ranging::Complete { echo_us: 30 });
    assert_eq!(r.distance_hundredths_cm(), Some(510));
}

#[test]
fn zero_length_echo() {
    let r = run(&[(true, 77), (false, 77)]);
    assert_eq!(r, Ranging::Complete { echo_us: 0 });
    assert_eq!(r.distance_hundredths_cm(), Some(0));
}

#[test]
fn largest_duration_accepted() {
    let r = run(&[(true, 0), (false, 0x7fff_ffff)]);
    assert_eq!(r, Ranging::Complete { echo_us: 0x7fff_ffff });
}

#[test]
fn counter_read_out_of_order_is_invalid() {
    let r = run(&[(true, 100), (false, 40)]);
    assert_eq!(r, Ranging::Invalid);
    assert!(r.finished());
    assert_eq!(r.distance_hundredths_cm(), None);
    let r = run(&[(true, 0), (false, 0x8000_0000)]);
    assert_eq!(r, Ranging::Invalid);
}

#[test]
fn finished_cycle_ignores_later_samples() {
    let done = run(&[(true, 10), (false, 35)]);
    assert_eq!(done.sample(true, 50), done);
    assert_eq!(done.sample(false, 90), done);
    assert_eq!(Ranging::Invalid.sample(true, 1), Ranging::Invalid);
}

#[test]
fn distance_formula() {
    assert_eq!(distance_hundredths_cm(0), 0);
    assert_eq!(distance_hundredths_cm(1), 17);
    assert_eq!(distance_hundredths_cm(588), 9_996);
    assert_eq!(distance_hundredths_cm(u32::MAX), u32::MAX as u64 * 17);
    assert_eq!(HUNDREDTHS_CM_PER_US, 17);
    assert_eq!(TRIGGER_PULSE_US, 10);
    assert_eq!(RANGING_PERIOD_MS, 100);
}

#[test]
fn sensor_keeps_its_parts() {
    let s = UltrasonicSensor::new(2u8, 3u16, "delay");
    assert_eq!(s.trigger_pin, 2);
    assert_eq!(s.echo_pin, 3);
    assert_eq!(s.delay, "delay");
}
