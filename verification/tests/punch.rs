use scrolling_led::punch::{Countdown, PunchAction, PunchMeter, MEASURE_CYCLES, PUNCH_THRESHOLD, SAMPLE_DELAY_MS};

#[test]
fn quiet_readings_start_nothing() {
    let mut meter = PunchMeter::new();
    for x in [0, -500, 299, 300, i32::MIN] {
        assert_eq!(meter.on_sample(x, Countdown::Running), PunchAction::Wait);
        assert_eq!(meter.on_sample(x, Countdown::Elapsed), PunchAction::Wait);
        assert!(!meter.is_measuring());
        assert_eq!(meter.max_punch(), 0);
    }
}

#[test]
fn reading_above_the_threshold_starts_the_countdown() {
    let mut meter = PunchMeter::new();
    assert_eq!(meter.on_sample(301, Countdown::Elapsed), PunchAction::StartCountdown(10_000));
    assert!(meter.is_measuring());
    assert_eq!(meter.max_punch(), 301);
    assert_eq!(PUNCH_THRESHOLD, 300);
    assert_eq!(MEASURE_CYCLES, 10_000);
    assert_eq!(SAMPLE_DELAY_MS, 50);
}

#[test]
fn largest_reading_is_kept_and_reported() {
    let mut meter = PunchMeter::new();
    meter.on_sample(400, Countdown::Running);
    for x in [350, 900, -20, 899, 900, 120] {
        assert_eq!(meter.on_sample(x, Countdown::Running), PunchAction::Wait);
    }
    assert_eq!(meter.max_punch(), 900);
    // the reading that comes with the end of the countdown does not count
    assert_eq!(meter.on_sample(5000, Countdown::Elapsed), PunchAction::Report(900));
    assert!(!meter.is_measuring());
    assert_eq!(meter.max_punch(), 900);
}

#[test]
fn next_punch_starts_from_its_own_first_reading() {
    let mut meter = PunchMeter::new();
    meter.on_sample(1000, Countdown::Running);
    meter.on_sample(0, Countdown::Elapsed);
    assert_eq!(meter.on_sample(100, Countdown::Running), PunchAction::Wait);
    assert_eq!(meter.on_sample(310, Countdown::Running), PunchAction::StartCountdown(MEASURE_CYCLES));
    assert_eq!(meter.max_punch(), 310);
    assert_eq!(meter.on_sample(305, Countdown::Elapsed), PunchAction::Report(310));
}
