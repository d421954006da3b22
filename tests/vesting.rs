use streamflow::error::StreamflowError;
use streamflow::vesting::{StreamConfig, StreamType};

fn schedule(stream_type: StreamType, start: i64, end: i64, cliff: Option<i64>, step: u64) -> StreamConfig {
    StreamConfig {
        stream_type,
        start_time: start,
        end_time: end,
        cliff_time: cliff,
        step_interval: step,
    }
}

#[test]
fn linear_example_vests_half_at_midpoint() {
    let c = schedule(StreamType::Linear, 0, 100, None, 1);
    assert_eq!(c.calculate_vested_amount(1000, 50), 500);
    assert_eq!(c.calculate_vested_amount(1000, 100), 1000);
}

#[test]
fn linear_endpoints() {
    let c = schedule(StreamType::Linear, 10, 110, None, 1);
    assert_eq!(c.calculate_vested_amount(777, 10), 0);
    assert_eq!(c.calculate_vested_amount(777, 110), 777);
    assert_eq!(c.calculate_vested_amount(777, 60), 777 / 2);
}

#[test]
fn linear_rounds_down() {
    let c = schedule(StreamType::Linear, 0, 3, None, 1);
    assert_eq!(c.calculate_vested_amount(10, 1), 3);
    assert_eq!(c.calculate_vested_amount(10, 2), 6);
}

#[test]
fn linear_with_cliff_starts_at_cliff() {
    let c = schedule(StreamType::Linear, 0, 100, Some(50), 1);
    assert_eq!(c.calculate_vested_amount(1000, 49), 0);
    assert_eq!(c.calculate_vested_amount(1000, 50), 0);
    assert_eq!(c.calculate_vested_amount(1000, 75), 500);
    assert_eq!(c.calculate_vested_amount(1000, 100), 1000);
}

#[test]
fn before_start_and_after_end() {
    let c = schedule(StreamType::Linear, 100, 200, None, 1);
    assert_eq!(c.calculate_vested_amount(500, -5), 0);
    assert_eq!(c.calculate_vested_amount(500, 99), 0);
    assert_eq!(c.calculate_vested_amount(500, 1_000_000), 500);
}

#[test]
fn cliff_is_all_or_nothing() {
    let c = schedule(StreamType::Cliff, 0, 100, Some(40), 1);
    assert_eq!(c.calculate_vested_amount(1000, 39), 0);
    assert_eq!(c.calculate_vested_amount(1000, 40), 1000);
    assert_eq!(c.calculate_vested_amount(1000, 41), 1000);
    for t in -10..120 {
        let v = c.calculate_vested_amount(1000, t);
        assert!(v == 0 || v == 1000);
    }
}

#[test]
fn cliff_without_cliff_time_unlocks_at_start() {
    let c = schedule(StreamType::Cliff, 20, 100, None, 1);
    assert_eq!(c.calculate_vested_amount(1000, 19), 0);
    assert_eq!(c.calculate_vested_amount(1000, 20), 1000);
}

#[test]
fn stepped_example() {
    let c = schedule(StreamType::SteppedLinear, 0, 120, None, 30);
    assert_eq!(c.calculate_vested_amount(1200, 29), 0);
    assert_eq!(c.calculate_vested_amount(1200, 30), 300);
    assert_eq!(c.calculate_vested_amount(1200, 59), 300);
    assert_eq!(c.calculate_vested_amount(1200, 60), 600);
    assert_eq!(c.calculate_vested_amount(1200, 120), 1200);
}

#[test]
fn stepped_is_constant_between_steps() {
    let c = schedule(StreamType::SteppedLinear, 0, 120, None, 30);
    for t in 0..120 {
        let step_start = (t / 30) * 30;
        assert_eq!(
            c.calculate_vested_amount(1200, t),
            c.calculate_vested_amount(1200, step_start)
        );
    }
}

#[test]
fn stepped_with_partial_last_step() {
    let c = schedule(StreamType::SteppedLinear, 0, 100, None, 30);
    assert_eq!(c.calculate_vested_amount(900, 29), 0);
    assert_eq!(c.calculate_vested_amount(900, 30), 300);
    assert_eq!(c.calculate_vested_amount(900, 90), 900);
    assert_eq!(c.calculate_vested_amount(900, 99), 900);
}

#[test]
fn vested_is_bounded_and_monotonic() {
    let schedules = [
        schedule(StreamType::Linear, 0, 97, None, 1),
        schedule(StreamType::Linear, 0, 97, Some(13), 1),
        schedule(StreamType::Cliff, 0, 97, Some(50), 1),
        schedule(StreamType::SteppedLinear, 0, 97, Some(40), 7),
    ];
    for c in schedules.iter() {
        let mut last = 0u64;
        for t in -5..110 {
            let v = c.calculate_vested_amount(12345, t);
            assert!(v <= 12345);
            assert!(v >= last);
            last = v;
        }
    }
}

#[test]
fn largest_amount_and_widest_schedule_do_not_overflow() {
    let c = schedule(StreamType::Linear, i64::MIN, i64::MAX, None, 1);
    assert_eq!(c.calculate_vested_amount(u64::MAX, i64::MIN), 0);
    assert_eq!(c.calculate_vested_amount(u64::MAX, i64::MAX), u64::MAX);
    assert_eq!(c.calculate_vested_amount(u64::MAX, i64::MAX - 1), u64::MAX - 1);
    assert_eq!(c.duration(), u64::MAX);
    let s = schedule(StreamType::SteppedLinear, i64::MIN, i64::MAX, None, 1 << 62);
    assert_eq!(s.calculate_vested_amount(u64::MAX, 0), u64::MAX / 3 * 2);
}

#[test]
fn is_cliff_reached_uses_cliff_or_start() {
    let with_cliff = schedule(StreamType::Linear, 0, 100, Some(30), 1);
    assert!(!with_cliff.is_cliff_reached(29));
    assert!(with_cliff.is_cliff_reached(30));
    let without = schedule(StreamType::Linear, 5, 100, None, 1);
    assert!(!without.is_cliff_reached(4));
    assert!(without.is_cliff_reached(5));
}

#[test]
fn validate_reports_first_failure() {
    assert_eq!(schedule(StreamType::Linear, 0, 100, None, 1).validate(), Ok(()));
    assert_eq!(
        schedule(StreamType::Linear, 100, 100, Some(200), 0).validate(),
        Err(StreamflowError::InvalidEndTime)
    );
    assert_eq!(
        schedule(StreamType::Linear, 0, 100, Some(101), 0).validate(),
        Err(StreamflowError::InvalidCliffTime)
    );
    assert_eq!(
        schedule(StreamType::Linear, 0, 100, Some(-1), 1).validate(),
        Err(StreamflowError::InvalidCliffTime)
    );
    assert_eq!(
        schedule(StreamType::Linear, 0, 100, None, 0).validate(),
        Err(StreamflowError::InvalidStepInterval)
    );
    assert_eq!(
        schedule(StreamType::SteppedLinear, 0, 100, None, 101).validate(),
        Err(StreamflowError::InvalidStepInterval)
    );
    assert_eq!(schedule(StreamType::Linear, 0, 100, None, 101).validate(), Ok(()));
    assert_eq!(schedule(StreamType::Cliff, 0, 100, Some(100), 1).validate(), Ok(()));
}

#[test]
fn duration_and_default() {
    assert_eq!(schedule(StreamType::Linear, -50, 50, None, 1).duration(), 100);
    let d = StreamConfig::default();
    assert_eq!(d.stream_type, StreamType::Linear);
    assert_eq!(d.start_time, 0);
    assert_eq!(d.end_time, 0);
    assert_eq!(d.cliff_time, None);
    assert_eq!(d.validate(), Err(StreamflowError::InvalidEndTime));
}
