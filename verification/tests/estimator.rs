use melty_control::estimator::{
    accelerometer_data, angular_speed, Estimator, ACCELEROMETER_POSITION, CALIBRATION_SAMPLES,
    CALIBRATION_SECONDS, SAMPLE_HZ,
};
use melty_control::state::{StateVector, OMEGA_MAX};

fn calibrated(window: u32, radius: u32, readings: &[Option<i32>]) -> Estimator {
    let mut estimator = Estimator::new(window, radius).unwrap();
    let mut state = StateVector::initial(0);
    for (i, reading) in readings.iter().enumerate() {
        accelerometer_data(&mut estimator, &mut state, *reading, i as u64);
    }
    assert_eq!(state, StateVector::initial(0));
    estimator
}

#[test]
fn new_refuses_an_empty_window_and_a_zero_radius() {
    assert!(Estimator::new(0, 6000).is_none());
    assert!(Estimator::new(4000, 0).is_none());
    assert!(Estimator::new(1, 1).is_some());
}

#[test]
fn standard_window_is_five_seconds_of_samples() {
    assert_eq!(CALIBRATION_SAMPLES as u64, SAMPLE_HZ * CALIBRATION_SECONDS as u64);
    assert_eq!(Estimator::standard(), Estimator::new(4000, 6000).unwrap());
    assert_eq!(ACCELEROMETER_POSITION, 6000);
}

#[test]
fn offset_comes_when_the_window_has_gone_by() {
    let mut estimator = Estimator::new(3, 6000).unwrap();
    let mut state = StateVector::initial(0);
    for reading in [30, 60] {
        assert!(!estimator.is_calibrated());
        assert_eq!(estimator.offset(), None);
        accelerometer_data(&mut estimator, &mut state, Some(reading), 5);
    }
    accelerometer_data(&mut estimator, &mut state, Some(90), 5);
    assert!(estimator.is_calibrated());
    assert_eq!(estimator.offset(), Some(60));
}

#[test]
fn offset_is_the_mean_of_the_readings() {
    let estimator = calibrated(4, 6000, &[Some(10), Some(20), Some(30), Some(40)]);
    assert_eq!(estimator.offset(), Some(25));
}

#[test]
fn failed_reads_are_not_counted() {
    // Three readings out of four periods: 36 over 3, not over 4.
    let estimator = calibrated(4, 6000, &[Some(10), None, Some(30), Some(-4)]);
    assert_eq!(estimator.offset(), Some(12));
    let single = calibrated(5, 6000, &[None, None, Some(-77), None, None]);
    assert_eq!(single.offset(), Some(-77));
}

#[test]
fn offset_without_any_reading_is_zero() {
    let all_failed = calibrated(3, 6000, &[None, None, None]);
    assert!(all_failed.is_calibrated());
    assert_eq!(all_failed.offset(), Some(0));
}

#[test]
fn window_ends_after_its_periods_whatever_was_read() {
    let mut estimator = Estimator::new(4, 6000).unwrap();
    let mut state = StateVector::initial(0);
    for reading in [None, Some(8), None] {
        accelerometer_data(&mut estimator, &mut state, reading, 1);
        assert!(!estimator.is_calibrated());
    }
    accelerometer_data(&mut estimator, &mut state, None, 1);
    assert!(estimator.is_calibrated());
    assert_eq!(estimator.offset(), Some(8));
    assert_eq!(state, StateVector::initial(0));
}

#[test]
fn offset_of_equal_readings_is_that_reading() {
    for successes in [1usize, 2, 7, 39, 40] {
        let mut readings: Vec<Option<i32>> = vec![None; 40];
        for slot in readings.iter_mut().take(successes) {
            *slot = Some(1_000_000);
        }
        assert_eq!(calibrated(40, 6000, &readings).offset(), Some(1_000_000));
        readings.reverse();
        assert_eq!(calibrated(40, 6000, &readings).offset(), Some(1_000_000));
    }
}

#[test]
fn scenario_every_other_read_fails_during_calibration() {
    // Four thousand periods: a reading of one metre per second squared and a failed read in
    // turn.
    let mut estimator = Estimator::standard();
    let mut state = StateVector::initial(0);
    for period in 0..4000u64 {
        let reading: Option<i32> = if period % 2 == 0 { Some(1_000_000) } else { None };
        assert!(!estimator.is_calibrated());
        accelerometer_data(&mut estimator, &mut state, reading, (period + 1) * 1_250);
    }
    assert!(estimator.is_calibrated());
    assert_eq!(estimator.offset(), Some(1_000_000));
    assert_eq!(state, StateVector::initial(0));
    // The same reading afterwards stands for no rotation at all.
    accelerometer_data(&mut estimator, &mut state, Some(1_000_000), 5_001_250);
    assert_eq!(state.omega(), 0);
    assert_eq!(state.theta(), 0);
    assert_eq!(state.time(), 5_001_250);
}

#[test]
fn offset_rounds_toward_zero() {
    assert_eq!(calibrated(2, 1, &[Some(3), Some(4)]).offset(), Some(3));
    assert_eq!(calibrated(2, 1, &[Some(-3), Some(-4)]).offset(), Some(-3));
}

#[test]
fn offset_of_extreme_readings() {
    assert_eq!(calibrated(2, 1, &[Some(i32::MIN), Some(i32::MIN)]).offset(), Some(i32::MIN));
    assert_eq!(calibrated(2, 1, &[Some(i32::MAX), Some(i32::MAX)]).offset(), Some(i32::MAX));
}

#[test]
fn calibration_leaves_the_state_alone() {
    let mut estimator = Estimator::new(2, 6000).unwrap();
    let start = StateVector::new(500, 123, 456).unwrap();
    let mut state = start;
    accelerometer_data(&mut estimator, &mut state, Some(24_000), 1_000);
    accelerometer_data(&mut estimator, &mut state, None, 2_000);
    assert_eq!(state, start);
    assert!(estimator.is_calibrated());
}

#[test]
fn angular_speed_is_the_root_of_acceleration_over_radius() {
    assert_eq!(angular_speed(24_000, 6_000), 2_000_000);
    assert_eq!(angular_speed(0, 6_000), 0);
    assert_eq!(angular_speed(6_000, 6_000), 1_000_000);
    // The root of 2, in millionths and rounded down.
    assert_eq!(angular_speed(12_000, 6_000), 1_414_213);
}

#[test]
fn angular_speed_stays_within_the_limit() {
    assert_eq!(angular_speed(u32::MAX, 1), 65_535_999_992);
    assert!(angular_speed(u32::MAX, 1) <= OMEGA_MAX);
}

#[test]
fn steady_state_takes_the_reading_into_the_state() {
    let mut estimator = calibrated(2, 6_000, &[Some(1_000), Some(1_000)]);
    assert_eq!(estimator.offset(), Some(1_000));
    let before = estimator;
    let mut state = StateVector::new(1_000_000, 7, 1_000_000).unwrap();
    // 25 mm/s^2 read, 1 mm/s^2 of it offset: 2 rad/s.
    accelerometer_data(&mut estimator, &mut state, Some(25_000), 3_000_000);
    assert_eq!(estimator, before);
    assert_eq!(state.time(), 3_000_000);
    assert_eq!(state.omega(), 2_000_000);
    // Mean of 1 rad/s and 2 rad/s over 2 s: 3 rad.
    assert_eq!(state.theta(), 7 + 3_000_000_000_000);
}

#[test]
fn steady_state_takes_the_distance_from_the_offset() {
    let mut estimator = calibrated(1, 6_000, &[Some(30_000)]);
    let mut state = StateVector::initial(0);
    accelerometer_data(&mut estimator, &mut state, Some(6_000), 10);
    assert_eq!(state.omega(), 2_000_000);
}

#[test]
fn steady_state_skips_a_failed_read() {
    let mut estimator = calibrated(1, 6_000, &[Some(0)]);
    let start = StateVector::new(10, 20, 30).unwrap();
    let mut state = start;
    accelerometer_data(&mut estimator, &mut state, None, 99);
    assert_eq!(state, start);
    // A failed read may even come with a time before the state's own.
    accelerometer_data(&mut estimator, &mut state, None, 0);
    assert_eq!(state, start);
}

#[test]
fn constant_reading_settles_with_the_second_reading() {
    let mut estimator = calibrated(1, 6_000, &[Some(0)]);
    let mut state = StateVector::new(0, 0, 9_000_000).unwrap();
    accelerometer_data(&mut estimator, &mut state, Some(24_000), 1_000);
    assert_eq!(state.omega(), 2_000_000);
    let first = state;
    accelerometer_data(&mut estimator, &mut state, Some(-24_000), 5_000);
    assert_eq!(state.omega(), 2_000_000);
    assert_eq!(state, first.predict(5_000));
}

// The estimate cannot tell the two directions of rotation apart: readings on either side of the
// offset all make the angle grow.
#[test]
fn theta_never_turns_back() {
    let mut estimator = Estimator::new(3, 6_000).unwrap();
    let mut state = StateVector::initial(0);
    let readings: [Option<i32>; 9] = [
        Some(5),
        None,
        Some(-5),
        Some(100_000),
        None,
        Some(-3),
        Some(0),
        Some(i32::MAX),
        Some(i32::MIN),
    ];
    let mut last: i128 = state.theta();
    for (i, reading) in readings.iter().enumerate() {
        accelerometer_data(&mut estimator, &mut state, *reading, 1_250 * (i as u64 + 1));
        assert!(state.theta() >= last);
        last = state.theta();
    }
    assert!(last > 0);
}

#[test]
fn scenario_held_magnitude_gives_two_radians_per_second() {
    let mut estimator = calibrated(4, 6_000, &[Some(0), Some(0), Some(0), Some(0)]);
    let mut state = StateVector::initial(0);
    for tick in 1..=5u64 {
        accelerometer_data(&mut estimator, &mut state, Some(24_000), tick * 1_250);
        assert_eq!(state.omega(), 2_000_000);
    }
}
