use melty_control::state::{StateVector, OMEGA_MAX, THETA_MARGIN};

#[test]
fn initial_state_is_at_rest() {
    let s = StateVector::initial(42);
    assert_eq!(s.time(), 42);
    assert_eq!(s.theta(), 0);
    assert_eq!(s.omega(), 0);
}

#[test]
fn new_keeps_its_components() {
    let s = StateVector::new(7, -3, 9).unwrap();
    assert_eq!(s.time(), 7);
    assert_eq!(s.theta(), -3);
    assert_eq!(s.omega(), 9);
}

#[test]
fn new_refuses_an_angular_velocity_beyond_the_limit() {
    assert!(StateVector::new(0, 0, OMEGA_MAX).is_some());
    assert!(StateVector::new(0, 0, OMEGA_MAX + 1).is_none());
}

#[test]
fn new_refuses_an_angle_beyond_the_margin() {
    assert!(StateVector::new(0, THETA_MARGIN, 0).is_some());
    assert!(StateVector::new(0, THETA_MARGIN + 1, 0).is_none());
    assert!(StateVector::new(0, -THETA_MARGIN, 0).is_some());
    assert!(StateVector::new(0, -THETA_MARGIN - 1, 0).is_none());
}

#[test]
fn new_widens_the_margin_with_time() {
    let time: u64 = 10;
    let limit: i128 = THETA_MARGIN + (OMEGA_MAX as i128) * (time as i128);
    assert!(StateVector::new(time, limit, 0).is_some());
    assert!(StateVector::new(time, limit + 1, 0).is_none());
}

#[test]
fn predict_at_own_time_is_identity() {
    let s = StateVector::new(1_000, 5_000_000_000_000, 2_000_000).unwrap();
    assert_eq!(s.predict(1_000), s);
}

#[test]
fn predict_advances_by_omega_times_elapsed() {
    // 2 rad/s for 1.5 s from 5 rad: 8 rad.
    let s = StateVector::new(1_000_000, 5_000_000_000_000, 2_000_000).unwrap();
    let p = s.predict(2_500_000);
    assert_eq!(p.time(), 2_500_000);
    assert_eq!(p.omega(), 2_000_000);
    assert_eq!(p.theta(), 8_000_000_000_000);
}

#[test]
fn predict_in_two_steps_is_predict_in_one() {
    let s = StateVector::new(10, -77, 1_234_567).unwrap();
    assert_eq!(s.predict(4_321).predict(987_654_321), s.predict(987_654_321));
    assert_eq!(s.predict(10).predict(11), s.predict(11));
}

#[test]
fn predict_never_turns_back() {
    let s = StateVector::new(100, -5_000, 3).unwrap();
    let mut last: i128 = s.theta();
    for now in [100u64, 101, 5_000, 5_000, 1_000_000_000] {
        let p = s.predict(now);
        assert!(p.theta() >= last);
        last = p.theta();
    }
}

#[test]
fn predict_reaches_the_end_of_the_clock() {
    let s = StateVector::new(0, THETA_MARGIN, OMEGA_MAX).unwrap();
    let p = s.predict(u64::MAX);
    assert_eq!(p.theta(), THETA_MARGIN + (OMEGA_MAX as i128) * (u64::MAX as i128));
}

#[test]
fn integrate_advances_by_the_mean_velocity() {
    // From 1 rad/s to 3 rad/s over 2 s: mean 2 rad/s, 4 rad.
    let s = StateVector::new(0, 0, 1_000_000).unwrap();
    let n = s.integrate(3_000_000, 2_000_000);
    assert_eq!(n.time(), 2_000_000);
    assert_eq!(n.omega(), 3_000_000);
    assert_eq!(n.theta(), 4_000_000_000_000);
}

#[test]
fn integrate_rounds_half_a_picoradian_down() {
    let s = StateVector::new(0, 0, 1).unwrap();
    let n = s.integrate(2, 1);
    assert_eq!(n.theta(), 1);
}

#[test]
fn integrate_with_the_same_velocity_is_predict() {
    let s = StateVector::new(5, 9, 1_000_001).unwrap();
    assert_eq!(s.integrate(1_000_001, 12_345), s.predict(12_345));
}
