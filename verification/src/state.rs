//! The robot's rotational state and its extrapolation over time.

use vstd::prelude::*;
use crate::clock::micros_between;

verus! {

/// Largest angular velocity a state can hold, in microradians per second.
/// No accelerometer reading yields more.
pub const OMEGA_MAX: u64 = 65_536_000_000;

/// Room, in picoradians, that an angle is given on either side of zero
/// beyond what the rotor can turn while the clock runs.
pub const THETA_MARGIN: i128 = 1_000_000_000_000_000_000_000_000_000_000_000_000;

/// A rotational state as a mathematical value.
pub struct Rotation {
    /// Microseconds since the clock's origin at which the state was taken.
    pub time: nat,
    /// Angle in picoradians.
    pub theta: int,
    /// Angular velocity in microradians per second; never negative.
    pub omega: nat,
}

impl Rotation {
    /// The state with the given time, angle and angular velocity.
    pub open spec fn components(time: u64, theta: i128, omega: u64) -> Rotation {
        Rotation { time: time as nat, theta: theta as int, omega: omega as nat }
    }

    /// The state extrapolated to `now` at constant angular velocity: the
    /// angle advances by the angular velocity times the time elapsed.
    pub open spec fn predicted(self, now: nat) -> Rotation {
        Rotation {
            time: now,
            theta: self.theta + self.omega * (now - self.time),
            omega: self.omega,
        }
    }

    /// The state after a new angular velocity was measured at `now`: the
    /// angle advances by the mean of the old and the new angular velocity
    /// times the time elapsed, rounded down to a whole picoradian, and the
    /// new angular velocity replaces the old one.
    pub open spec fn integrated(self, omega: nat, now: nat) -> Rotation {
        Rotation {
            time: now,
            theta: self.theta + (self.omega + omega) * (now - self.time) / 2,
            omega,
        }
    }

    /// The angle stays within the margin around zero, widened by what a
    /// rotor at the largest angular velocity turns from the clock's origin
    /// to the state's time. Every such angle, extrapolated to any later
    /// time the clock can show, fits the machine's integers.
    pub open spec fn in_range(self) -> bool {
        &&& self.time <= u64::MAX
        &&& self.omega <= OMEGA_MAX
        &&& -THETA_MARGIN <= self.theta <= THETA_MARGIN + OMEGA_MAX * self.time
    }
}

/// Timestamped estimate of the robot's angle and angular velocity.
#[derive(Clone, Copy, Debug, PartialEq, Eq, Structural)]
pub struct StateVector {
    time: u64,
    theta: i128,
    omega: u64,
}

impl View for StateVector {
    type V = Rotation;

    closed spec fn view(&self) -> Rotation {
        Rotation { time: self.time as nat, theta: self.theta as int, omega: self.omega as nat }
    }
}

impl StateVector {
    /// Whether the state is within the range that its functions work on.
    pub open spec fn wf(&self) -> bool {
        self@.in_range()
    }

    /// The state at rest at angle zero, taken at `now`.
    pub fn initial(now: u64) -> (state: StateVector)
        ensures
            state.wf(),
            state@ == Rotation::components(now, 0, 0),
    {
        assert(0 <= OMEGA_MAX * now) by (nonlinear_arith);
        StateVector { time: now, theta: 0, omega: 0 }
    }

    /// A state from its three components, where they are within range.
    pub fn new(time: u64, theta: i128, omega: u64) -> (state: Option<StateVector>)
        ensures
            state.is_some() <==> Rotation::components(time, theta, omega).in_range(),
            state matches Some(s) ==> s.wf() && s@ == Rotation::components(time, theta, omega),
    {
        if omega > OMEGA_MAX || theta < -THETA_MARGIN {
            return None;
        }
        assert(OMEGA_MAX * time <= OMEGA_MAX * u64::MAX) by (nonlinear_arith)
            requires
                time <= u64::MAX,
        ;
        let widening: i128 = (OMEGA_MAX as i128) * (time as i128);
        if theta > THETA_MARGIN + widening {
            return None;
        }
        Some(StateVector { time, theta, omega })
    }

    /// Microseconds since the clock's origin at which the state was taken.
    pub fn time(&self) -> (time: u64)
        ensures
            time == self@.time,
    {
        self.time
    }

    /// Angle in picoradians.
    pub fn theta(&self) -> (theta: i128)
        ensures
            theta == self@.theta,
    {
        self.theta
    }

    /// Angular velocity in microradians per second.
    pub fn omega(&self) -> (omega: u64)
        ensures
            omega == self@.omega,
    {
        self.omega
    }

    /// Extrapolates the state to `now`, which may not lie before the state's
    /// own time: the angular velocity is kept and the angle advances by the
    /// angular velocity times the time elapsed.
    pub fn predict(&self, now: u64) -> (state: StateVector)
        requires
            self.wf(),
            self@.time <= now,
        ensures
            state.wf(),
            state@ == self@.predicted(now as nat),
    {
        let dt: u64 = micros_between(self.time, now);
        proof {
            lemma_advance_in_range(self@, self.omega as nat, now as nat);
        }
        let advance: i128 = (self.omega as i128) * (dt as i128);
        StateVector { time: now, theta: self.theta + advance, omega: self.omega }
    }

    /// Takes in an angular velocity measured at `now`, which may not lie
    /// before the state's own time: the angle advances by the mean of the
    /// old and the new angular velocity times the time elapsed, and the new
    /// angular velocity replaces the old one.
    pub fn integrate(&self, omega: u64, now: u64) -> (state: StateVector)
        requires
            self.wf(),
            self@.time <= now,
            omega <= OMEGA_MAX,
        ensures
            state.wf(),
            state@ == self@.integrated(omega as nat, now as nat),
    {
        let dt: u64 = micros_between(self.time, now);
        let twice: u64 = self.omega + omega;
        proof {
            lemma_mean_advance(self.omega as nat, omega as nat, dt as nat);
            lemma_advance_in_range(self@, OMEGA_MAX as nat, now as nat);
        }
        let advance: i128 = (twice as i128) * (dt as i128) / 2;
        StateVector { time: now, theta: self.theta + advance, omega }
    }
}

/// The mean of two angular velocities within the limit, times a time, is
/// no more than the limit times that time.
pub proof fn lemma_mean_advance(a: nat, b: nat, dt: nat)
    requires
        a <= OMEGA_MAX,
        b <= OMEGA_MAX,
    ensures
        0 <= (a + b) * dt <= 2 * (OMEGA_MAX * dt),
        0 <= (a + b) * dt / 2 <= OMEGA_MAX * dt,
{
    assert(0 <= (a + b) * dt <= 2 * (OMEGA_MAX * dt)) by (nonlinear_arith)
        requires
            0 <= a <= OMEGA_MAX,
            0 <= b <= OMEGA_MAX,
            0 <= dt,
    ;
}

/// An angle that advances from a state in range, at a rate that is no more
/// than the largest angular velocity, stays in range up to any later time.
pub proof fn lemma_advance_in_range(s: Rotation, rate: nat, now: nat)
    requires
        s.in_range(),
        rate <= OMEGA_MAX,
        s.time <= now <= u64::MAX,
    ensures
        0 <= rate * (now - s.time) <= OMEGA_MAX * (now - s.time),
        OMEGA_MAX * s.time + OMEGA_MAX * (now - s.time) == OMEGA_MAX * now,
        OMEGA_MAX * now <= OMEGA_MAX * u64::MAX,
        -THETA_MARGIN <= s.theta + rate * (now - s.time) <= THETA_MARGIN + OMEGA_MAX * now,
{
    let dt: int = now - s.time;
    assert(0 <= rate * dt <= OMEGA_MAX * dt) by (nonlinear_arith)
        requires
            0 <= rate <= OMEGA_MAX,
            0 <= dt,
    ;
    assert(OMEGA_MAX * s.time + OMEGA_MAX * dt == OMEGA_MAX * now) by (nonlinear_arith)
        requires
            dt == now - s.time,
    ;
    assert(OMEGA_MAX * now <= OMEGA_MAX * u64::MAX) by (nonlinear_arith)
        requires
            now <= u64::MAX,
    ;
}

/// A state is no more than its three components: two states with the same
/// time, angle and angular velocity are the same state.
pub proof fn lemma_same_components_same_state(a: StateVector, b: StateVector)
    requires
        a@ == b@,
    ensures
        a == b,
{
}

/// Extrapolating a state to its own time changes nothing.
pub proof fn lemma_predict_identity(s: Rotation)
    ensures
        s.predicted(s.time) == s,
{
    assert(s.omega * (s.time - s.time) == 0) by (nonlinear_arith);
}

/// Extrapolating in two steps gives what extrapolating in one step gives.
pub proof fn lemma_predict_composes(s: Rotation, t1: nat, t2: nat)
    requires
        s.time <= t1 <= t2,
    ensures
        s.predicted(t1).predicted(t2) == s.predicted(t2),
{
    assert(s.omega * (t1 - s.time) + s.omega * (t2 - t1) == s.omega * (t2 - s.time))
        by (nonlinear_arith);
}

/// Whatever `predict` returns for a state's own time is that state.
pub proof fn lemma_predict_own_time_returns_state(s: StateVector, predicted: StateVector)
    requires
        predicted@ == s@.predicted(s@.time),
    ensures
        predicted == s,
{
    lemma_predict_identity(s@);
    lemma_same_components_same_state(predicted, s);
}

/// Whatever `predict` returns in two steps, it returns in one.
pub proof fn lemma_predict_twice_returns_once(
    s: StateVector,
    t1: nat,
    t2: nat,
    first: StateVector,
    second: StateVector,
    direct: StateVector,
)
    requires
        s@.time <= t1 <= t2,
        first@ == s@.predicted(t1),
        second@ == first@.predicted(t2),
        direct@ == s@.predicted(t2),
    ensures
        second == direct,
{
    lemma_predict_composes(s@, t1, t2);
    lemma_same_components_same_state(second, direct);
}

/// Taking in an angular velocity equal to the one the state already holds
/// is extrapolating the state.
pub proof fn lemma_steady_integration_is_prediction(s: Rotation, now: nat)
    requires
        s.time <= now,
    ensures
        s.integrated(s.omega, now) == s.predicted(now),
{
    let dt: int = now - s.time;
    assert((s.omega + s.omega) * dt == 2 * (s.omega * dt)) by (nonlinear_arith);
}

/// Taking in a measurement never turns the angle back.
pub proof fn lemma_integrate_never_turns_back(s: Rotation, omega: nat, now: nat)
    requires
        s.time <= now,
    ensures
        s.integrated(omega, now).theta >= s.theta,
{
    assert((s.omega + omega) * (now - s.time) >= 0) by (nonlinear_arith)
        requires
            s.omega + omega >= 0,
            now - s.time >= 0,
    ;
}

/// Extrapolating forward in time never turns the angle back.
pub proof fn lemma_predict_never_turns_back(s: Rotation, now: nat)
    requires
        s.time <= now,
    ensures
        s.predicted(now).theta >= s.theta,
{
    assert(s.omega * (now - s.time) >= 0) by (nonlinear_arith)
        requires
            s.omega >= 0,
            now - s.time >= 0,
    ;
}

} // verus!
