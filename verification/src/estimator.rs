//! The state estimator: a calibration window that averages the
//! accelerometer's lateral readings into an offset, then one update of the
//! rotational state for every reading that arrives. A read that fails within
//! the window takes up its sampling period and counts for nothing else: the
//! offset is the mean of the readings that were read.

use vstd::prelude::*;
use crate::root::{
    floor_sqrt, is_floor_sqrt, isqrt, lemma_floor_sqrt_exists, lemma_floor_sqrt_is,
    lemma_square_monotone,
};
use crate::state::{
    lemma_integrate_never_turns_back, lemma_steady_integration_is_prediction, Rotation,
    StateVector, OMEGA_MAX,
};

verus! {

/// Readings taken per second.
pub const SAMPLE_HZ: u64 = 800;

/// Seconds of readings that the calibration window spans.
pub const CALIBRATION_SECONDS: u32 = 5;

/// Number of sampling periods in the calibration window of the robot as
/// built: those of five seconds.
pub const CALIBRATION_SAMPLES: u32 = 4000;

/// Distance of the accelerometer from the axis of rotation, in micrometres.
pub const ACCELEROMETER_POSITION: u32 = 6000;

/// Square of the number of millionths in a unit.
pub const UNIT_SQUARED: u128 = 1_000_000_000_000;

/// The lateral reading of one sampling period, in micrometres per second
/// squared; zero stands for a period whose read failed.
pub open spec fn reading_or_zero(sample: Option<i32>) -> int {
    match sample {
        Some(y) => y as int,
        None => 0,
    }
}

/// The readings of the sampling periods `events`, or `None` where the read
/// failed.
pub open spec fn outcomes_of(events: Seq<(Option<i32>, nat)>) -> Seq<Option<i32>> {
    events.map_values(|event: (Option<i32>, nat)| event.0)
}

/// Sum of the readings that were read with success.
pub open spec fn tally(outcomes: Seq<Option<i32>>) -> int
    decreases outcomes.len(),
{
    if outcomes.len() == 0 {
        0
    } else {
        tally(outcomes.drop_last()) + reading_or_zero(outcomes.last())
    }
}

/// Number of the readings that were read with success.
pub open spec fn successes(outcomes: Seq<Option<i32>>) -> nat
    decreases outcomes.len(),
{
    if outcomes.len() == 0 {
        0
    } else {
        successes(outcomes.drop_last()) + one_if_read(outcomes.last())
    }
}

/// One where the read succeeded, zero where it failed.
pub open spec fn one_if_read(sample: Option<i32>) -> nat {
    if sample.is_some() {
        1
    } else {
        0
    }
}

/// The quotient of `sum` by `count`, rounded toward zero.
pub open spec fn mean_toward_zero(sum: int, count: nat) -> int {
    if sum >= 0 {
        sum / (count as int)
    } else {
        -((-sum) / (count as int))
    }
}

/// Angular velocity, in microradians per second and rounded down, at which
/// a point at `radius` micrometres from the axis feels a centripetal
/// acceleration of `magnitude` micrometres per second squared: the square
/// root of their quotient.
pub open spec fn centripetal_omega(magnitude: nat, radius: nat) -> nat {
    floor_sqrt(magnitude * UNIT_SQUARED as nat / radius)
}

/// An estimator as a mathematical value.
pub struct EstimatorModel {
    /// Number of sampling periods in the calibration window.
    pub window: nat,
    /// Distance of the accelerometer from the axis, in micrometres.
    pub radius: nat,
    /// Sampling periods of the window that have gone by.
    pub seen: nat,
    /// Those of them in which the read succeeded.
    pub successes: nat,
    /// Sum of the readings taken in them.
    pub sum: int,
}

impl EstimatorModel {
    /// The estimator before its first sampling period.
    pub open spec fn fresh(window: nat, radius: nat) -> EstimatorModel {
        EstimatorModel { window, radius, seen: 0, successes: 0, sum: 0 }
    }

    /// Whether the calibration window has gone by.
    pub open spec fn calibrated(self) -> bool {
        self.seen >= self.window
    }

    /// The offset: the arithmetic mean of the readings that were read with
    /// success, rounded toward zero. Where every read failed there is
    /// nothing to average, and the offset is zero: readings are then taken
    /// as they come.
    pub open spec fn offset(self) -> int {
        if self.successes > 0 {
            mean_toward_zero(self.sum, self.successes)
        } else {
            0
        }
    }

    /// The estimator after one more sampling period of the window: the
    /// period is counted, and a reading, where there is one, is counted and
    /// added up.
    pub open spec fn tallied(self, sample: Option<i32>) -> EstimatorModel {
        EstimatorModel {
            seen: self.seen + 1,
            successes: self.successes + one_if_read(sample),
            sum: self.sum + reading_or_zero(sample),
            ..self
        }
    }

    /// The estimator after the sampling periods `outcomes`, all within the
    /// window.
    pub open spec fn tallied_all(self, outcomes: Seq<Option<i32>>) -> EstimatorModel
        decreases outcomes.len(),
    {
        if outcomes.len() == 0 {
            self
        } else {
            self.tallied_all(outcomes.drop_last()).tallied(outcomes.last())
        }
    }

    /// Angular velocity that a reading stands for once the window has gone
    /// by.
    pub open spec fn omega_of(self, reading: i32) -> nat {
        centripetal_omega(vstd::math::abs(reading - self.offset()) as nat, self.radius)
    }

    /// Estimator and rotational state after one sampling period that ended
    /// at `now`. Within the window the period is counted, its reading, where
    /// there is one, is counted and added up, and the state is left alone.
    /// After it a failed read changes nothing, and a reading is taken into
    /// the state.
    pub open spec fn observed(self, state: Rotation, sample: Option<i32>, now: nat) -> (
        EstimatorModel,
        Rotation,
    ) {
        if !self.calibrated() {
            (self.tallied(sample), state)
        } else {
            match sample {
                None => (self, state),
                Some(y) => (self, state.integrated(self.omega_of(y), now)),
            }
        }
    }

    /// Estimator and rotational state after the sampling periods `events`,
    /// each given by its reading, or `None`, and the time at which it ended.
    pub open spec fn observed_all(self, state: Rotation, events: Seq<(Option<i32>, nat)>) -> (
        EstimatorModel,
        Rotation,
    )
        decreases events.len(),
    {
        if events.len() == 0 {
            (self, state)
        } else {
            let before = self.observed_all(state, events.drop_last());
            before.0.observed(before.1, events.last().0, events.last().1)
        }
    }

    /// No more reads succeeded than sampling periods have gone by, and the
    /// sum is one that so many readings can add up to.
    pub open spec fn in_range(self) -> bool {
        &&& 0 < self.window <= u32::MAX
        &&& 0 < self.radius <= u32::MAX
        &&& self.seen <= self.window
        &&& self.successes <= self.seen
        &&& self.successes * (i32::MIN as int) <= self.sum <= self.successes * (i32::MAX as int)
    }
}

/// The estimator's own state: how far the calibration window has gone, and
/// what was read in it.
#[derive(Clone, Copy, Debug, PartialEq, Eq, Structural)]
pub struct Estimator {
    window: u32,
    radius: u32,
    seen: u32,
    successes: u32,
    sum: i64,
}

impl View for Estimator {
    type V = EstimatorModel;

    closed spec fn view(&self) -> EstimatorModel {
        EstimatorModel {
            window: self.window as nat,
            radius: self.radius as nat,
            seen: self.seen as nat,
            successes: self.successes as nat,
            sum: self.sum as int,
        }
    }
}

impl Estimator {
    /// Whether the estimator is within the range that its functions work on.
    pub open spec fn wf(&self) -> bool {
        self@.in_range()
    }

    /// An estimator before its first sampling period, for a window of
    /// `window` periods and an accelerometer `radius` micrometres from the
    /// axis. Neither may be zero.
    pub fn new(window: u32, radius: u32) -> (estimator: Option<Estimator>)
        ensures
            estimator.is_some() <==> window > 0 && radius > 0,
            estimator matches Some(e) ==> e.wf() && e@ == EstimatorModel::fresh(
                window as nat,
                radius as nat,
            ),
    {
        if window == 0 || radius == 0 {
            None
        } else {
            Some(Estimator { window, radius, seen: 0, successes: 0, sum: 0 })
        }
    }

    /// The estimator of the robot as built, before its first sampling
    /// period.
    pub fn standard() -> (estimator: Estimator)
        ensures
            estimator.wf(),
            estimator@ == EstimatorModel::fresh(
                CALIBRATION_SAMPLES as nat,
                ACCELEROMETER_POSITION as nat,
            ),
    {
        Estimator {
            window: CALIBRATION_SAMPLES,
            radius: ACCELEROMETER_POSITION,
            seen: 0,
            successes: 0,
            sum: 0,
        }
    }

    /// Whether the calibration window has gone by.
    pub fn is_calibrated(&self) -> (calibrated: bool)
        requires
            self.wf(),
        ensures
            calibrated == self@.calibrated(),
    {
        self.seen >= self.window
    }

    /// The offset, once the calibration window has gone by.
    pub fn offset(&self) -> (offset: Option<i32>)
        requires
            self.wf(),
        ensures
            offset.is_some() <==> self@.calibrated(),
            offset matches Some(o) ==> o == self@.offset(),
    {
        if self.seen < self.window {
            None
        } else {
            Some(self.mean())
        }
    }

    /// The sum of the readings divided by their number, rounded toward
    /// zero; zero where there are none.
    fn mean(&self) -> (mean: i32)
        requires
            self.wf(),
        ensures
            mean == self@.offset(),
    {
        proof {
            lemma_mean_in_range(self@);
        }
        if self.successes == 0 {
            return 0;
        }
        let count: i64 = self.successes as i64;
        if self.sum >= 0 {
            (self.sum / count) as i32
        } else {
            let negated: i64 = -self.sum;
            (-(negated / count)) as i32
        }
    }
}

/// The offset of an estimator in range is a reading, and its sum fits the
/// machine's integers.
pub proof fn lemma_mean_in_range(e: EstimatorModel)
    requires
        e.in_range(),
    ensures
        i32::MIN <= e.offset() <= i32::MAX,
        i64::MIN < e.sum <= i64::MAX,
{
    let n: int = e.successes as int;
    assert(n * (i32::MAX as int) <= u32::MAX * (i32::MAX as int)) by (nonlinear_arith)
        requires
            0 <= n <= u32::MAX,
    ;
    assert(n * (i32::MIN as int) >= u32::MAX * (i32::MIN as int)) by (nonlinear_arith)
        requires
            0 <= n <= u32::MAX,
    ;
    if n > 0 {
        if e.sum >= 0 {
            assert(0 <= e.sum / n <= i32::MAX) by (nonlinear_arith)
                requires
                    0 <= e.sum <= n * (i32::MAX as int),
                    n > 0,
            ;
        } else {
            assert(0 <= (-e.sum) / n <= -(i32::MIN as int)) by (nonlinear_arith)
                requires
                    0 <= -e.sum <= n * (-(i32::MIN as int)),
                    n > 0,
            ;
        }
    }
}

/// Angular velocity at which a point at `radius` micrometres from the axis
/// feels a centripetal acceleration of `magnitude` micrometres per second
/// squared. The radius may not be zero.
pub fn angular_speed(magnitude: u32, radius: u32) -> (omega: u64)
    requires
        radius > 0,
    ensures
        omega == centripetal_omega(magnitude as nat, radius as nat),
        omega <= OMEGA_MAX,
{
    assert(magnitude * UNIT_SQUARED <= u32::MAX * UNIT_SQUARED) by (nonlinear_arith)
        requires
            magnitude <= u32::MAX,
    ;
    let scaled: u128 = (magnitude as u128) * UNIT_SQUARED;
    let quotient: u128 = scaled / (radius as u128);
    assert(quotient <= scaled) by (nonlinear_arith)
        requires
            quotient == scaled / (radius as u128),
            radius >= 1,
    ;
    let omega: u64 = isqrt(quotient);
    proof {
        if omega > OMEGA_MAX {
            lemma_square_monotone(OMEGA_MAX as nat + 1, omega as nat);
            assert((OMEGA_MAX + 1) * (OMEGA_MAX + 1) > u32::MAX * UNIT_SQUARED) by (nonlinear_arith);
        }
    }
    omega
}

/// Handles one sampling period that ended at `now`, with the reading that
/// was read in it or `None` where the read failed. Within the calibration
/// window the period is counted, and its reading, where there is one, is
/// counted and added up. After it a failed read changes nothing, and a
/// reading is taken into the state; `now` may then not lie before the
/// state's own time.
pub fn accelerometer_data(
    estimator: &mut Estimator,
    state: &mut StateVector,
    sample: Option<i32>,
    now: u64,
)
    requires
        old(estimator).wf(),
        old(state).wf(),
        old(estimator)@.calibrated() && sample.is_some() ==> old(state)@.time <= now,
    ensures
        final(estimator).wf(),
        final(state).wf(),
        (final(estimator)@, final(state)@) == old(estimator)@.observed(
            old(state)@,
            sample,
            now as nat,
        ),
{
    if estimator.seen < estimator.window {
        proof {
            lemma_mean_in_range(estimator@);
            lemma_tallied_in_range(estimator@, sample);
        }
        estimator.seen = estimator.seen + 1;
        if let Some(y) = sample {
            estimator.successes = estimator.successes + 1;
            estimator.sum = estimator.sum + (y as i64);
        }
    } else if let Some(y) = sample {
        let offset: i32 = estimator.mean();
        let difference: i64 = (y as i64) - (offset as i64);
        let magnitude: u32 = if difference >= 0 {
            difference as u32
        } else {
            (-difference) as u32
        };
        let omega: u64 = angular_speed(magnitude, estimator.radius);
        *state = state.integrate(omega, now);
    }
}

/// Counting one more sampling period keeps an estimator in range.
pub proof fn lemma_tallied_in_range(e: EstimatorModel, sample: Option<i32>)
    requires
        e.in_range(),
        !e.calibrated(),
    ensures
        e.tallied(sample).in_range(),
{
    let n: int = e.successes as int;
    assert((n + 1) * (i32::MIN as int) == n * (i32::MIN as int) + (i32::MIN as int))
        by (nonlinear_arith);
    assert((n + 1) * (i32::MAX as int) == n * (i32::MAX as int) + (i32::MAX as int))
        by (nonlinear_arith);
}

/// After any sampling periods within the window, the estimator has counted
/// them all, has counted the reads among them that succeeded, and holds the
/// sum of what those read.
pub proof fn lemma_window_tallies(window: nat, radius: nat, outcomes: Seq<Option<i32>>)
    ensures
        EstimatorModel::fresh(window, radius).tallied_all(outcomes) == (EstimatorModel {
            window,
            radius,
            seen: outcomes.len(),
            successes: successes(outcomes),
            sum: tally(outcomes),
        }),
    decreases outcomes.len(),
{
    if outcomes.len() > 0 {
        lemma_window_tallies(window, radius, outcomes.drop_last());
    }
}

/// Counting sampling periods changes neither the window nor the radius, and
/// counts each of them.
pub proof fn lemma_tallied_all_counts(e: EstimatorModel, outcomes: Seq<Option<i32>>)
    ensures
        e.tallied_all(outcomes).window == e.window,
        e.tallied_all(outcomes).radius == e.radius,
        e.tallied_all(outcomes).seen == e.seen + outcomes.len(),
    decreases outcomes.len(),
{
    if outcomes.len() > 0 {
        lemma_tallied_all_counts(e, outcomes.drop_last());
    }
}

/// Sampling periods within the window are counted and added up one by one,
/// and leave the rotational state alone.
pub proof fn lemma_window_run(e: EstimatorModel, state: Rotation, events: Seq<(Option<i32>, nat)>)
    requires
        e.seen + events.len() <= e.window,
    ensures
        e.observed_all(state, events) == (e.tallied_all(outcomes_of(events)), state),
    decreases events.len(),
{
    let outcomes = outcomes_of(events);
    if events.len() > 0 {
        lemma_window_run(e, state, events.drop_last());
        lemma_tallied_all_counts(e, outcomes.drop_last());
        assert(outcomes.drop_last() =~= outcomes_of(events.drop_last()));
    }
}

/// The window ends after as many sampling periods as it is long, whether
/// their reads succeeded or failed, and leaves the rotational state as it
/// was.
pub proof fn lemma_window_ends(
    window: nat,
    radius: nat,
    state: Rotation,
    events: Seq<(Option<i32>, nat)>,
)
    ensures
        EstimatorModel::fresh(window, radius).observed_all(state, events).0.calibrated()
            <==> events.len() >= window,
        events.len() <= window ==> EstimatorModel::fresh(window, radius).observed_all(
            state,
            events,
        ).1 == state,
    decreases events.len(),
{
    let fresh = EstimatorModel::fresh(window, radius);
    if events.len() > 0 && events.len() <= window {
        lemma_window_run(fresh, state, events);
        lemma_window_tallies(window, radius, outcomes_of(events));
    } else if events.len() > window {
        let earlier = events.drop_last();
        lemma_window_ends(window, radius, state, earlier);
        let before = fresh.observed_all(state, earlier);
        lemma_observed_keeps_the_tally(before.0, before.1, events.last().0, events.last().1);
    }
}

/// Once the window has gone by, a sampling period changes nothing about the
/// estimator.
pub proof fn lemma_observed_keeps_the_tally(
    e: EstimatorModel,
    state: Rotation,
    sample: Option<i32>,
    now: nat,
)
    requires
        e.calibrated(),
    ensures
        e.observed(state, sample, now).0 == e,
{
}

/// Once the window has gone by, the offset is the arithmetic mean of the
/// readings that were read with success, rounded toward zero: a failed read
/// adds nothing to the sum and nothing to the divisor. This holds as soon as
/// one read of the window succeeded.
pub proof fn lemma_offset_is_mean(
    window: nat,
    radius: nat,
    state: Rotation,
    events: Seq<(Option<i32>, nat)>,
)
    requires
        events.len() == window,
        successes(outcomes_of(events)) > 0,
    ensures
        EstimatorModel::fresh(window, radius).observed_all(state, events).0.offset()
            == mean_toward_zero(tally(outcomes_of(events)), successes(outcomes_of(events))),
{
    lemma_window_run(EstimatorModel::fresh(window, radius), state, events);
    lemma_window_tallies(window, radius, outcomes_of(events));
}

/// Where every read of the window failed, the offset is zero.
pub proof fn lemma_offset_without_readings(
    window: nat,
    radius: nat,
    state: Rotation,
    events: Seq<(Option<i32>, nat)>,
)
    requires
        events.len() == window,
        successes(outcomes_of(events)) == 0,
    ensures
        EstimatorModel::fresh(window, radius).observed_all(state, events).0.offset() == 0,
{
    lemma_window_run(EstimatorModel::fresh(window, radius), state, events);
    lemma_window_tallies(window, radius, outcomes_of(events));
}

/// Readings that all have the value `y` add up to `y` times their number.
pub proof fn lemma_tally_of_equal_readings(outcomes: Seq<Option<i32>>, y: i32)
    requires
        forall|i: int| 0 <= i < outcomes.len() && (#[trigger] outcomes[i]).is_some() ==> outcomes[i]
            == Some(y),
    ensures
        tally(outcomes) == successes(outcomes) * y,
    decreases outcomes.len(),
{
    if outcomes.len() > 0 {
        let earlier = outcomes.drop_last();
        assert forall|i: int| 0 <= i < earlier.len() && (#[trigger] earlier[i]).is_some() implies earlier[i]
            == Some(y) by {
            assert(earlier[i] == outcomes[i]);
        }
        lemma_tally_of_equal_readings(earlier, y);
        let n: int = successes(earlier) as int;
        let last = outcomes[outcomes.len() - 1];
        if last.is_some() {
            assert(last == Some(y));
            assert(successes(outcomes) == n + 1);
            assert((n + 1) * y == n * y + y) by (nonlinear_arith);
        } else {
            assert(successes(outcomes) == n);
        }
    } else {
        assert(0 * y == 0) by (nonlinear_arith);
    }
}

/// Where every reading of the window that was read has the value `y`, and
/// at least one was read, the offset is `y`, however many reads failed.
pub proof fn lemma_offset_of_equal_readings(
    window: nat,
    radius: nat,
    state: Rotation,
    events: Seq<(Option<i32>, nat)>,
    y: i32,
)
    requires
        events.len() == window,
        successes(outcomes_of(events)) > 0,
        forall|i: int|
            0 <= i < events.len() && (#[trigger] events[i]).0.is_some() ==> events[i].0 == Some(y),
    ensures
        EstimatorModel::fresh(window, radius).observed_all(state, events).0.offset() == y,
{
    let outcomes = outcomes_of(events);
    lemma_offset_is_mean(window, radius, state, events);
    assert forall|i: int| 0 <= i < outcomes.len() && (#[trigger] outcomes[i]).is_some() implies outcomes[i]
        == Some(y) by {
        assert(outcomes[i] == events[i].0);
    }
    lemma_tally_of_equal_readings(outcomes, y);
    let n: int = successes(outcomes) as int;
    if y >= 0 {
        assert(n * y >= 0 && (n * y) / n == y) by (nonlinear_arith)
            requires
                n > 0,
                y >= 0,
        ;
    } else {
        assert(n * y < 0 && (-(n * y)) / n == -y) by (nonlinear_arith)
            requires
                n > 0,
                y < 0,
        ;
    }
}

/// Once the window has gone by, a reading equal to the offset stands for no
/// rotation: the angular velocity after it is zero, and a state that was at
/// rest keeps its angle.
pub proof fn lemma_reading_at_offset_is_rest(e: EstimatorModel, state: Rotation, y: i32, now: nat)
    requires
        e.calibrated(),
        e.radius > 0,
        y == e.offset(),
    ensures
        e.observed(state, Some(y), now).1.omega == 0,
        state.omega == 0 ==> e.observed(state, Some(y), now).1.theta == state.theta,
{
    assert(0 * UNIT_SQUARED as nat / e.radius == 0) by (nonlinear_arith)
        requires
            e.radius > 0,
    ;
    assert(0nat * 0nat <= 0 < (0nat + 1) * (0nat + 1)) by (nonlinear_arith);
    lemma_floor_sqrt_is(0, 0);
    assert((0 + 0) * (now - state.time) / 2 == 0) by (nonlinear_arith);
}

/// After a window in which every reading that was read had the value `y`,
/// and at least one was read, a further reading of `y` stands for no
/// rotation, however many reads of the window failed: the angular velocity
/// after it is zero, and a state that was at rest keeps its angle.
pub proof fn lemma_equal_readings_then_rest(
    window: nat,
    radius: nat,
    state: Rotation,
    events: Seq<(Option<i32>, nat)>,
    y: i32,
    now: nat,
)
    requires
        radius > 0,
        events.len() == window,
        successes(outcomes_of(events)) > 0,
        forall|i: int|
            0 <= i < events.len() && (#[trigger] events[i]).0.is_some() ==> events[i].0 == Some(y),
    ensures
        ({
            let after = EstimatorModel::fresh(window, radius).observed_all(state, events);
            let next = after.0.observed(after.1, Some(y), now);
            &&& after.1 == state
            &&& next.0 == after.0
            &&& next.1.omega == 0
            &&& state.omega == 0 ==> next.1.theta == state.theta
        }),
{
    let fresh = EstimatorModel::fresh(window, radius);
    lemma_window_run(fresh, state, events);
    lemma_window_tallies(window, radius, outcomes_of(events));
    lemma_offset_of_equal_readings(window, radius, state, events, y);
    let after = fresh.observed_all(state, events);
    lemma_reading_at_offset_is_rest(after.0, after.1, y, now);
}

/// Once the window has gone by, the angular velocity after a reading is the
/// one that the reading stands for, whatever it was before: the rounded-down
/// square root of the reading's distance from the offset over the radius.
pub proof fn lemma_omega_follows_reading(e: EstimatorModel, state: Rotation, y: i32, now: nat)
    requires
        e.calibrated(),
    ensures
        e.observed(state, Some(y), now).1.omega == e.omega_of(y),
        is_floor_sqrt(
            vstd::math::abs(y - e.offset()) as nat * UNIT_SQUARED as nat / e.radius,
            e.omega_of(y),
        ),
{
    lemma_floor_sqrt_exists(vstd::math::abs(y - e.offset()) as nat * UNIT_SQUARED as nat / e.radius);
}

/// Under readings of constant magnitude, that is at a constant distance
/// from the offset, the estimate settles with the second reading: the
/// angular velocity is then the one that the magnitude stands for, the mean
/// of old and new angular velocity is the same, and the update is the
/// extrapolation of the state before.
pub proof fn lemma_constant_magnitude_settles(
    e: EstimatorModel,
    state: Rotation,
    y1: i32,
    y2: i32,
    t1: nat,
    t2: nat,
)
    requires
        e.calibrated(),
        vstd::math::abs(y1 - e.offset()) == vstd::math::abs(y2 - e.offset()),
        t1 <= t2,
    ensures
        ({
            let omega = centripetal_omega(vstd::math::abs(y1 - e.offset()) as nat, e.radius);
            let first = e.observed(state, Some(y1), t1).1;
            let second = e.observed(first, Some(y2), t2).1;
            &&& first.omega == omega
            &&& second.omega == omega
            &&& second == first.predicted(t2)
        }),
{
    let first = e.observed(state, Some(y1), t1).1;
    lemma_steady_integration_is_prediction(first, t2);
}

/// One sampling period never turns the angle back.
pub proof fn lemma_observed_never_turns_back(
    e: EstimatorModel,
    state: Rotation,
    sample: Option<i32>,
    now: nat,
)
    requires
        state.time <= now,
    ensures
        e.observed(state, sample, now).1.theta >= state.theta,
        e.observed(state, sample, now).1.time == state.time || e.observed(
            state,
            sample,
            now,
        ).1.time == now,
{
    if e.calibrated() && sample.is_some() {
        lemma_integrate_never_turns_back(state, e.omega_of(sample.unwrap()), now);
    }
}

/// Over any sampling periods whose times do not run backward, the angle
/// never turns back. `latest` is any time that none of them exceeds.
///
/// This is a limit of the estimate, not a fact about the robot: a lateral
/// reading gives the magnitude of the angular velocity and not its sign, so
/// the angle grows whichever way the robot turns.
pub proof fn lemma_theta_never_turns_back(
    e: EstimatorModel,
    state: Rotation,
    events: Seq<(Option<i32>, nat)>,
    latest: nat,
)
    requires
        state.time <= latest,
        forall|i: int| 0 <= i < events.len() ==> state.time <= (#[trigger] events[i]).1 <= latest,
        forall|i: int, j: int|
            0 <= i <= j < events.len() ==> (#[trigger] events[i]).1 <= (#[trigger] events[j]).1,
    ensures
        e.observed_all(state, events).1.theta >= state.theta,
        e.observed_all(state, events).1.time <= latest,
    decreases events.len(),
{
    if events.len() > 0 {
        let earlier = events.drop_last();
        let end = events.last().1;
        assert forall|i: int| 0 <= i < earlier.len() implies state.time <= (#[trigger] earlier[i]).1
            <= end by {
            assert(earlier[i] == events[i]);
            assert(events[i].1 <= events[events.len() - 1].1);
        }
        assert forall|i: int, j: int| 0 <= i <= j < earlier.len() implies (#[trigger] earlier[i]).1
            <= (#[trigger] earlier[j]).1 by {
            assert(earlier[i] == events[i]);
            assert(earlier[j] == events[j]);
        }
        assert(state.time <= events[events.len() - 1].1);
        lemma_theta_never_turns_back(e, state, earlier, end);
        let before = e.observed_all(state, earlier);
        lemma_observed_never_turns_back(before.0, before.1, events.last().0, end);
    }
}

} // verus!
