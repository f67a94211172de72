//! One tick of the motor control loop: from the arming flag, the operator's
//! input and the rotational state to the power of the two wheels.

use vstd::prelude::*;
use crate::clock::{period_micros, period_of};
use crate::operator::{Button, ControllerState, OperatorInput, Stick};
use crate::state::{Rotation, StateVector, OMEGA_MAX};

verus! {

/// Ticks of the control loop per second.
pub const CONTROL_HZ: u64 = 2000;

/// Power that the spin button adds to both wheels, in whole units.
pub const SPIN_POWER: i32 = 60;

/// Power with which the robot moves toward the stick's heading, in whole
/// units.
pub const MOVE_POWER: i32 = 20;

/// Deflection up to which the stick is taken to be at rest: a tenth of full
/// deflection.
pub const DEADZONE: i32 = 100_000;

/// Duty, in percent, at which a motor stands still.
pub const NEUTRAL_DUTY: u8 = 50;

/// Number of millionths in a unit.
pub const UNIT: i64 = 1_000_000;

/// What the control loop is set up with.
#[derive(Clone, Copy, Debug, PartialEq, Eq, Structural)]
pub struct ControlConfig {
    /// Power that the spin button adds to both wheels, in whole units.
    pub spin_power: i32,
    /// Power with which the robot moves toward the stick's heading, in
    /// whole units.
    pub move_power: i32,
    /// Ticks of the control loop per second; not zero.
    pub rate_hz: u64,
}

impl ControlConfig {
    /// The loop ticks at some rate.
    pub open spec fn wf(&self) -> bool {
        self.rate_hz > 0
    }

    /// The set-up of the robot as built.
    pub fn standard() -> (config: ControlConfig)
        ensures
            config.wf(),
            config == (ControlConfig {
                spin_power: SPIN_POWER,
                move_power: MOVE_POWER,
                rate_hz: CONTROL_HZ,
            }),
    {
        ControlConfig { spin_power: SPIN_POWER, move_power: MOVE_POWER, rate_hz: CONTROL_HZ }
    }
}

/// What a tick tells the two motors.
#[derive(Clone, Copy, Debug, PartialEq, Eq, Structural)]
pub enum MotorCommand {
    /// Both motors stand still.
    Neutral,
    /// Signed power for each wheel, in millionths of a unit.
    Power { left: i64, right: i64 },
}

/// A motor command as a mathematical value.
pub enum Drive {
    /// Both motors stand still.
    Neutral,
    /// Signed power for each wheel, in millionths of a unit.
    Power { left: int, right: int },
}

impl View for MotorCommand {
    type V = Drive;

    open spec fn view(&self) -> Drive {
        match *self {
            MotorCommand::Neutral => Drive::Neutral,
            MotorCommand::Power { left, right } => Drive::Power {
                left: left as int,
                right: right as int,
            },
        }
    }
}

/// The button that makes the robot spin in place.
pub open spec fn spin_held(controller: ControllerState) -> bool {
    controller.held(Button::LeftBumper)
}

/// Whether a stick deflected by `x` and `y` is out of the deadzone: whether
/// the length of the deflection exceeds the deadzone, told by their squares.
pub open spec fn beyond_deadzone(x: int, y: int) -> bool {
    x * x + y * y > DEADZONE * DEADZONE
}

/// Whether a controller's stick steers the robot: whether it is out of the
/// deadzone.
pub open spec fn steers(controller: ControllerState) -> bool {
    beyond_deadzone(controller.stick().spec_x() as int, controller.stick().spec_y() as int)
}

/// Power, in millionths, that the spin button adds to both wheels.
pub open spec fn spin_term(held: bool, spin_power: int) -> int {
    if held {
        spin_power * UNIT
    } else {
        0
    }
}

/// Angle, in picoradians, that the robot turns within one tick at `omega`
/// microradians per second.
pub open spec fn angular_correction(omega: nat, rate_hz: u64) -> int {
    omega * period_of(rate_hz)
}

/// Angle, in picoradians, whose cosine scales the movement: how far the
/// robot, at `theta` picoradians, is turned away from a heading given in
/// microradians, plus the correction.
pub open spec fn steering_angle(theta: int, heading: int, correction: int) -> int {
    theta - heading * UNIT + correction
}

/// Power, in millionths, that moving toward the stick's heading takes from
/// the left wheel and gives to the right one, for a cosine given in
/// millionths; none while the stick is at rest.
pub open spec fn movement_term(move_power: int, cosine: Option<i32>) -> int {
    match cosine {
        Some(c) => move_power * c,
        None => 0,
    }
}

/// The two wheels' power from the spin and the movement term.
pub open spec fn driven(spin: int, movement: int) -> Drive {
    Drive::Power { left: spin - movement, right: spin + movement }
}

/// What a tick commands: neutral unless armed.
pub open spec fn commanded(armed: bool, spin: int, movement: int) -> Drive {
    if armed {
        driven(spin, movement)
    } else {
        Drive::Neutral
    }
}

/// The angle whose cosine a tick at `now` asks for, given the heading of
/// the stick: the state is extrapolated to `now`, and the correction is the
/// angle turned within one tick.
pub open spec fn tick_angle(state: Rotation, now: nat, rate_hz: u64, heading: i32) -> int {
    steering_angle(
        state.predicted(now).theta,
        heading as int,
        angular_correction(state.omega, rate_hz),
    )
}

/// Whether `cmd` is what an armed tick at `now` commands when the stick
/// steers: for a heading that `heading_of` gave for the stick's vertical and
/// horizontal deflection, and a cosine that `cosine_of` gave for the angle
/// that belongs to that heading, the movement power times the cosine is
/// taken from the left wheel and given to the right one.
pub open spec fn steered_by<H: Fn(i32, i32) -> i32, C: Fn(i128) -> i32>(
    heading_of: H,
    cosine_of: C,
    controller: ControllerState,
    state: Rotation,
    now: nat,
    config: ControlConfig,
    cmd: Drive,
) -> bool {
    exists|heading: i32, angle: i128, cosine: i32|
        {
            &&& call_ensures(
                heading_of,
                (controller.stick().spec_y(), controller.stick().spec_x()),
                heading,
            )
            &&& angle == tick_angle(state, now, config.rate_hz, heading)
            &&& call_ensures(cosine_of, (angle,), cosine)
            &&& cmd == commanded(
                true,
                spin_term(spin_held(controller), config.spin_power as int),
                movement_term(config.move_power as int, Some(cosine)),
            )
        }
}

/// Whether the stick is out of the deadzone.
pub fn stick_beyond_deadzone(stick: Stick) -> (beyond: bool)
    ensures
        beyond == beyond_deadzone(stick.spec_x() as int, stick.spec_y() as int),
{
    let x: i64 = stick.get_x() as i64;
    let y: i64 = stick.get_y() as i64;
    assert(0 <= x * x <= 0x4000_0000_0000_0000) by (nonlinear_arith)
        requires
            -0x8000_0000 <= x <= 0x8000_0000,
    ;
    assert(0 <= y * y <= 0x4000_0000_0000_0000) by (nonlinear_arith)
        requires
            -0x8000_0000 <= y <= 0x8000_0000,
    ;
    let length_squared: u64 = (x * x) as u64 + (y * y) as u64;
    assert(DEADZONE * DEADZONE == 10_000_000_000) by (nonlinear_arith);
    let limit: u64 = (DEADZONE as u64) * (DEADZONE as u64);
    length_squared > limit
}

/// The angle whose cosine scales the movement, for a state that was
/// extrapolated to the tick and a heading in microradians.
pub fn steering_angle_of(state: &StateVector, heading: i32, rate_hz: u64) -> (angle: i128)
    requires
        state.wf(),
        rate_hz > 0,
    ensures
        angle == steering_angle(
            state@.theta,
            heading as int,
            angular_correction(state@.omega, rate_hz),
        ),
{
    let period: u64 = period_micros(rate_hz);
    let omega: u64 = state.omega();
    assert(0 <= omega * period <= OMEGA_MAX * u64::MAX) by (nonlinear_arith)
        requires
            0 <= omega <= OMEGA_MAX,
            0 <= period <= u64::MAX,
    ;
    assert(0 <= OMEGA_MAX * state@.time <= OMEGA_MAX * u64::MAX) by (nonlinear_arith)
        requires
            0 <= state@.time <= u64::MAX,
    ;
    let correction: i128 = (omega as i128) * (period as i128);
    let turned: i128 = (heading as i128) * (UNIT as i128);
    state.theta() - turned + correction
}

/// The two wheels' power, from whether the spin button is held and from the
/// cosine of the steering angle in millionths, or `None` while the stick is
/// at rest. The spin power goes to both wheels alike; the movement is taken
/// from the left wheel and given to the right one.
pub fn wheel_powers(config: &ControlConfig, spin: bool, cosine: Option<i32>) -> (cmd: MotorCommand)
    ensures
        cmd@ == driven(
            spin_term(spin, config.spin_power as int),
            movement_term(config.move_power as int, cosine),
        ),
{
    let mut base: i64 = 0;
    if spin {
        assert(-0x8000_0000 * UNIT <= config.spin_power * UNIT <= 0x8000_0000 * UNIT)
            by (nonlinear_arith)
            requires
                -0x8000_0000 <= config.spin_power <= 0x8000_0000,
        ;
        base = (config.spin_power as i64) * UNIT;
    }
    let mut movement: i64 = 0;
    if let Some(c) = cosine {
        assert(-0x4000_0000_0000_0000 <= config.move_power * c <= 0x4000_0000_0000_0000)
            by (nonlinear_arith)
            requires
                -0x8000_0000 <= config.move_power <= 0x8000_0000,
                -0x8000_0000 <= c <= 0x8000_0000,
        ;
        movement = (config.move_power as i64) * (c as i64);
    }
    MotorCommand::Power { left: base - movement, right: base + movement }
}

/// One tick of the control loop at `now`.
///
/// Unless armed, both motors are told to stand still, whatever the operator
/// does. Otherwise the spin button adds the spin power to both wheels. A
/// stick within the deadzone, its edge included, adds nothing more, whatever
/// the state and the time are. A stick out of the deadzone steers: the state
/// is extrapolated to `now`, which may then not lie before the state's own
/// time; `heading_of` is asked for the heading of the stick from its vertical and
/// horizontal deflection, in microradians, and `cosine_of` for the cosine,
/// in millionths, of the angle between the robot and that heading, which is
/// given in picoradians and includes the angle turned within one tick. The
/// movement power times that cosine is taken from the left wheel and given
/// to the right one.
pub fn motor_control<H, C>(
    armed: bool,
    input: &OperatorInput,
    state: &StateVector,
    now: u64,
    config: &ControlConfig,
    heading_of: H,
    cosine_of: C,
) -> (cmd: MotorCommand) where H: Fn(i32, i32) -> i32, C: Fn(i128) -> i32
    requires
        armed && steers(input.primary) ==> config.wf() && state.wf() && state@.time <= now,
        armed && steers(input.primary) ==> call_requires(
            heading_of,
            (input.primary.stick().spec_y(), input.primary.stick().spec_x()),
        ),
        forall|heading: i32, angle: i128|
            armed && steers(input.primary) && call_ensures(
                heading_of,
                (input.primary.stick().spec_y(), input.primary.stick().spec_x()),
                heading,
            ) && angle == tick_angle(state@, now as nat, config.rate_hz, heading)
                ==> call_requires(cosine_of, (angle,)),
    ensures
        !armed ==> cmd == MotorCommand::Neutral,
        !steers(input.primary) ==> cmd@ == commanded(
            armed,
            spin_term(spin_held(input.primary), config.spin_power as int),
            movement_term(config.move_power as int, None),
        ),
        armed && steers(input.primary) ==> steered_by(
            heading_of,
            cosine_of,
            input.primary,
            state@,
            now as nat,
            *config,
            cmd@,
        ),
{
    if !armed {
        return MotorCommand::Neutral;
    }
    let primary: ControllerState = input.primary;
    let spin: bool = primary.get(Button::LeftBumper);
    let stick: Stick = primary.left_stick();
    if stick_beyond_deadzone(stick) {
        let predicted: StateVector = state.predict(now);
        let heading: i32 = heading_of(stick.get_y(), stick.get_x());
        let angle: i128 = steering_angle_of(&predicted, heading, config.rate_hz);
        assert(angle == tick_angle(state@, now as nat, config.rate_hz, heading));
        let cosine: i32 = cosine_of(angle);
        wheel_powers(config, spin, Some(cosine))
    } else {
        wheel_powers(config, spin, None)
    }
}

/// While armed, holding the spin button adds the spin power to both wheels
/// alike, whatever the stick does.
pub proof fn lemma_spin_adds_to_both_wheels(spin_power: int, movement: int)
    ensures
        commanded(true, spin_term(true, spin_power), movement) == (Drive::Power {
            left: commanded(true, spin_term(false, spin_power), movement)->left + spin_power
                * UNIT,
            right: commanded(true, spin_term(false, spin_power), movement)->right + spin_power
                * UNIT,
        }),
{
}

/// A stick is within the deadzone up to and with its edge: where the
/// squares of the two deflections add up to no more than the square of the
/// deadzone, the stick does not steer.
pub proof fn lemma_deadzone_includes_its_edge(x: int, y: int)
    requires
        x * x + y * y <= DEADZONE * DEADZONE,
    ensures
        !beyond_deadzone(x, y),
        !beyond_deadzone(DEADZONE as int, 0),
        !beyond_deadzone(0, -DEADZONE),
{
    assert(DEADZONE * DEADZONE + 0 * 0 == DEADZONE * DEADZONE) by (nonlinear_arith);
    assert(0 * 0 + (-DEADZONE) * (-DEADZONE) == DEADZONE * DEADZONE) by (nonlinear_arith);
}

/// While armed, a stick at rest adds no movement: both wheels get the spin
/// term alone.
pub proof fn lemma_rest_adds_no_movement(spin: int, move_power: int)
    ensures
        commanded(true, spin, movement_term(move_power, None)) == (Drive::Power {
            left: spin,
            right: spin,
        }),
{
}

/// While armed, a stick out of the deadzone takes the movement power times
/// the cosine from the left wheel and gives it to the right one.
pub proof fn lemma_steering_moves_power_across(spin: int, move_power: int, cosine: i32)
    ensures
        commanded(true, spin, movement_term(move_power, Some(cosine))) == (Drive::Power {
            left: spin - move_power * cosine,
            right: spin + move_power * cosine,
        }),
{
}

/// A disarmed tick is neutral, whatever spin and movement would be.
pub proof fn lemma_disarmed_is_neutral(spin: int, movement: int)
    ensures
        commanded(false, spin, movement) == Drive::Neutral,
{
}

} // verus!
