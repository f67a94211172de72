//! Motion-control core of a self-rotating two-wheel robot.
//!
//! Every quantity is an integer in millionths of its unit: microseconds,
//! micrometres, microradians per second, millionths of full stick deflection
//! and of one unit of motor power. Angles are kept in picoradians, the
//! product of microradians per second and microseconds, so that
//! extrapolating an angle over time loses nothing.

pub mod clock;
pub mod estimator;
pub mod logging;
pub mod motor;
pub mod operator;
pub mod root;
pub mod startup;
pub mod state;
pub mod watchdog;
