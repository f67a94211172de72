//! The start-up sequence: both motors are run up to full duty and
//! back down before the periodic tasks begin. The end of each ramp is waited
//! for by looking at the motors a bounded number of times.

use vstd::prelude::*;
use crate::logging::LogEvent;

verus! {

/// Duty, in percent, from which the self-test ramps up and to which it
/// comes back.
pub const RAMP_LOW: u8 = 0;

/// Duty, in percent, that the self-test ramps up to.
pub const RAMP_HIGH: u8 = 100;

/// Milliseconds that each of the two ramps takes.
pub const RAMP_MILLIS: u16 = 1000;

/// Microseconds from one look at the motors' ramps to the next.
pub const RAMP_POLL_MICROS: u64 = 1_000;

/// Number of times that the motors are looked at again before a ramp is
/// given up: as many as fit into twice the time that the ramp takes.
pub const RAMP_POLLS: u32 = 2_000;

/// How far the start-up sequence has come.
#[derive(Clone, Copy, Debug, PartialEq, Eq, Structural)]
pub enum Startup {
    /// Nothing has been done yet.
    Idle,
    /// The motors are ramping up, and may be looked at again so many times.
    RampingUp { polls_left: u32 },
    /// The motors are ramping down, and may be looked at again so many
    /// times.
    RampingDown { polls_left: u32 },
    /// The self-test is over and the periodic tasks run.
    Running,
    /// A ramp did not end in time; nothing is started.
    Failed,
}

/// What happened.
#[derive(Clone, Copy, Debug, PartialEq, Eq, Structural)]
pub enum StartupEvent {
    /// The sequence is to begin.
    Begin,
    /// The motors were asked whether their ramps are still running.
    Fading { left: bool, right: bool },
}

/// What to do next.
#[derive(Clone, Copy, Debug, PartialEq, Eq, Structural)]
pub enum StartupAction {
    /// Nothing.
    Nothing,
    /// Start a ramp on both motors, then ask whether it is running.
    StartRamp { from: u8, to: u8, millis: u16 },
    /// Wait for `delay` microseconds, then ask again whether the ramps are
    /// running.
    PollRamp { delay: u64 },
    /// Set the rotational state to rest and start the periodic tasks.
    StartTasks,
    /// Stop: the motors are in a state that nobody knows.
    Halt,
}

/// The outcome of one step of the start-up sequence.
#[derive(Clone, Copy, Debug, PartialEq, Eq, Structural)]
pub struct StartupStep {
    /// How far the sequence has come now.
    pub stage: Startup,
    /// What to report to the log.
    pub log: Option<LogEvent>,
    /// What to do next.
    pub action: StartupAction,
}

impl Startup {
    /// Place of the stage in the sequence.
    pub open spec fn rank(self) -> nat {
        match self {
            Startup::Idle => 0,
            Startup::RampingUp { .. } => 1,
            Startup::RampingDown { .. } => 2,
            Startup::Running => 3,
            Startup::Failed => 3,
        }
    }

    /// A number that no more steps can follow than: each step that asks for
    /// something to be done makes it smaller.
    pub open spec fn steps_left(self) -> nat {
        match self {
            Startup::Idle => 2 * RAMP_POLLS as nat + 4,
            Startup::RampingUp { polls_left } => polls_left as nat + RAMP_POLLS as nat + 3,
            Startup::RampingDown { polls_left } => polls_left as nat + 2,
            Startup::Running => 1,
            Startup::Failed => 0,
        }
    }
}

/// The start-up sequence after `event`. It begins with the ramp up. Each
/// ramp has ended when neither motor says that it is running; the ramp down
/// follows the ramp up, and the periodic tasks follow the ramp down. While a
/// ramp is running the motors are looked at again after a pause, as long as
/// looks are left; a ramp that is still running when none is left ends the
/// sequence in failure, and the robot is halted. Nothing else changes
/// anything.
pub open spec fn startup_next(stage: Startup, event: StartupEvent) -> StartupStep {
    match (stage, event) {
        (Startup::Idle, StartupEvent::Begin) => StartupStep {
            stage: Startup::RampingUp { polls_left: RAMP_POLLS },
            log: Some(LogEvent::InitializingMotors),
            action: StartupAction::StartRamp { from: RAMP_LOW, to: RAMP_HIGH, millis: RAMP_MILLIS },
        },
        (Startup::RampingUp { polls_left }, StartupEvent::Fading { left, right }) => if !left
            && !right {
            StartupStep {
                stage: Startup::RampingDown { polls_left: RAMP_POLLS },
                log: None,
                action: StartupAction::StartRamp {
                    from: RAMP_HIGH,
                    to: RAMP_LOW,
                    millis: RAMP_MILLIS,
                },
            }
        } else if polls_left > 0 {
            StartupStep {
                stage: Startup::RampingUp { polls_left: (polls_left - 1) as u32 },
                log: None,
                action: StartupAction::PollRamp { delay: RAMP_POLL_MICROS },
            }
        } else {
            StartupStep { stage: Startup::Failed, log: None, action: StartupAction::Halt }
        },
        (Startup::RampingDown { polls_left }, StartupEvent::Fading { left, right }) => if !left
            && !right {
            StartupStep {
                stage: Startup::Running,
                log: Some(LogEvent::MotorsInitialized),
                action: StartupAction::StartTasks,
            }
        } else if polls_left > 0 {
            StartupStep {
                stage: Startup::RampingDown { polls_left: (polls_left - 1) as u32 },
                log: None,
                action: StartupAction::PollRamp { delay: RAMP_POLL_MICROS },
            }
        } else {
            StartupStep { stage: Startup::Failed, log: None, action: StartupAction::Halt }
        },
        _ => StartupStep { stage, log: None, action: StartupAction::Nothing },
    }
}

/// The start-up sequence after the events `events`.
pub open spec fn startup_run(stage: Startup, events: Seq<StartupEvent>) -> Startup
    decreases events.len(),
{
    if events.len() == 0 {
        stage
    } else {
        startup_next(startup_run(stage, events.drop_last()), events.last()).stage
    }
}

/// Number of the events `events` at which the sequence, begun at `stage`,
/// asks for something to be done.
pub open spec fn startup_actions(stage: Startup, events: Seq<StartupEvent>) -> nat
    decreases events.len(),
{
    if events.len() == 0 {
        0
    } else {
        let before = startup_run(stage, events.drop_last());
        startup_actions(stage, events.drop_last()) + if startup_next(before, events.last()).action
            == StartupAction::Nothing {
            0nat
        } else {
            1nat
        }
    }
}

/// One step of the start-up sequence: takes what happened and says how far
/// the sequence has come, what to report to the log and what to do next.
pub fn control_logic(stage: Startup, event: StartupEvent) -> (step: StartupStep)
    ensures
        step == startup_next(stage, event),
{
    match (stage, event) {
        (Startup::Idle, StartupEvent::Begin) => StartupStep {
            stage: Startup::RampingUp { polls_left: RAMP_POLLS },
            log: Some(LogEvent::InitializingMotors),
            action: StartupAction::StartRamp { from: RAMP_LOW, to: RAMP_HIGH, millis: RAMP_MILLIS },
        },
        (Startup::RampingUp { polls_left }, StartupEvent::Fading { left, right }) => {
            if !left && !right {
                StartupStep {
                    stage: Startup::RampingDown { polls_left: RAMP_POLLS },
                    log: None,
                    action: StartupAction::StartRamp {
                        from: RAMP_HIGH,
                        to: RAMP_LOW,
                        millis: RAMP_MILLIS,
                    },
                }
            } else if polls_left > 0 {
                StartupStep {
                    stage: Startup::RampingUp { polls_left: polls_left - 1 },
                    log: None,
                    action: StartupAction::PollRamp { delay: RAMP_POLL_MICROS },
                }
            } else {
                StartupStep { stage: Startup::Failed, log: None, action: StartupAction::Halt }
            }
        },
        (Startup::RampingDown { polls_left }, StartupEvent::Fading { left, right }) => {
            if !left && !right {
                StartupStep {
                    stage: Startup::Running,
                    log: Some(LogEvent::MotorsInitialized),
                    action: StartupAction::StartTasks,
                }
            } else if polls_left > 0 {
                StartupStep {
                    stage: Startup::RampingDown { polls_left: polls_left - 1 },
                    log: None,
                    action: StartupAction::PollRamp { delay: RAMP_POLL_MICROS },
                }
            } else {
                StartupStep { stage: Startup::Failed, log: None, action: StartupAction::Halt }
            }
        },
        _ => StartupStep { stage, log: None, action: StartupAction::Nothing },
    }
}

/// The sequence never goes back and never skips a stage, but to fail.
pub proof fn lemma_startup_in_order(stage: Startup, event: StartupEvent)
    ensures
        startup_next(stage, event).stage.rank() == stage.rank() || startup_next(
            stage,
            event,
        ).stage.rank() == stage.rank() + 1 || startup_next(stage, event).stage == Startup::Failed,
{
}

/// The periodic tasks are started once, when the ramp down has ended on
/// both motors, and at no other step.
pub proof fn lemma_tasks_start_after_ramps(stage: Startup, event: StartupEvent)
    ensures
        startup_next(stage, event).action == StartupAction::StartTasks <==> stage is RampingDown
            && event == (StartupEvent::Fading { left: false, right: false }),
        startup_next(stage, event).action == StartupAction::StartTasks ==> startup_next(
            stage,
            event,
        ).stage == Startup::Running,
{
}

/// Every step that asks for something to be done leaves fewer steps to
/// follow.
pub proof fn lemma_step_leaves_fewer(stage: Startup, event: StartupEvent)
    ensures
        startup_next(stage, event).action != StartupAction::Nothing ==> startup_next(
            stage,
            event,
        ).stage.steps_left() < stage.steps_left(),
        startup_next(stage, event).action == StartupAction::Nothing ==> startup_next(
            stage,
            event,
        ).stage == stage,
{
}

/// The polling is bounded: over any events whatever, the sequence asks for
/// something to be done no more often than the stage it began at allows;
/// from the beginning that is at most twice the looks of one ramp, and four
/// steps more.
pub proof fn lemma_polling_is_bounded(stage: Startup, events: Seq<StartupEvent>)
    ensures
        startup_actions(stage, events) + startup_run(stage, events).steps_left()
            <= stage.steps_left(),
        Startup::Idle.steps_left() == 2 * RAMP_POLLS + 4,
    decreases events.len(),
{
    if events.len() > 0 {
        lemma_polling_is_bounded(stage, events.drop_last());
        lemma_step_leaves_fewer(startup_run(stage, events.drop_last()), events.last());
    }
}

} // verus!
