//! The events that the core reports to the log.

use vstd::prelude::*;

verus! {

/// An event worth a line in the log.
#[derive(Clone, Copy, Debug, PartialEq, Eq, Structural)]
pub enum LogEvent {
    /// The motors' self-test begins.
    InitializingMotors,
    /// The motors' self-test is over.
    MotorsInitialized,
    /// The control link fell silent for longer than the watchdog allows.
    WatchdogTimeout,
}

impl LogEvent {
    /// The name under which the event goes to the log.
    pub open spec fn spec_name(self) -> Seq<char> {
        match self {
            LogEvent::InitializingMotors => "motors-initializing"@,
            LogEvent::MotorsInitialized => "motors-initialized"@,
            LogEvent::WatchdogTimeout => "watchdog-timeout"@,
        }
    }

    /// The name under which the event goes to the log.
    pub fn name(self) -> (name: &'static str)
        ensures
            name@ == self.spec_name(),
    {
        match self {
            LogEvent::InitializingMotors => "motors-initializing",
            LogEvent::MotorsInitialized => "motors-initialized",
            LogEvent::WatchdogTimeout => "watchdog-timeout",
        }
    }
}

} // verus!
