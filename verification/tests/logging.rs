use melty_control::logging::LogEvent;

#[test]
fn events_go_to_the_log_under_their_names() {
    assert_eq!(LogEvent::InitializingMotors.name(), "motors-initializing");
    assert_eq!(LogEvent::MotorsInitialized.name(), "motors-initialized");
    assert_eq!(LogEvent::WatchdogTimeout.name(), "watchdog-timeout");
}
