use melty_control::motor::{motor_control, ControlConfig, MotorCommand};
use melty_control::operator::{Button, ControllerState, OperatorInput, Stick};
use melty_control::state::StateVector;
use melty_control::watchdog::{observe_link, watchdog_task, LinkState, Watchdog};

fn no_heading(_y: i32, _x: i32) -> i32 {
    0
}

fn full_cosine(_angle: i128) -> i32 {
    1_000_000
}

#[test]
fn tick_right_after_a_timeout_is_neutral() {
    let primary = ControllerState::idle()
        .with_button(Button::LeftBumper, true)
        .with_left_stick(Stick::new(1_000_000, 0).unwrap());
    let input = OperatorInput { primary, secondary: ControllerState::idle() };
    let state = StateVector::initial(0);
    let config = ControlConfig::standard();

    let mut watchdog = Watchdog::new(2_000_000);
    watchdog.feed(0);
    let mut link = watchdog_task(LinkState::initial(), observe_link(LinkState::initial(), &watchdog, 0).unwrap());
    assert!(link.armed);
    assert_eq!(
        motor_control(link.armed, &input, &state, 1_999_999, &config, no_heading, full_cosine),
        MotorCommand::Power { left: 40_000_000, right: 80_000_000 }
    );
    assert_eq!(observe_link(link.state, &watchdog, 1_999_999), None);

    let event = observe_link(link.state, &watchdog, 2_000_000).unwrap();
    link = watchdog_task(link.state, event);
    assert!(!link.armed);
    assert_eq!(
        motor_control(link.armed, &input, &state, 2_000_000, &config, no_heading, full_cosine),
        MotorCommand::Neutral
    );

    watchdog.feed(2_000_500);
    let event = observe_link(link.state, &watchdog, 2_000_500).unwrap();
    link = watchdog_task(link.state, event);
    assert!(link.armed);
    assert_eq!(
        motor_control(link.armed, &input, &state, 2_000_500, &config, no_heading, full_cosine),
        MotorCommand::Power { left: 40_000_000, right: 80_000_000 }
    );
}
