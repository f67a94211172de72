use melty_control::operator::{Button, ControllerState, OperatorInput, Stick, FULL_DEFLECTION};

const BUTTONS: [Button; 8] = [
    Button::A,
    Button::B,
    Button::X,
    Button::Y,
    Button::LeftBumper,
    Button::RightBumper,
    Button::Back,
    Button::Start,
];

#[test]
fn buttons_have_their_own_bits() {
    for (i, button) in BUTTONS.iter().enumerate() {
        assert_eq!(button.index() as usize, i);
    }
}

#[test]
fn stick_keeps_its_deflection() {
    let stick = Stick::new(-250_000, 1_000_000).unwrap();
    assert_eq!(stick.get_x(), -250_000);
    assert_eq!(stick.get_y(), 1_000_000);
    assert_eq!(Stick::centered(), Stick::new(0, 0).unwrap());
}

#[test]
fn stick_refuses_more_than_full_deflection() {
    assert!(Stick::new(FULL_DEFLECTION, -FULL_DEFLECTION).is_some());
    assert!(Stick::new(FULL_DEFLECTION + 1, 0).is_none());
    assert!(Stick::new(-FULL_DEFLECTION - 1, 0).is_none());
    assert!(Stick::new(0, FULL_DEFLECTION + 1).is_none());
    assert!(Stick::new(0, -FULL_DEFLECTION - 1).is_none());
}

#[test]
fn idle_controller_holds_nothing() {
    let controller = ControllerState::idle();
    for button in BUTTONS {
        assert!(!controller.get(button));
    }
    assert_eq!(controller.left_stick(), Stick::centered());
}

#[test]
fn with_button_changes_that_button_alone() {
    for pressed in BUTTONS {
        let controller = ControllerState::idle().with_button(pressed, true);
        for button in BUTTONS {
            assert_eq!(controller.get(button), button == pressed);
        }
        let released = controller.with_button(pressed, false);
        assert_eq!(released, ControllerState::idle());
    }
}

#[test]
fn with_button_keeps_the_others_held() {
    let controller = ControllerState::idle()
        .with_button(Button::A, true)
        .with_button(Button::Start, true)
        .with_button(Button::A, true)
        .with_button(Button::LeftBumper, false);
    assert!(controller.get(Button::A));
    assert!(controller.get(Button::Start));
    assert!(!controller.get(Button::LeftBumper));
    let without = controller.with_button(Button::A, false);
    assert!(!without.get(Button::A));
    assert!(without.get(Button::Start));
}

#[test]
fn with_left_stick_keeps_the_buttons() {
    let stick = Stick::new(1, 2).unwrap();
    let controller = ControllerState::idle().with_button(Button::X, true).with_left_stick(stick);
    assert_eq!(controller.left_stick(), stick);
    assert!(controller.get(Button::X));
    assert!(!controller.get(Button::Y));
}

#[test]
fn idle_input_is_two_idle_controllers() {
    let input = OperatorInput::idle();
    assert_eq!(input.primary, ControllerState::idle());
    assert_eq!(input.secondary, ControllerState::idle());
}
