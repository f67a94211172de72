//! What the operator's two controllers report: buttons held and the
//! deflection of a stick.

use vstd::prelude::*;

verus! {

/// Full deflection of a stick along one axis, in millionths.
pub const FULL_DEFLECTION: i32 = 1_000_000;

/// A button of a controller.
#[derive(Clone, Copy, Debug, PartialEq, Eq, Structural)]
pub enum Button {
    A,
    B,
    X,
    Y,
    LeftBumper,
    RightBumper,
    Back,
    Start,
}

impl Button {
    /// Position of the button's bit in a set of buttons.
    pub open spec fn spec_index(self) -> u8 {
        match self {
            Button::A => 0,
            Button::B => 1,
            Button::X => 2,
            Button::Y => 3,
            Button::LeftBumper => 4,
            Button::RightBumper => 5,
            Button::Back => 6,
            Button::Start => 7,
        }
    }

    /// Position of the button's bit in a set of buttons.
    pub fn index(self) -> (index: u8)
        ensures
            index == self.spec_index(),
            index < 8,
    {
        match self {
            Button::A => 0,
            Button::B => 1,
            Button::X => 2,
            Button::Y => 3,
            Button::LeftBumper => 4,
            Button::RightBumper => 5,
            Button::Back => 6,
            Button::Start => 7,
        }
    }
}

/// Whether bit `index` of `bits` is set.
pub open spec fn bit_set(bits: u8, index: u8) -> bool {
    bits & (1u8 << index) != 0
}

/// Deflection of a stick along its two axes, each in millionths of full
/// deflection and no further than full deflection either way.
#[derive(Clone, Copy, Debug, PartialEq, Eq, Structural)]
pub struct Stick {
    x: i32,
    y: i32,
}

impl Stick {
    /// Deflection along the horizontal axis.
    pub closed spec fn spec_x(&self) -> i32 {
        self.x
    }

    /// Deflection along the vertical axis.
    pub closed spec fn spec_y(&self) -> i32 {
        self.y
    }

    /// Neither axis is deflected further than full deflection.
    pub open spec fn wf(&self) -> bool {
        &&& -FULL_DEFLECTION <= self.spec_x() <= FULL_DEFLECTION
        &&& -FULL_DEFLECTION <= self.spec_y() <= FULL_DEFLECTION
    }

    /// The stick at rest.
    pub fn centered() -> (stick: Stick)
        ensures
            stick.wf(),
            stick.spec_x() == 0,
            stick.spec_y() == 0,
    {
        Stick { x: 0, y: 0 }
    }

    /// A stick deflected by `x` and `y`, where neither goes beyond full
    /// deflection.
    pub fn new(x: i32, y: i32) -> (stick: Option<Stick>)
        ensures
            stick.is_some() <==> -FULL_DEFLECTION <= x <= FULL_DEFLECTION && -FULL_DEFLECTION <= y
                <= FULL_DEFLECTION,
            stick matches Some(s) ==> s.wf() && s.spec_x() == x && s.spec_y() == y,
    {
        if x < -FULL_DEFLECTION || x > FULL_DEFLECTION || y < -FULL_DEFLECTION || y
            > FULL_DEFLECTION {
            None
        } else {
            Some(Stick { x, y })
        }
    }

    /// Deflection along the horizontal axis.
    pub fn get_x(&self) -> (x: i32)
        ensures
            x == self.spec_x(),
    {
        self.x
    }

    /// Deflection along the vertical axis.
    pub fn get_y(&self) -> (y: i32)
        ensures
            y == self.spec_y(),
    {
        self.y
    }
}

/// What one controller reports: the buttons held and the left stick.
#[derive(Clone, Copy, Debug, PartialEq, Eq, Structural)]
pub struct ControllerState {
    buttons: u8,
    left_stick: Stick,
}

impl ControllerState {
    /// Whether `button` is held.
    pub closed spec fn held(&self, button: Button) -> bool {
        bit_set(self.buttons, button.spec_index())
    }

    /// Deflection of the left stick.
    pub closed spec fn stick(&self) -> Stick {
        self.left_stick
    }

    /// The stick is within its range.
    pub open spec fn wf(&self) -> bool {
        self.stick().wf()
    }

    /// A controller with no button held and the stick at rest.
    pub fn idle() -> (controller: ControllerState)
        ensures
            controller.wf(),
            controller.stick().spec_x() == 0,
            controller.stick().spec_y() == 0,
            forall|button: Button| !controller.held(button),
    {
        assert forall|index: u8| index < 8 implies !bit_set(0u8, index) by {
            assert(0u8 & (1u8 << index) == 0) by (bit_vector);
        }
        ControllerState { buttons: 0, left_stick: Stick::centered() }
    }

    /// Deflection of the left stick.
    pub fn left_stick(&self) -> (stick: Stick)
        ensures
            stick == self.stick(),
    {
        self.left_stick
    }

    /// Whether `button` is held.
    pub fn get(&self, button: Button) -> (held: bool)
        ensures
            held == self.held(button),
    {
        let index: u8 = button.index();
        self.buttons & (1u8 << index) != 0
    }

    /// The same controller with `button` held or released as `held` says.
    pub fn with_button(self, button: Button, held: bool) -> (controller: ControllerState)
        ensures
            controller.stick() == self.stick(),
            controller.held(button) == held,
            forall|other: Button| other != button ==> controller.held(other) == self.held(other),
    {
        let index: u8 = button.index();
        let bits: u8 = self.buttons;
        let mask: u8 = 1u8 << index;
        let buttons: u8 = if held {
            bits | mask
        } else {
            bits & !mask
        };
        proof {
            assert forall|other: u8| other < 8 implies bit_set(buttons, other) == (if other
                == index {
                held
            } else {
                bit_set(bits, other)
            }) by {
                assert(index < 8 && other < 8 ==> (((bits | (1u8 << index)) & (1u8 << other) != 0)
                    == (other == index || bits & (1u8 << other) != 0))) by (bit_vector);
                assert(index < 8 && other < 8 ==> (((bits & !(1u8 << index)) & (1u8 << other) != 0)
                    == (other != index && bits & (1u8 << other) != 0))) by (bit_vector);
            }
            assert forall|other: Button| other != button implies other.spec_index()
                != button.spec_index() by {}
        }
        ControllerState { buttons, left_stick: self.left_stick }
    }

    /// The same controller with the left stick at `stick`.
    pub fn with_left_stick(self, stick: Stick) -> (controller: ControllerState)
        ensures
            controller.stick() == stick,
            forall|button: Button| controller.held(button) == self.held(button),
    {
        ControllerState { buttons: self.buttons, left_stick: stick }
    }
}

/// What the operator's two controllers report. The second controller is
/// carried along and takes no part in steering.
#[derive(Clone, Copy, Debug, PartialEq, Eq, Structural)]
pub struct OperatorInput {
    /// The controller that steers the robot.
    pub primary: ControllerState,
    /// The second controller.
    pub secondary: ControllerState,
}

impl OperatorInput {
    /// Both controllers with no button held and the sticks at rest.
    pub fn idle() -> (input: OperatorInput)
        ensures
            input.primary.wf(),
            input.secondary.wf(),
            input.primary.stick().spec_x() == 0,
            input.primary.stick().spec_y() == 0,
            input.secondary.stick().spec_x() == 0,
            input.secondary.stick().spec_y() == 0,
            forall|button: Button| !input.primary.held(button),
            forall|button: Button| !input.secondary.held(button),
    {
        OperatorInput { primary: ControllerState::idle(), secondary: ControllerState::idle() }
    }
}

} // verus!
