//! Whether the operator is using the controller.

use vstd::prelude::*;

verus! {

/// The deadzone of a stick axis in raw units. The raw range is -127..=127,
/// and a deflection counts beyond 0.05 of full scale, that is 6.35 units.
pub const STICK_DEADZONE: i8 = 6;

/// The state of a controller: its twelve buttons and the raw positions of
/// the two sticks' axes.
#[derive(Debug, Clone, Copy, PartialEq, Eq, Structural)]
pub struct ControllerSnapshot {
    pub button_a: bool,
    pub button_b: bool,
    pub button_x: bool,
    pub button_y: bool,
    pub button_up: bool,
    pub button_down: bool,
    pub button_left: bool,
    pub button_right: bool,
    pub button_l1: bool,
    pub button_l2: bool,
    pub button_r1: bool,
    pub button_r2: bool,
    pub left_x: i8,
    pub left_y: i8,
    pub right_x: i8,
    pub right_y: i8,
}

/// The axis is outside the deadzone.
pub open spec fn deflected(v: i8) -> bool {
    v > STICK_DEADZONE || v < -STICK_DEADZONE
}

/// Some button is pressed or some stick axis is outside the deadzone.
pub open spec fn spec_has_interaction(s: ControllerSnapshot) -> bool {
    s.button_a || s.button_b || s.button_x || s.button_y || s.button_up || s.button_down
        || s.button_left || s.button_right || s.button_l1 || s.button_l2 || s.button_r1
        || s.button_r2 || deflected(s.left_x) || deflected(s.left_y) || deflected(s.right_x)
        || deflected(s.right_y)
}

/// Whether the operator is touching the controller.
pub fn has_interaction(state: &ControllerSnapshot) -> (r: bool)
    ensures
        r == spec_has_interaction(*state),
{
    state.button_a || state.button_b || state.button_x || state.button_y || state.button_up
        || state.button_down || state.button_left || state.button_right || state.button_l1
        || state.button_l2 || state.button_r1 || state.button_r2
        || state.left_x > STICK_DEADZONE || state.left_x < -STICK_DEADZONE
        || state.left_y > STICK_DEADZONE || state.left_y < -STICK_DEADZONE
        || state.right_x > STICK_DEADZONE || state.right_x < -STICK_DEADZONE
        || state.right_y > STICK_DEADZONE || state.right_y < -STICK_DEADZONE
}

} // verus!
