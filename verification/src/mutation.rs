//! The closed catalog of input mutations a step can apply.
//!
//! Each scheduled step carries one [`Mutation`]: a small declarative value
//! naming which field of the input snapshot it rewrites and to what. Applying
//! a mutation is idempotent — it sets fields to fixed values, so re-applying
//! it on every tick of its step is harmless.

use vstd::prelude::*;

use crate::mutable_xinput_state::BUTTON_DPAD_DOWN;
use crate::mutable_xinput_state::BUTTON_DPAD_LEFT;
use crate::mutable_xinput_state::BUTTON_DPAD_RIGHT;
use crate::mutable_xinput_state::BUTTON_DPAD_UP;
use crate::mutable_xinput_state::BUTTON_EAST;
use crate::mutable_xinput_state::BUTTON_LEFT_SHOULDER;
use crate::mutable_xinput_state::BUTTON_LEFT_THUMB;
use crate::mutable_xinput_state::BUTTON_NORTH;
use crate::mutable_xinput_state::BUTTON_RIGHT_SHOULDER;
use crate::mutable_xinput_state::BUTTON_RIGHT_THUMB;
use crate::mutable_xinput_state::BUTTON_SELECT;
use crate::mutable_xinput_state::BUTTON_SOUTH;
use crate::mutable_xinput_state::BUTTON_START;
use crate::mutable_xinput_state::BUTTON_WEST;
use crate::mutable_xinput_state::ButtonState;
use crate::mutable_xinput_state::MutableXInputState;
use crate::mutable_xinput_state::buttons_with;

verus! {

/// Which of the two symmetric controller sides a mutation addresses.
#[derive(Clone, Copy, Debug, PartialEq, Eq, Structural)]
pub enum Side {
    Left,
    Right,
}

/// One named button of the pad.
#[derive(Clone, Copy, Debug, PartialEq, Eq, Structural)]
pub enum Button {
    North,
    South,
    East,
    West,
    ArrowUp,
    ArrowDown,
    ArrowLeft,
    ArrowRight,
    Start,
    Select,
    LeftShoulder,
    RightShoulder,
    LeftThumb,
    RightThumb,
}

/// The bit of `b` in the snapshot's button mask.
pub open spec fn button_mask(b: Button) -> u16 {
    match b {
        Button::North => BUTTON_NORTH,
        Button::South => BUTTON_SOUTH,
        Button::East => BUTTON_EAST,
        Button::West => BUTTON_WEST,
        Button::ArrowUp => BUTTON_DPAD_UP,
        Button::ArrowDown => BUTTON_DPAD_DOWN,
        Button::ArrowLeft => BUTTON_DPAD_LEFT,
        Button::ArrowRight => BUTTON_DPAD_RIGHT,
        Button::Start => BUTTON_START,
        Button::Select => BUTTON_SELECT,
        Button::LeftShoulder => BUTTON_LEFT_SHOULDER,
        Button::RightShoulder => BUTTON_RIGHT_SHOULDER,
        Button::LeftThumb => BUTTON_LEFT_THUMB,
        Button::RightThumb => BUTTON_RIGHT_THUMB,
    }
}

/// A unit of behavior: one rewrite of the input snapshot, applied once per
/// tick while its owning step is active.
#[derive(Clone, Copy, Debug, PartialEq, Eq, Structural)]
pub enum Mutation {
    /// Press or release one named button.
    SetButton { button: Button, state: ButtonState },
    /// Set one trigger's magnitude.
    SetTrigger { side: Side, value: u8 },
    /// Set both axes of one stick.
    SetStickAxis { side: Side, x: i16, y: i16 },
    /// Exchange the raw values of the two sticks.
    SwapSticks,
}

/// The snapshot after applying `m` to `cs`.
pub open spec fn apply_mutation(m: Mutation, cs: MutableXInputState) -> MutableXInputState {
    match m {
        Mutation::SetButton { button, state } => (MutableXInputState {
            buttons: buttons_with(cs.buttons, button_mask(button), state),
            ..cs
        }),
        Mutation::SetTrigger { side, value } => match side {
            Side::Left => (MutableXInputState { left_trigger: value, ..cs }),
            Side::Right => (MutableXInputState { right_trigger: value, ..cs }),
        },
        Mutation::SetStickAxis { side, x, y } => match side {
            Side::Left => (MutableXInputState { thumb_lx: x, thumb_ly: y, ..cs }),
            Side::Right => (MutableXInputState { thumb_rx: x, thumb_ry: y, ..cs }),
        },
        Mutation::SwapSticks => (MutableXInputState {
            thumb_lx: cs.thumb_rx,
            thumb_ly: cs.thumb_ry,
            thumb_rx: cs.thumb_lx,
            thumb_ry: cs.thumb_ly,
            ..cs
        }),
    }
}

impl Mutation {
    /// Rewrites `controller_state` as this mutation prescribes.
    pub fn apply(&self, controller_state: &mut MutableXInputState)
        ensures
            *final(controller_state) == apply_mutation(*self, *old(controller_state)),
    {
        match self {
            Mutation::SetButton { button, state } => {
                match button {
                    Button::North => controller_state.set_north_button(*state),
                    Button::South => controller_state.set_south_button(*state),
                    Button::East => controller_state.set_east_button(*state),
                    Button::West => controller_state.set_west_button(*state),
                    Button::ArrowUp => controller_state.set_arrow_up(*state),
                    Button::ArrowDown => controller_state.set_arrow_down(*state),
                    Button::ArrowLeft => controller_state.set_arrow_left(*state),
                    Button::ArrowRight => controller_state.set_arrow_right(*state),
                    Button::Start => controller_state.set_start_button(*state),
                    Button::Select => controller_state.set_select_button(*state),
                    Button::LeftShoulder => controller_state.set_left_shoulder(*state),
                    Button::RightShoulder => controller_state.set_right_shoulder(*state),
                    Button::LeftThumb => controller_state.set_left_thumb_button(*state),
                    Button::RightThumb => controller_state.set_right_thumb_button(*state),
                }
            },
            Mutation::SetTrigger { side, value } => {
                match side {
                    Side::Left => controller_state.set_left_trigger(*value),
                    Side::Right => controller_state.set_right_trigger(*value),
                }
            },
            Mutation::SetStickAxis { side, x, y } => {
                match side {
                    Side::Left => controller_state.set_left_stick_raw((*x, *y)),
                    Side::Right => controller_state.set_right_stick_raw((*x, *y)),
                }
            },
            Mutation::SwapSticks => {
                let left = controller_state.left_stick_raw();
                let right = controller_state.right_stick_raw();
                controller_state.set_left_stick_raw(right);
                controller_state.set_right_stick_raw(left);
            },
        }
    }
}

} // verus!
