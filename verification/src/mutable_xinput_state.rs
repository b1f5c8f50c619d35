//! A plain-value model of a gamepad input snapshot.
//!
//! The live input structure belongs to the host; this type carries the same
//! information as ordinary integers so that every read and write of it can be
//! reasoned about. Buttons live in one 16-bit mask (one named bit per
//! button), the two triggers are 8-bit magnitudes, the two sticks are pairs
//! of signed 16-bit axes, and the packet number is used only to compare two
//! snapshots for equality.

use vstd::prelude::*;

verus! {

/// Bit of the D-pad up button in the button mask.
pub const BUTTON_DPAD_UP: u16 = 0x0001;
/// Bit of the D-pad down button in the button mask.
pub const BUTTON_DPAD_DOWN: u16 = 0x0002;
/// Bit of the D-pad left button in the button mask.
pub const BUTTON_DPAD_LEFT: u16 = 0x0004;
/// Bit of the D-pad right button in the button mask.
pub const BUTTON_DPAD_RIGHT: u16 = 0x0008;
/// Bit of the start button in the button mask.
pub const BUTTON_START: u16 = 0x0010;
/// Bit of the select (back) button in the button mask.
pub const BUTTON_SELECT: u16 = 0x0020;
/// Bit of the left thumb-stick click in the button mask.
pub const BUTTON_LEFT_THUMB: u16 = 0x0040;
/// Bit of the right thumb-stick click in the button mask.
pub const BUTTON_RIGHT_THUMB: u16 = 0x0080;
/// Bit of the left shoulder button in the button mask.
pub const BUTTON_LEFT_SHOULDER: u16 = 0x0100;
/// Bit of the right shoulder button in the button mask.
pub const BUTTON_RIGHT_SHOULDER: u16 = 0x0200;
/// Bit of the south action button (XBox A) in the button mask.
pub const BUTTON_SOUTH: u16 = 0x1000;
/// Bit of the east action button (XBox B) in the button mask.
pub const BUTTON_EAST: u16 = 0x2000;
/// Bit of the west action button (XBox X) in the button mask.
pub const BUTTON_WEST: u16 = 0x4000;
/// Bit of the north action button (XBox Y) in the button mask.
pub const BUTTON_NORTH: u16 = 0x8000;

/// The binary state of one button: released or pressed.
#[derive(Clone, Copy, Debug, PartialEq, Eq, Structural)]
pub enum ButtonState {
    UP,
    DOWN,
}

/// A gamepad input snapshot held as plain values.
#[derive(Clone, Copy, Debug)]
pub struct MutableXInputState {
    /// Monotonically increasing packet sequence number; two snapshots are
    /// equal exactly when their packet numbers are.
    pub packet_number: u32,
    /// One bit per named button; a set bit means pressed.
    pub buttons: u16,
    /// Left trigger magnitude.
    pub left_trigger: u8,
    /// Right trigger magnitude.
    pub right_trigger: u8,
    /// Left stick X axis; positive is to the right.
    pub thumb_lx: i16,
    /// Left stick Y axis; positive is up.
    pub thumb_ly: i16,
    /// Right stick X axis; positive is to the right.
    pub thumb_rx: i16,
    /// Right stick Y axis; positive is up.
    pub thumb_ry: i16,
}

/// The button mask after setting the bits of `mask` to `state`.
pub open spec fn buttons_with(buttons: u16, mask: u16, state: ButtonState) -> u16 {
    match state {
        ButtonState::UP => buttons & !mask,
        ButtonState::DOWN => buttons | mask,
    }
}

/// Whether the bits of `mask` read as pressed in `buttons`.
pub open spec fn button_is_down(buttons: u16, mask: u16) -> bool {
    buttons & mask != 0
}

/// Setting a button's bits decides exactly how they read back: after setting
/// to `DOWN` the button reads as pressed, after `UP` as released, and bits
/// outside the mask are untouched either way.
pub proof fn lemma_button_set_then_read(buttons: u16, mask: u16, other: u16)
    requires
        mask != 0,
        other & mask == 0,
    ensures
        button_is_down(buttons_with(buttons, mask, ButtonState::DOWN), mask),
        !button_is_down(buttons_with(buttons, mask, ButtonState::UP), mask),
        button_is_down(buttons_with(buttons, mask, ButtonState::DOWN), other) == button_is_down(
            buttons,
            other,
        ),
        button_is_down(buttons_with(buttons, mask, ButtonState::UP), other) == button_is_down(
            buttons,
            other,
        ),
{
    assert((buttons | mask) & mask != 0) by (bit_vector)
        requires
            mask != 0,
    ;
    assert((buttons & !mask) & mask == 0) by (bit_vector);
    assert(((buttons | mask) & other != 0) == (buttons & other != 0)) by (bit_vector)
        requires
            other & mask == 0,
    ;
    assert(((buttons & !mask) & other != 0) == (buttons & other != 0)) by (bit_vector)
        requires
            other & mask == 0,
    ;
}

impl PartialEq for MutableXInputState {
    /// Equality of two snapshots is based only on the packet number, as two
    /// reads of the same device packet carry the same payload.
    fn eq(&self, other: &MutableXInputState) -> (r: bool) {
        self.packet_number == other.packet_number
    }
}

impl vstd::std_specs::cmp::PartialEqSpecImpl for MutableXInputState {
    open spec fn obeys_eq_spec() -> bool {
        true
    }

    open spec fn eq_spec(&self, other: &MutableXInputState) -> bool {
        self.packet_number == other.packet_number
    }
}

impl MutableXInputState {
    /// The default threshold to count a trigger as being "pressed".
    pub const TRIGGER_THRESHOLD: u8 = 30;

    /// The suggested default deadzone for use with the left thumb stick.
    pub const LEFT_STICK_DEADZONE: i16 = 7849;

    /// The suggested default deadzone for use with the right thumb stick.
    pub const RIGHT_STICK_DEADZONE: i16 = 8689;

    /// A snapshot with every button released, both triggers at rest and both
    /// sticks centered.
    pub fn new() -> (r: Self)
        ensures
            r == (MutableXInputState {
                packet_number: 0u32,
                buttons: 0u16,
                left_trigger: 0u8,
                right_trigger: 0u8,
                thumb_lx: 0i16,
                thumb_ly: 0i16,
                thumb_rx: 0i16,
                thumb_ry: 0i16,
            }),
    {
        MutableXInputState {
            packet_number: 0,
            buttons: 0,
            left_trigger: 0,
            right_trigger: 0,
            thumb_lx: 0,
            thumb_ly: 0,
            thumb_rx: 0,
            thumb_ry: 0,
        }
    }

    /// Sets the given button bits of the mask up or down.
    fn set_button_bit(&mut self, bit_mask: u16, state: ButtonState)
        ensures
            *final(self) == (MutableXInputState {
                buttons: buttons_with(old(self).buttons, bit_mask, state),
                ..*old(self)
            }),
    {
        match state {
            ButtonState::UP => {
                self.buttons = self.buttons & !bit_mask;
            },
            ButtonState::DOWN => {
                self.buttons = self.buttons | bit_mask;
            },
        }
    }

    /// The north button of the action button group.
    ///
    /// * Nintendo: X
    /// * Playstation: Triangle
    /// * XBox: Y
    pub fn north_button(&self) -> (r: ButtonState)
        ensures
            r == (if button_is_down(self.buttons, BUTTON_NORTH) {
                ButtonState::DOWN
            } else {
                ButtonState::UP
            }),
    {
        if self.buttons & BUTTON_NORTH != 0 {
            ButtonState::DOWN
        } else {
            ButtonState::UP
        }
    }

    pub fn set_north_button(&mut self, button_state: ButtonState)
        ensures
            *final(self) == (MutableXInputState {
                buttons: buttons_with(old(self).buttons, BUTTON_NORTH, button_state),
                ..*old(self)
            }),
    {
        self.set_button_bit(BUTTON_NORTH, button_state);
    }

    /// The south button of the action button group.
    ///
    /// * Nintendo: B
    /// * Playstation: X
    /// * XBox: A
    pub fn south_button(&self) -> (r: ButtonState)
        ensures
            r == (if button_is_down(self.buttons, BUTTON_SOUTH) {
                ButtonState::DOWN
            } else {
                ButtonState::UP
            }),
    {
        if self.buttons & BUTTON_SOUTH != 0 {
            ButtonState::DOWN
        } else {
            ButtonState::UP
        }
    }

    pub fn set_south_button(&mut self, button_state: ButtonState)
        ensures
            *final(self) == (MutableXInputState {
                buttons: buttons_with(old(self).buttons, BUTTON_SOUTH, button_state),
                ..*old(self)
            }),
    {
        self.set_button_bit(BUTTON_SOUTH, button_state);
    }

    /// The east button of the action button group.
    ///
    /// * Nintendo: A
    /// * Playstation: Circle
    /// * XBox: B
    pub fn east_button(&self) -> (r: bool)
        ensures
            r == button_is_down(self.buttons, BUTTON_EAST),
    {
        self.buttons & BUTTON_EAST != 0
    }

    pub fn set_east_button(&mut self, button_state: ButtonState)
        ensures
            *final(self) == (MutableXInputState {
                buttons: buttons_with(old(self).buttons, BUTTON_EAST, button_state),
                ..*old(self)
            }),
    {
        self.set_button_bit(BUTTON_EAST, button_state);
    }

    /// The west button of the action button group.
    ///
    /// * Nintendo: Y
    /// * Playstation: Square
    /// * XBox: X
    pub fn west_button(&self) -> (r: bool)
        ensures
            r == button_is_down(self.buttons, BUTTON_WEST),
    {
        self.buttons & BUTTON_WEST != 0
    }

    pub fn set_west_button(&mut self, button_state: ButtonState)
        ensures
            *final(self) == (MutableXInputState {
                buttons: buttons_with(old(self).buttons, BUTTON_WEST, button_state),
                ..*old(self)
            }),
    {
        self.set_button_bit(BUTTON_WEST, button_state);
    }

    /// The up button on the directional pad.
    pub fn arrow_up(&self) -> (r: bool)
        ensures
            r == button_is_down(self.buttons, BUTTON_DPAD_UP),
    {
        self.buttons & BUTTON_DPAD_UP != 0
    }

    pub fn set_arrow_up(&mut self, button_state: ButtonState)
        ensures
            *final(self) == (MutableXInputState {
                buttons: buttons_with(old(self).buttons, BUTTON_DPAD_UP, button_state),
                ..*old(self)
            }),
    {
        self.set_button_bit(BUTTON_DPAD_UP, button_state);
    }

    /// The down button on the directional pad.
    pub fn arrow_down(&self) -> (r: bool)
        ensures
            r == button_is_down(self.buttons, BUTTON_DPAD_DOWN),
    {
        self.buttons & BUTTON_DPAD_DOWN != 0
    }

    pub fn set_arrow_down(&mut self, button_state: ButtonState)
        ensures
            *final(self) == (MutableXInputState {
                buttons: buttons_with(old(self).buttons, BUTTON_DPAD_DOWN, button_state),
                ..*old(self)
            }),
    {
        self.set_button_bit(BUTTON_DPAD_DOWN, button_state);
    }

    /// The left button on the directional pad.
    pub fn arrow_left(&self) -> (r: bool)
        ensures
            r == button_is_down(self.buttons, BUTTON_DPAD_LEFT),
    {
        self.buttons & BUTTON_DPAD_LEFT != 0
    }

    pub fn set_arrow_left(&mut self, button_state: ButtonState)
        ensures
            *final(self) == (MutableXInputState {
                buttons: buttons_with(old(self).buttons, BUTTON_DPAD_LEFT, button_state),
                ..*old(self)
            }),
    {
        self.set_button_bit(BUTTON_DPAD_LEFT, button_state);
    }

    /// The right button on the directional pad.
    pub fn arrow_right(&self) -> (r: bool)
        ensures
            r == button_is_down(self.buttons, BUTTON_DPAD_RIGHT),
    {
        self.buttons & BUTTON_DPAD_RIGHT != 0
    }

    pub fn set_arrow_right(&mut self, button_state: ButtonState)
        ensures
            *final(self) == (MutableXInputState {
                buttons: buttons_with(old(self).buttons, BUTTON_DPAD_RIGHT, button_state),
                ..*old(self)
            }),
    {
        self.set_button_bit(BUTTON_DPAD_RIGHT, button_state);
    }

    /// The "start" button.
    ///
    /// * Nintendo: Start (NES / SNES), '+' (Pro Controller)
    /// * Playstation: Start
    /// * XBox: Start
    pub fn start_button(&self) -> (r: bool)
        ensures
            r == button_is_down(self.buttons, BUTTON_START),
    {
        self.buttons & BUTTON_START != 0
    }

    pub fn set_start_button(&mut self, button_state: ButtonState)
        ensures
            *final(self) == (MutableXInputState {
                buttons: buttons_with(old(self).buttons, BUTTON_START, button_state),
                ..*old(self)
            }),
    {
        self.set_button_bit(BUTTON_START, button_state);
    }

    /// The "not start" button.
    ///
    /// * Nintendo: Select (NES / SNES), '-' (Pro Controller)
    /// * Playstation: Select
    /// * XBox: Back
    pub fn select_button(&self) -> (r: bool)
        ensures
            r == button_is_down(self.buttons, BUTTON_SELECT),
    {
        self.buttons & BUTTON_SELECT != 0
    }

    pub fn set_select_button(&mut self, button_state: ButtonState)
        ensures
            *final(self) == (MutableXInputState {
                buttons: buttons_with(old(self).buttons, BUTTON_SELECT, button_state),
                ..*old(self)
            }),
    {
        self.set_button_bit(BUTTON_SELECT, button_state);
    }

    /// The upper left shoulder button.
    ///
    /// * Nintendo: L
    /// * Playstation: L1
    /// * XBox: LB
    pub fn left_shoulder(&self) -> (r: bool)
        ensures
            r == button_is_down(self.buttons, BUTTON_LEFT_SHOULDER),
    {
        self.buttons & BUTTON_LEFT_SHOULDER != 0
    }

    pub fn set_left_shoulder(&mut self, button_state: ButtonState)
        ensures
            *final(self) == (MutableXInputState {
                buttons: buttons_with(old(self).buttons, BUTTON_LEFT_SHOULDER, button_state),
                ..*old(self)
            }),
    {
        self.set_button_bit(BUTTON_LEFT_SHOULDER, button_state);
    }

    /// The upper right shoulder button.
    ///
    /// * Nintendo: R
    /// * Playstation: R1
    /// * XBox: RB
    pub fn right_shoulder(&self) -> (r: bool)
        ensures
            r == button_is_down(self.buttons, BUTTON_RIGHT_SHOULDER),
    {
        self.buttons & BUTTON_RIGHT_SHOULDER != 0
    }

    pub fn set_right_shoulder(&mut self, button_state: ButtonState)
        ensures
            *final(self) == (MutableXInputState {
                buttons: buttons_with(old(self).buttons, BUTTON_RIGHT_SHOULDER, button_state),
                ..*old(self)
            }),
    {
        self.set_button_bit(BUTTON_RIGHT_SHOULDER, button_state);
    }

    /// The lower left shoulder trigger. If you want to use this as a simple
    /// boolean it is suggested that you compare it to the `TRIGGER_THRESHOLD`
    /// constant.
    ///
    /// * Nintendo: ZL
    /// * Playstation: L2
    /// * XBox: LT
    pub fn left_trigger(&self) -> (r: u8)
        ensures
            r == self.left_trigger,
    {
        self.left_trigger
    }

    pub fn set_left_trigger(&mut self, value: u8)
        ensures
            *final(self) == (MutableXInputState { left_trigger: value, ..*old(self) }),
    {
        self.left_trigger = value;
    }

    /// The lower right shoulder trigger. If you want to use this as a simple
    /// boolean it is suggested that you compare it to the `TRIGGER_THRESHOLD`
    /// constant.
    ///
    /// * Nintendo: ZR
    /// * Playstation: R2
    /// * XBox: RT
    pub fn right_trigger(&self) -> (r: u8)
        ensures
            r == self.right_trigger,
    {
        self.right_trigger
    }

    pub fn set_right_trigger(&mut self, value: u8)
        ensures
            *final(self) == (MutableXInputState { right_trigger: value, ..*old(self) }),
    {
        self.right_trigger = value;
    }

    /// The lower left shoulder trigger as a bool using the default threshold.
    ///
    /// * Nintendo: ZL
    /// * Playstation: L2
    /// * XBox: LT
    pub fn left_trigger_bool(&self) -> (r: bool)
        ensures
            r == (self.left_trigger >= MutableXInputState::TRIGGER_THRESHOLD),
    {
        self.left_trigger() >= MutableXInputState::TRIGGER_THRESHOLD
    }

    /// The lower right shoulder trigger as a bool using the default threshold.
    ///
    /// * Nintendo: ZR
    /// * Playstation: R2
    /// * XBox: RT
    pub fn right_trigger_bool(&self) -> (r: bool)
        ensures
            r == (self.right_trigger >= MutableXInputState::TRIGGER_THRESHOLD),
    {
        self.right_trigger() >= MutableXInputState::TRIGGER_THRESHOLD
    }

    /// The left thumb stick being pressed inward.
    ///
    /// * Nintendo: (L)
    /// * Playstation: L3
    /// * XBox: (L)
    pub fn left_thumb_button(&self) -> (r: bool)
        ensures
            r == button_is_down(self.buttons, BUTTON_LEFT_THUMB),
    {
        self.buttons & BUTTON_LEFT_THUMB != 0
    }

    pub fn set_left_thumb_button(&mut self, button_state: ButtonState)
        ensures
            *final(self) == (MutableXInputState {
                buttons: buttons_with(old(self).buttons, BUTTON_LEFT_THUMB, button_state),
                ..*old(self)
            }),
    {
        self.set_button_bit(BUTTON_LEFT_THUMB, button_state);
    }

    /// The right thumb stick being pressed inward.
    ///
    /// * Nintendo: (R)
    /// * Playstation: R3
    /// * XBox: (R)
    pub fn right_thumb_button(&self) -> (r: bool)
        ensures
            r == button_is_down(self.buttons, BUTTON_RIGHT_THUMB),
    {
        self.buttons & BUTTON_RIGHT_THUMB != 0
    }

    pub fn set_right_thumb_button(&mut self, button_state: ButtonState)
        ensures
            *final(self) == (MutableXInputState {
                buttons: buttons_with(old(self).buttons, BUTTON_RIGHT_THUMB, button_state),
                ..*old(self)
            }),
    {
        self.set_button_bit(BUTTON_RIGHT_THUMB, button_state);
    }

    /// The left stick raw value.
    ///
    /// Positive values are to the right (X-axis) or up (Y-axis).
    pub fn left_stick_raw(&self) -> (r: (i16, i16))
        ensures
            r == (self.thumb_lx, self.thumb_ly),
    {
        (self.thumb_lx, self.thumb_ly)
    }

    pub fn set_left_stick_raw(&mut self, values: (i16, i16))
        ensures
            *final(self) == (MutableXInputState {
                thumb_lx: values.0,
                thumb_ly: values.1,
                ..*old(self)
            }),
    {
        self.thumb_lx = values.0;
        self.thumb_ly = values.1;
    }

    /// The right stick raw value.
    ///
    /// Positive values are to the right (X-axis) or up (Y-axis).
    pub fn right_stick_raw(&self) -> (r: (i16, i16))
        ensures
            r == (self.thumb_rx, self.thumb_ry),
    {
        (self.thumb_rx, self.thumb_ry)
    }

    pub fn set_right_stick_raw(&mut self, values: (i16, i16))
        ensures
            *final(self) == (MutableXInputState {
                thumb_rx: values.0,
                thumb_ry: values.1,
                ..*old(self)
            }),
    {
        self.thumb_rx = values.0;
        self.thumb_ry = values.1;
    }
}

} // verus!
