//! The snapshot of one virtual gamepad: a button bitfield, four thumb-stick
//! axis components and two trigger magnitudes.

use vstd::prelude::*;

verus! {

/// Bit of the dpad-up button in the button field.
pub const BTN_UP: u16 = 0x0001;
/// Bit of the dpad-down button.
pub const BTN_DOWN: u16 = 0x0002;
/// Bit of the dpad-left button.
pub const BTN_LEFT: u16 = 0x0004;
/// Bit of the dpad-right button.
pub const BTN_RIGHT: u16 = 0x0008;
/// Bit of the start button.
pub const BTN_START: u16 = 0x0010;
/// Bit of the back button.
pub const BTN_BACK: u16 = 0x0020;
/// Bit of the left thumb-stick click.
pub const BTN_LTHUMB: u16 = 0x0040;
/// Bit of the right thumb-stick click.
pub const BTN_RTHUMB: u16 = 0x0080;
/// Bit of the left shoulder button.
pub const BTN_LB: u16 = 0x0100;
/// Bit of the right shoulder button.
pub const BTN_RB: u16 = 0x0200;
/// Bit of the guide button.
pub const BTN_GUIDE: u16 = 0x0400;
/// Bit of the A button.
pub const BTN_A: u16 = 0x1000;
/// Bit of the B button.
pub const BTN_B: u16 = 0x2000;
/// Bit of the X button.
pub const BTN_X: u16 = 0x4000;
/// Bit of the Y button.
pub const BTN_Y: u16 = 0x8000;

/// The four directional bits that a dpad event replaces as a group.
pub const DPAD_MASK: u16 = 0x000F;

/// One consistent snapshot of the virtual gamepad. The device sink always
/// receives a whole value of this type, never a partial update.
#[derive(Clone, Copy, PartialEq, Eq, Structural, Debug)]
pub struct ControllerState {
    /// Bitfield of the currently pressed buttons.
    pub buttons: u16,
    /// Left stick, horizontal component.
    pub thumb_lx: i16,
    /// Left stick, vertical component.
    pub thumb_ly: i16,
    /// Right stick, horizontal component.
    pub thumb_rx: i16,
    /// Right stick, vertical component.
    pub thumb_ry: i16,
    /// Left trigger magnitude.
    pub left_trigger: u8,
    /// Right trigger magnitude.
    pub right_trigger: u8,
}

impl ControllerState {
    /// The zeroed state a fresh session starts from: nothing pressed,
    /// all axes centred.
    pub open spec fn spec_zero() -> ControllerState {
        ControllerState {
            buttons: 0,
            thumb_lx: 0,
            thumb_ly: 0,
            thumb_rx: 0,
            thumb_ry: 0,
            left_trigger: 0,
            right_trigger: 0,
        }
    }

    /// Builds the zeroed initial state.
    pub fn zero() -> (r: ControllerState)
        ensures
            r == ControllerState::spec_zero(),
    {
        ControllerState {
            buttons: 0,
            thumb_lx: 0,
            thumb_ly: 0,
            thumb_rx: 0,
            thumb_ry: 0,
            left_trigger: 0,
            right_trigger: 0,
        }
    }
}

} // verus!
