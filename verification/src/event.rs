//! Decoded input events and their translation into controller-state updates.
//!
//! `translate` is a pure function from an event to the next controller
//! state: the whole effect of an event is the `spec_apply` snapshot, so an
//! update can never be observed half-done. Events whose name code is not in
//! the fixed tables are translated to no effect at all — never to a failure.

use vstd::prelude::*;
use crate::state::{ControllerState, BTN_UP, BTN_DOWN, BTN_LEFT, BTN_RIGHT, BTN_START, BTN_BACK,
    BTN_LTHUMB, BTN_RTHUMB, BTN_LB, BTN_RB, BTN_GUIDE, BTN_A, BTN_B, BTN_X, BTN_Y, DPAD_MASK};

verus! {

/// Name code of the start button on the wire.
pub const CODE_START: u64 = 0;
/// Name code of the back button.
pub const CODE_BACK: u64 = 1;
/// Name code of the left thumb-stick click.
pub const CODE_LEFT_THUMB: u64 = 2;
/// Name code of the right thumb-stick click.
pub const CODE_RIGHT_THUMB: u64 = 3;
/// Name code of the left shoulder button.
pub const CODE_LEFT_SHOULDER: u64 = 4;
/// Name code of the right shoulder button.
pub const CODE_RIGHT_SHOULDER: u64 = 5;
/// Name code of the guide button.
pub const CODE_GUIDE: u64 = 6;
/// Name code of the A button.
pub const CODE_A: u64 = 7;
/// Name code of the B button.
pub const CODE_B: u64 = 8;
/// Name code of the X button.
pub const CODE_X: u64 = 9;
/// Name code of the Y button.
pub const CODE_Y: u64 = 10;

/// Name code of the left stick axis.
pub const AXIS_LEFT: u64 = 0;
/// Name code of the right stick axis.
pub const AXIS_RIGHT: u64 = 1;
/// Name code of the left trigger axis.
pub const AXIS_LEFT_TRIGGER: u64 = 2;
/// Name code of the right trigger axis.
pub const AXIS_RIGHT_TRIGGER: u64 = 3;
/// Name code of the dpad axis.
pub const AXIS_DPAD: u64 = 4;

/// One decoded input event: either a button edge or an axis sample. Axis
/// components carry the raw bits of the binary32 sample they were sent as.
#[derive(Clone, Copy, PartialEq, Eq, Structural, Debug)]
pub enum InputEvent {
    /// A button was pressed or released.
    Button { name: u64, pressed: bool },
    /// An axis moved; `x_bits` and `y_bits` are raw binary32 bits.
    Axis { name: u64, x_bits: u32, y_bits: u32 },
}

/// The fixed table from button name codes to bits of the button field;
/// codes outside the table map to nothing.
pub open spec fn button_bit(name: u64) -> Option<u16> {
    if name == CODE_START {
        Some(BTN_START)
    } else if name == CODE_BACK {
        Some(BTN_BACK)
    } else if name == CODE_LEFT_THUMB {
        Some(BTN_LTHUMB)
    } else if name == CODE_RIGHT_THUMB {
        Some(BTN_RTHUMB)
    } else if name == CODE_LEFT_SHOULDER {
        Some(BTN_LB)
    } else if name == CODE_RIGHT_SHOULDER {
        Some(BTN_RB)
    } else if name == CODE_GUIDE {
        Some(BTN_GUIDE)
    } else if name == CODE_A {
        Some(BTN_A)
    } else if name == CODE_B {
        Some(BTN_B)
    } else if name == CODE_X {
        Some(BTN_X)
    } else if name == CODE_Y {
        Some(BTN_Y)
    } else {
        None
    }
}

/// The directional bits a dpad sample sets: strictly above one half on an
/// axis presses one direction, strictly below minus one half the other,
/// anything else neither.
pub open spec fn spec_dpad_bits(x_bits: u32, y_bits: u32) -> u16 {
    (if crate::scale::spec_gt_half(x_bits) {
        BTN_RIGHT
    } else if crate::scale::spec_lt_neg_half(x_bits) {
        BTN_LEFT
    } else {
        0
    }) | (if crate::scale::spec_gt_half(y_bits) {
        BTN_DOWN
    } else if crate::scale::spec_lt_neg_half(y_bits) {
        BTN_UP
    } else {
        0
    })
}

/// The whole effect of one event on the controller state. An event with an
/// unknown name code leaves the state untouched.
pub open spec fn spec_apply(s: ControllerState, e: InputEvent) -> ControllerState {
    match e {
        InputEvent::Button { name, pressed } => match button_bit(name) {
            Some(bit) => ControllerState {
                buttons: if pressed {
                    s.buttons | bit
                } else {
                    s.buttons & !bit
                },
                ..s
            },
            None => s,
        },
        InputEvent::Axis { name, x_bits, y_bits } => {
            if name == AXIS_LEFT {
                ControllerState {
                    thumb_lx: crate::scale::spec_thumb(x_bits) as i16,
                    thumb_ly: crate::scale::spec_thumb(y_bits) as i16,
                    ..s
                }
            } else if name == AXIS_RIGHT {
                ControllerState {
                    thumb_rx: crate::scale::spec_thumb(x_bits) as i16,
                    thumb_ry: crate::scale::spec_thumb(y_bits) as i16,
                    ..s
                }
            } else if name == AXIS_LEFT_TRIGGER {
                ControllerState { left_trigger: crate::scale::spec_trigger(x_bits) as u8, ..s }
            } else if name == AXIS_RIGHT_TRIGGER {
                ControllerState { right_trigger: crate::scale::spec_trigger(x_bits) as u8, ..s }
            } else if name == AXIS_DPAD {
                ControllerState {
                    buttons: (s.buttons & !DPAD_MASK) | spec_dpad_bits(x_bits, y_bits),
                    ..s
                }
            } else {
                s
            }
        },
    }
}

/// True when the event's name code is in the fixed tables, so that applying
/// it can have an effect worth pushing to the device.
pub open spec fn event_known(e: InputEvent) -> bool {
    match e {
        InputEvent::Button { name, .. } => button_bit(name) is Some,
        InputEvent::Axis { name, .. } => name <= AXIS_DPAD,
    }
}

/// A dpad sample only ever sets directional bits.
pub proof fn lemma_dpad_bits_bounded(x_bits: u32, y_bits: u32)
    ensures
        spec_dpad_bits(x_bits, y_bits) <= 15,
{
    let h: u16 = if crate::scale::spec_gt_half(x_bits) {
        BTN_RIGHT
    } else if crate::scale::spec_lt_neg_half(x_bits) {
        BTN_LEFT
    } else {
        0
    };
    let v: u16 = if crate::scale::spec_gt_half(y_bits) {
        BTN_DOWN
    } else if crate::scale::spec_lt_neg_half(y_bits) {
        BTN_UP
    } else {
        0
    };
    assert(h <= 8 && v <= 2 ==> (h | v) <= 15) by (bit_vector);
}

/// Dpad replace semantics: of two dpad events in a row, the second fully
/// replaces the directional bits the first set — no stale direction
/// survives — and the non-directional button bits of the starting state
/// come through both events untouched.
pub proof fn lemma_dpad_replaces(s: ControllerState, x1: u32, y1: u32, x2: u32, y2: u32)
    ensures
        ({
            let s1 = spec_apply(s, InputEvent::Axis { name: AXIS_DPAD, x_bits: x1, y_bits: y1 });
            let s2 = spec_apply(s1, InputEvent::Axis { name: AXIS_DPAD, x_bits: x2, y_bits: y2 });
            &&& s2.buttons == (s.buttons & !DPAD_MASK) | spec_dpad_bits(x2, y2)
            &&& (s2.buttons & !DPAD_MASK) == (s.buttons & !DPAD_MASK)
            &&& s2 == (ControllerState {
                buttons: (s.buttons & !DPAD_MASK) | spec_dpad_bits(x2, y2),
                ..s
            })
        }),
{
    lemma_dpad_bits_bounded(x1, y1);
    lemma_dpad_bits_bounded(x2, y2);
    let b = s.buttons;
    let d1 = spec_dpad_bits(x1, y1);
    let d2 = spec_dpad_bits(x2, y2);
    assert(d1 <= 15 && d2 <= 15 ==> (((b & !0xFu16) | d1) & !0xFu16) | d2 == (b & !0xFu16) | d2)
        by (bit_vector);
    assert(d2 <= 15 ==> (((b & !0xFu16) | d2) & !0xFu16) == b & !0xFu16) by (bit_vector);
    assert(DPAD_MASK == 0xFu16);
}

/// Looks a button name code up in the fixed table.
pub fn lookup_button(name: u64) -> (r: Option<u16>)
    ensures
        r == button_bit(name),
{
    if name == CODE_START {
        Some(BTN_START)
    } else if name == CODE_BACK {
        Some(BTN_BACK)
    } else if name == CODE_LEFT_THUMB {
        Some(BTN_LTHUMB)
    } else if name == CODE_RIGHT_THUMB {
        Some(BTN_RTHUMB)
    } else if name == CODE_LEFT_SHOULDER {
        Some(BTN_LB)
    } else if name == CODE_RIGHT_SHOULDER {
        Some(BTN_RB)
    } else if name == CODE_GUIDE {
        Some(BTN_GUIDE)
    } else if name == CODE_A {
        Some(BTN_A)
    } else if name == CODE_B {
        Some(BTN_B)
    } else if name == CODE_X {
        Some(BTN_X)
    } else if name == CODE_Y {
        Some(BTN_Y)
    } else {
        None
    }
}

/// Translates one event into the state it turns `s` into. Pure: the result
/// is exactly `spec_apply(*s, *e)`, so equal inputs always produce equal
/// outputs, and an unknown name code produces `*s` unchanged.
pub fn translate(s: &ControllerState, e: &InputEvent) -> (r: ControllerState)
    ensures
        r == spec_apply(*s, *e),
        !event_known(*e) ==> r == *s,
{
    match *e {
        InputEvent::Button { name, pressed } => match lookup_button(name) {
            Some(bit) => ControllerState {
                buttons: if pressed {
                    s.buttons | bit
                } else {
                    s.buttons & !bit
                },
                ..*s
            },
            None => *s,
        },
        InputEvent::Axis { name, x_bits, y_bits } => {
            if name == AXIS_LEFT {
                ControllerState {
                    thumb_lx: crate::scale::thumb_value(x_bits),
                    thumb_ly: crate::scale::thumb_value(y_bits),
                    ..*s
                }
            } else if name == AXIS_RIGHT {
                ControllerState {
                    thumb_rx: crate::scale::thumb_value(x_bits),
                    thumb_ry: crate::scale::thumb_value(y_bits),
                    ..*s
                }
            } else if name == AXIS_LEFT_TRIGGER {
                ControllerState { left_trigger: crate::scale::trigger_value(x_bits), ..*s }
            } else if name == AXIS_RIGHT_TRIGGER {
                ControllerState { right_trigger: crate::scale::trigger_value(x_bits), ..*s }
            } else if name == AXIS_DPAD {
                let h: u16 = if crate::scale::gt_half(x_bits) {
                    BTN_RIGHT
                } else if crate::scale::lt_neg_half(x_bits) {
                    BTN_LEFT
                } else {
                    0
                };
                let v: u16 = if crate::scale::gt_half(y_bits) {
                    BTN_DOWN
                } else if crate::scale::lt_neg_half(y_bits) {
                    BTN_UP
                } else {
                    0
                };
                ControllerState { buttons: (s.buttons & !DPAD_MASK) | (h | v), ..*s }
            } else {
                *s
            }
        },
    }
}

} // verus!
