use webmote::state::{ControllerState, BTN_A, BTN_RIGHT, BTN_START, BTN_Y};
use webmote::event::{translate, InputEvent, CODE_A, AXIS_LEFT, AXIS_DPAD, AXIS_LEFT_TRIGGER,
    AXIS_RIGHT_TRIGGER, AXIS_RIGHT};

fn zero() -> ControllerState {
    ControllerState::zero()
}

#[test]
fn button_a_press_sets_only_its_bit() {
    let s = zero();
    let r = translate(&s, &InputEvent::Button { name: CODE_A, pressed: true });
    assert_eq!(r.buttons, BTN_A);
    assert_eq!(r.thumb_lx, 0);
    assert_eq!(r.thumb_ly, 0);
    assert_eq!(r.thumb_rx, 0);
    assert_eq!(r.thumb_ry, 0);
    assert_eq!(r.left_trigger, 0);
    assert_eq!(r.right_trigger, 0);
}

#[test]
fn button_release_clears_only_its_bit() {
    let mut s = zero();
    s.buttons = BTN_A | BTN_START;
    let r = translate(&s, &InputEvent::Button { name: CODE_A, pressed: false });
    assert_eq!(r.buttons, BTN_START);
}

#[test]
fn left_stick_full_deflection_scales_to_extremes() {
    let s = zero();
    let e = InputEvent::Axis {
        name: AXIS_LEFT,
        x_bits: 1.0f32.to_bits(),
        y_bits: (-1.0f32).to_bits(),
    };
    let r = translate(&s, &e);
    assert_eq!(r.thumb_lx, 32767);
    assert_eq!(r.thumb_ly, -32767);
    assert_eq!(r.buttons, 0);
}

#[test]
fn right_stick_quarter_deflection_rounds() {
    let s = zero();
    let e = InputEvent::Axis {
        name: AXIS_RIGHT,
        x_bits: 0.25f32.to_bits(),
        y_bits: (-0.25f32).to_bits(),
    };
    let r = translate(&s, &e);
    // 0.25 * 32767 = 8191.75, rounded half away from zero
    assert_eq!(r.thumb_rx, 8192);
    assert_eq!(r.thumb_ry, -8192);
}

#[test]
fn out_of_range_stick_input_clamps() {
    let s = zero();
    let e = InputEvent::Axis {
        name: AXIS_LEFT,
        x_bits: 5.0f32.to_bits(),
        y_bits: (-100.0f32).to_bits(),
    };
    let r = translate(&s, &e);
    assert_eq!(r.thumb_lx, 32767);
    assert_eq!(r.thumb_ly, -32767);
}

#[test]
fn non_number_stick_input_centres() {
    let s = zero();
    let e = InputEvent::Axis {
        name: AXIS_LEFT,
        x_bits: f32::NAN.to_bits(),
        y_bits: f32::INFINITY.to_bits(),
    };
    let r = translate(&s, &e);
    assert_eq!(r.thumb_lx, 0);
    assert_eq!(r.thumb_ly, 32767);
}

#[test]
fn subnormal_stick_input_rounds_to_zero() {
    let s = zero();
    let e = InputEvent::Axis { name: AXIS_LEFT, x_bits: 1.0e-40f32.to_bits(), y_bits: 0 };
    let r = translate(&s, &e);
    assert_eq!(r.thumb_lx, 0);
    assert_eq!(r.thumb_ly, 0);
}

#[test]
fn triggers_scale_and_clamp() {
    let s = zero();
    let r = translate(
        &s,
        &InputEvent::Axis { name: AXIS_LEFT_TRIGGER, x_bits: 1.0f32.to_bits(), y_bits: 0 },
    );
    assert_eq!(r.left_trigger, 255);
    // 0.5 * 255 = 127.5, rounded half away from zero
    let r = translate(
        &r,
        &InputEvent::Axis { name: AXIS_RIGHT_TRIGGER, x_bits: 0.5f32.to_bits(), y_bits: 0 },
    );
    assert_eq!(r.right_trigger, 128);
    // negative trigger input clamps to zero
    let r = translate(
        &r,
        &InputEvent::Axis { name: AXIS_LEFT_TRIGGER, x_bits: (-0.5f32).to_bits(), y_bits: 0 },
    );
    assert_eq!(r.left_trigger, 0);
}

#[test]
fn dpad_thresholds_at_half() {
    let s = zero();
    let at_half = InputEvent::Axis { name: AXIS_DPAD, x_bits: 0.5f32.to_bits(), y_bits: 0 };
    assert_eq!(translate(&s, &at_half).buttons, 0);
    let above = InputEvent::Axis { name: AXIS_DPAD, x_bits: 0.75f32.to_bits(), y_bits: 0 };
    assert_eq!(translate(&s, &above).buttons, BTN_RIGHT);
}

#[test]
fn dpad_replaces_directions_and_keeps_other_buttons() {
    let mut s = zero();
    s.buttons = BTN_Y;
    let right = InputEvent::Axis { name: AXIS_DPAD, x_bits: 1.0f32.to_bits(), y_bits: 0 };
    let s1 = translate(&s, &right);
    assert_eq!(s1.buttons, BTN_Y | BTN_RIGHT);
    let neutral = InputEvent::Axis { name: AXIS_DPAD, x_bits: 0, y_bits: 0 };
    let s2 = translate(&s1, &neutral);
    assert_eq!(s2.buttons, BTN_Y);
}

#[test]
fn unknown_codes_translate_to_no_effect() {
    let mut s = zero();
    s.buttons = BTN_START;
    s.thumb_lx = 77;
    let r = translate(&s, &InputEvent::Button { name: 99, pressed: true });
    assert_eq!(r, s);
    let r = translate(&s, &InputEvent::Axis { name: 11, x_bits: 1.0f32.to_bits(), y_bits: 0 });
    assert_eq!(r, s);
}

#[test]
fn translation_is_deterministic() {
    let s = zero();
    let e = InputEvent::Axis {
        name: AXIS_LEFT,
        x_bits: 0.3f32.to_bits(),
        y_bits: 0.7f32.to_bits(),
    };
    assert_eq!(translate(&s, &e), translate(&s, &e));
}
