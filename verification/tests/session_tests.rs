use webmote::channel::{ChannelHandler, FrameOutcome};
use webmote::event::{InputEvent, CODE_A};
use webmote::joystick::Joystick;
use webmote::public::{Axis, Controller};
use webmote::state::{ControllerState, BTN_A, BTN_B};

fn button_frame(name: u8, pressed: bool) -> Vec<u8> {
    vec![0x0A, 4, 0x08, name, 0x10, if pressed { 1 } else { 0 }]
}

#[test]
fn good_frames_update_and_return_the_snapshot() {
    let mut h = ChannelHandler::new(Joystick::new());
    let r = h.handle_frame(&button_frame(7, true));
    let mut expect = ControllerState::zero();
    expect.buttons = BTN_A;
    assert_eq!(r, FrameOutcome::Applied(expect));
    assert_eq!(h.joystick.get(), expect);
}

#[test]
fn malformed_frame_between_two_valid_ones_is_invisible() {
    let mut h = ChannelHandler::new(Joystick::new());
    assert!(matches!(h.handle_frame(&button_frame(7, true)), FrameOutcome::Applied(_)));
    // malformed: truncated envelope
    assert_eq!(h.handle_frame(&vec![0x0A, 9, 0x08]), FrameOutcome::Dropped);
    assert!(matches!(h.handle_frame(&button_frame(8, true)), FrameOutcome::Applied(_)));
    let mut expect = ControllerState::zero();
    expect.buttons = BTN_A | BTN_B;
    assert_eq!(h.joystick.get(), expect);
    assert!(!h.closed);
}

#[test]
fn empty_and_unknown_payloads_are_dropped() {
    let mut h = ChannelHandler::new(Joystick::new());
    // envelope with no payload field
    assert_eq!(h.handle_frame(&Vec::new()), FrameOutcome::Dropped);
    // event with a name outside the tables
    assert_eq!(h.handle_frame(&button_frame(99, true)), FrameOutcome::Dropped);
    assert_eq!(h.joystick.get(), ControllerState::zero());
}

#[test]
fn close_is_idempotent() {
    let mut h = ChannelHandler::new(Joystick::new());
    assert!(h.close());
    assert!(!h.close());
    assert!(!h.close());
    assert!(h.closed);
}

#[test]
fn updates_apply_in_call_order() {
    let mut j = Joystick::new();
    j.update(&InputEvent::Button { name: CODE_A, pressed: true });
    let snap = j.update(&InputEvent::Button { name: CODE_A, pressed: false });
    assert_eq!(snap.buttons, 0);
    assert_eq!(j.get(), snap);
}

#[test]
fn default_readings_are_centred() {
    let c = Controller::default();
    assert_eq!(c.user_id, 0);
    assert_eq!(c.axis.left_x, 0);
    assert_eq!(Axis::default().left_x, 0);
}
