use webmote::codec::{decode_frame, encode_frame};
use webmote::event::InputEvent;

fn button_frame(name_field: &[u8], pressed_field: &[u8]) -> Vec<u8> {
    let mut sub = Vec::new();
    sub.extend_from_slice(name_field);
    sub.extend_from_slice(pressed_field);
    let mut f = vec![0x0A, sub.len() as u8];
    f.extend_from_slice(&sub);
    f
}

fn axis_frame(name: u8, x: f32, y: f32) -> Vec<u8> {
    let mut sub = vec![0x08, name, 0x15];
    sub.extend_from_slice(&x.to_bits().to_le_bytes());
    sub.push(0x1D);
    sub.extend_from_slice(&y.to_bits().to_le_bytes());
    let mut f = vec![0x12, sub.len() as u8];
    f.extend_from_slice(&sub);
    f
}

#[test]
fn decodes_a_button_frame() {
    let f = button_frame(&[0x08, 7], &[0x10, 1]);
    assert_eq!(decode_frame(&f), Some(InputEvent::Button { name: 7, pressed: true }));
}

#[test]
fn decodes_an_axis_frame() {
    let f = axis_frame(0, 1.0, -1.0);
    assert_eq!(
        decode_frame(&f),
        Some(InputEvent::Axis {
            name: 0,
            x_bits: 1.0f32.to_bits(),
            y_bits: (-1.0f32).to_bits(),
        })
    );
}

#[test]
fn button_fields_default_when_absent() {
    let f = button_frame(&[], &[]);
    assert_eq!(decode_frame(&f), Some(InputEvent::Button { name: 0, pressed: false }));
}

#[test]
fn later_field_occurrence_wins() {
    let f = button_frame(&[0x08, 3, 0x08, 9], &[0x10, 1, 0x10, 0]);
    assert_eq!(decode_frame(&f), Some(InputEvent::Button { name: 9, pressed: false }));
}

#[test]
fn nonzero_varint_means_pressed() {
    let f = button_frame(&[0x08, 2], &[0x10, 5]);
    assert_eq!(decode_frame(&f), Some(InputEvent::Button { name: 2, pressed: true }));
}

#[test]
fn unknown_fields_are_skipped() {
    // field 9, varint, then field 8, length-delimited, around a button payload
    let mut f = vec![0x48, 0x7F, 0x42, 0x02, 0xAA, 0xBB];
    f.extend_from_slice(&button_frame(&[0x08, 1], &[0x10, 1]));
    assert_eq!(decode_frame(&f), Some(InputEvent::Button { name: 1, pressed: true }));
}

#[test]
fn empty_envelope_is_dropped() {
    assert_eq!(decode_frame(&Vec::new()), None);
}

#[test]
fn truncated_frames_are_dropped() {
    assert_eq!(decode_frame(&vec![0x0A]), None);
    assert_eq!(decode_frame(&vec![0x0A, 4, 0x08]), None);
    assert_eq!(decode_frame(&vec![0xFF]), None);
    let mut f = axis_frame(0, 1.0, 1.0);
    f.truncate(f.len() - 1);
    assert_eq!(decode_frame(&f), None);
}

#[test]
fn wrong_wire_type_on_known_field_is_malformed() {
    // payload field 1 of the envelope with wire type 0
    assert_eq!(decode_frame(&vec![0x08, 1]), None);
    // name field of a button payload with wire type 5
    assert_eq!(decode_frame(&vec![0x0A, 5, 0x0D, 1, 2, 3, 4]), None);
}

#[test]
fn ten_byte_varints_decode_and_eleven_byte_ones_do_not() {
    let ten = [0x08, 0xFF, 0xFF, 0xFF, 0xFF, 0xFF, 0xFF, 0xFF, 0xFF, 0xFF, 0x01];
    let f = button_frame(&ten, &[]);
    assert_eq!(decode_frame(&f), Some(InputEvent::Button { name: u64::MAX, pressed: false }));
    let eleven = [0x08, 0xFF, 0xFF, 0xFF, 0xFF, 0xFF, 0xFF, 0xFF, 0xFF, 0xFF, 0xFF, 0x01];
    let f = button_frame(&eleven, &[]);
    assert_eq!(decode_frame(&f), None);
}

#[test]
fn encoded_frames_decode_back_to_their_events() {
    let events = [
        InputEvent::Button { name: 0, pressed: false },
        InputEvent::Button { name: 10, pressed: true },
        InputEvent::Axis { name: 4, x_bits: 1.0f32.to_bits(), y_bits: (-0.5f32).to_bits() },
        InputEvent::Axis { name: 127, x_bits: u32::MAX, y_bits: 0 },
    ];
    for e in events {
        assert_eq!(decode_frame(&encode_frame(&e)), Some(e));
    }
}

#[test]
fn of_two_payloads_the_later_wins() {
    let mut f = button_frame(&[0x08, 1], &[0x10, 1]);
    f.extend_from_slice(&axis_frame(4, 0.0, 0.0));
    assert_eq!(
        decode_frame(&f),
        Some(InputEvent::Axis { name: 4, x_bits: 0, y_bits: 0 })
    );
}
