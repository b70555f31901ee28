//! The binary frame protocol of the data channel.
//!
//! Each frame is one update envelope in a tag-length-value wire encoding:
//! a sequence of fields, each introduced by a varint tag holding a field
//! number and a wire type. The envelope carries exactly one of a button
//! payload (field 1) or an axis payload (field 2), themselves encoded the
//! same way: the button payload has a varint name code (field 1) and a
//! varint pressed flag (field 2); the axis payload has a varint name code
//! (field 1) and two 32-bit little-endian samples (fields 2 and 3).
//! Unknown fields are skipped by wire type; a frame that breaks the
//! encoding, or carries neither payload, decodes to nothing and is dropped
//! by the session without ending it.

use vstd::prelude::*;
use crate::event::InputEvent;

verus! {

/// Decodes a base-128 varint at `i`, reading strictly before `end`:
/// the value together with the position after it, or nothing when the
/// bytes run out before a byte without its continuation bit.
pub open spec fn vint_at(b: Seq<u8>, i: int, end: int) -> Option<(nat, int)>
    decreases end - i,
{
    if i < 0 || i >= end || end > b.len() {
        None
    } else if b[i] < 128 {
        Some((b[i] as nat, i + 1))
    } else {
        match vint_at(b, i + 1, end) {
            None => None,
            Some((v, j)) => Some((((b[i] - 128) + v * 128) as nat, j)),
        }
    }
}

/// A varint the decoder accepts: at most ten bytes, value below `2^64`.
pub open spec fn good_vint(b: Seq<u8>, i: int, end: int) -> Option<(nat, int)> {
    match vint_at(b, i, end) {
        Some((v, j)) => if v < 0x1_0000_0000_0000_0000 && j - i <= 10 {
            Some((v, j))
        } else {
            None
        },
        None => None,
    }
}

/// A decoded varint ends after where it starts and within the bytes read.
pub proof fn lemma_vint_bounds(b: Seq<u8>, i: int, end: int)
    ensures
        vint_at(b, i, end) matches Some(r) ==> i < r.1 <= end && end <= b.len(),
    decreases end - i,
{
    if 0 <= i && i < end && end <= b.len() && b[i] >= 128 {
        lemma_vint_bounds(b, i + 1, end);
    }
}

/// Position after skipping one field's value of wire type `wt` at `i`, or
/// nothing when the value is cut short or the wire type is not one the
/// protocol carries.
pub open spec fn skip_at(b: Seq<u8>, i: int, end: int, wt: nat) -> Option<int> {
    if wt == 0 {
        match good_vint(b, i, end) {
            Some(r) => Some(r.1),
            None => None,
        }
    } else if wt == 1 {
        if i + 8 <= end {
            Some(i + 8)
        } else {
            None
        }
    } else if wt == 2 {
        match good_vint(b, i, end) {
            Some((l, j)) => if l <= end - j {
                Some(j + l)
            } else {
                None
            },
            None => None,
        }
    } else if wt == 5 {
        if i + 4 <= end {
            Some(i + 4)
        } else {
            None
        }
    } else {
        None
    }
}

/// A skipped field also ends after where it starts and within bounds.
pub proof fn lemma_skip_bounds(b: Seq<u8>, i: int, end: int, wt: nat)
    requires
        0 <= i <= end <= b.len(),
    ensures
        skip_at(b, i, end, wt) matches Some(k) ==> i < k <= end,
{
    lemma_vint_bounds(b, i, end);
}

/// The 32-bit little-endian sample starting at `i`.
pub open spec fn le32_at(b: Seq<u8>, i: int) -> nat {
    (b[i] as nat) + 0x100 * (b[i + 1] as nat) + 0x1_0000 * (b[i + 2] as nat) + 0x100_0000 * (
    b[i + 3] as nat)
}

/// Folds the fields of a button payload over `[i, end)`, carrying the name
/// code and pressed flag seen so far; later occurrences of a field replace
/// earlier ones. Nothing means the payload is malformed.
pub open spec fn btn_fields(b: Seq<u8>, i: int, end: int, name: nat, pressed: bool) -> Option<
    (nat, bool),
>
    decreases end - i,
    via btn_fields_dec
{
    if !(0 <= i <= end <= b.len()) {
        None
    } else if i == end {
        Some((name, pressed))
    } else {
        match good_vint(b, i, end) {
            None => None,
            Some((t, j)) => {
                let field = t / 8;
                let wt = t % 8;
                if field == 1 {
                    if wt == 0 {
                        match good_vint(b, j, end) {
                            None => None,
                            Some((v, k)) => btn_fields(b, k, end, v, pressed),
                        }
                    } else {
                        None
                    }
                } else if field == 2 {
                    if wt == 0 {
                        match good_vint(b, j, end) {
                            None => None,
                            Some((v, k)) => btn_fields(b, k, end, name, v != 0),
                        }
                    } else {
                        None
                    }
                } else if field == 0 {
                    None
                } else {
                    match skip_at(b, j, end, wt) {
                        None => None,
                        Some(k) => btn_fields(b, k, end, name, pressed),
                    }
                }
            },
        }
    }
}

#[via_fn]
proof fn btn_fields_dec(b: Seq<u8>, i: int, end: int, name: nat, pressed: bool) {
    lemma_vint_bounds(b, i, end);
    if 0 <= i && i <= end && end <= b.len() && i != end {
        match good_vint(b, i, end) {
            None => {},
            Some((t, j)) => {
                lemma_vint_bounds(b, j, end);
                lemma_skip_bounds(b, j, end, t % 8);
            },
        }
    }
}

/// Folds the fields of an axis payload over `[i, end)`: the name code and
/// the raw bits of the two samples seen so far.
pub open spec fn axis_fields(b: Seq<u8>, i: int, end: int, name: nat, x: nat, y: nat) -> Option<
    (nat, nat, nat),
>
    decreases end - i,
    via axis_fields_dec
{
    if !(0 <= i <= end <= b.len()) {
        None
    } else if i == end {
        Some((name, x, y))
    } else {
        match good_vint(b, i, end) {
            None => None,
            Some((t, j)) => {
                let field = t / 8;
                let wt = t % 8;
                if field == 1 {
                    if wt == 0 {
                        match good_vint(b, j, end) {
                            None => None,
                            Some((v, k)) => axis_fields(b, k, end, v, x, y),
                        }
                    } else {
                        None
                    }
                } else if field == 2 {
                    if wt == 5 {
                        if j + 4 <= end {
                            axis_fields(b, j + 4, end, name, le32_at(b, j), y)
                        } else {
                            None
                        }
                    } else {
                        None
                    }
                } else if field == 3 {
                    if wt == 5 {
                        if j + 4 <= end {
                            axis_fields(b, j + 4, end, name, x, le32_at(b, j))
                        } else {
                            None
                        }
                    } else {
                        None
                    }
                } else if field == 0 {
                    None
                } else {
                    match skip_at(b, j, end, wt) {
                        None => None,
                        Some(k) => axis_fields(b, k, end, name, x, y),
                    }
                }
            },
        }
    }
}

#[via_fn]
proof fn axis_fields_dec(b: Seq<u8>, i: int, end: int, name: nat, x: nat, y: nat) {
    lemma_vint_bounds(b, i, end);
    if 0 <= i && i <= end && end <= b.len() && i != end {
        match good_vint(b, i, end) {
            None => {},
            Some((t, j)) => {
                lemma_vint_bounds(b, j, end);
                lemma_skip_bounds(b, j, end, t % 8);
            },
        }
    }
}

/// Folds the fields of the update envelope over `[i, end)`, carrying the
/// payload seen so far; of two payload fields the later replaces the
/// earlier. Nothing means the frame is malformed; `Some(None)` an envelope
/// that carries no payload.
pub open spec fn upd_fields(b: Seq<u8>, i: int, end: int, acc: Option<InputEvent>) -> Option<
    Option<InputEvent>,
>
    decreases end - i,
    via upd_fields_dec
{
    if !(0 <= i <= end <= b.len()) {
        None
    } else if i == end {
        Some(acc)
    } else {
        match good_vint(b, i, end) {
            None => None,
            Some((t, j)) => {
                let field = t / 8;
                let wt = t % 8;
                if field == 1 {
                    if wt == 2 {
                        match good_vint(b, j, end) {
                            None => None,
                            Some((l, k)) => if l <= end - k {
                                match btn_fields(b, k, k + l, 0, false) {
                                    None => None,
                                    Some((nm, pr)) => upd_fields(
                                        b,
                                        k + l,
                                        end,
                                        Some(InputEvent::Button { name: nm as u64, pressed: pr }),
                                    ),
                                }
                            } else {
                                None
                            },
                        }
                    } else {
                        None
                    }
                } else if field == 2 {
                    if wt == 2 {
                        match good_vint(b, j, end) {
                            None => None,
                            Some((l, k)) => if l <= end - k {
                                match axis_fields(b, k, k + l, 0, 0, 0) {
                                    None => None,
                                    Some((nm, x, y)) => upd_fields(
                                        b,
                                        k + l,
                                        end,
                                        Some(
                                            InputEvent::Axis {
                                                name: nm as u64,
                                                x_bits: x as u32,
                                                y_bits: y as u32,
                                            },
                                        ),
                                    ),
                                }
                            } else {
                                None
                            },
                        }
                    } else {
                        None
                    }
                } else if field == 0 {
                    None
                } else {
                    match skip_at(b, j, end, wt) {
                        None => None,
                        Some(k) => upd_fields(b, k, end, acc),
                    }
                }
            },
        }
    }
}

#[via_fn]
proof fn upd_fields_dec(b: Seq<u8>, i: int, end: int, acc: Option<InputEvent>) {
    lemma_vint_bounds(b, i, end);
    if 0 <= i && i <= end && end <= b.len() && i != end {
        match good_vint(b, i, end) {
            None => {},
            Some((t, j)) => {
                lemma_vint_bounds(b, j, end);
                lemma_skip_bounds(b, j, end, t % 8);
            },
        }
    }
}

/// What one frame decodes to: an event, or nothing for a frame that is
/// malformed or carries no payload.
pub open spec fn spec_decode_frame(b: Seq<u8>) -> Option<InputEvent> {
    match upd_fields(b, 0, b.len() as int, None) {
        None => None,
        Some(acc) => acc,
    }
}

/// Reads one accepted varint at `i`.
fn read_vint(b: &Vec<u8>, i: usize, end: usize) -> (r: Option<(u64, usize)>)
    requires
        i <= end <= b@.len(),
    ensures
        r matches Some(p) ==> good_vint(b@, i as int, end as int) == Some(
            (p.0 as nat, p.1 as int),
        ) && i < p.1 <= end,
        r is None ==> good_vint(b@, i as int, end as int) is None,
    decreases end - i,
{
    if i >= end {
        return None;
    }
    let x: u8 = b[i];
    if x < 128 {
        Some((x as u64, i + 1))
    } else {
        match read_vint(b, i + 1, end) {
            None => {
                proof {
                    lemma_vint_bounds(b@, i + 1, end as int);
                }
                None
            },
            Some((v, j)) => {
                proof {
                    lemma_vint_bounds(b@, i + 1, end as int);
                }
                let lo: u64 = (x - 128) as u64;
                if j - i > 10 {
                    None
                } else if v > (0xFFFF_FFFF_FFFF_FFFFu64 - lo) / 128 {
                    None
                } else {
                    Some((lo + v * 128, j))
                }
            },
        }
    }
}

/// Advances over one field's value of wire type `wt` at `i`.
fn skip_field(b: &Vec<u8>, i: usize, end: usize, wt: u64) -> (r: Option<usize>)
    requires
        i <= end <= b@.len(),
    ensures
        r matches Some(k) ==> skip_at(b@, i as int, end as int, wt as nat) == Some(k as int) && i
            < k <= end,
        r is None ==> skip_at(b@, i as int, end as int, wt as nat) is None,
{
    if wt == 0 {
        match read_vint(b, i, end) {
            Some((_, j)) => Some(j),
            None => None,
        }
    } else if wt == 1 {
        if end - i >= 8 {
            Some(i + 8)
        } else {
            None
        }
    } else if wt == 2 {
        match read_vint(b, i, end) {
            Some((l, j)) => {
                if l <= (end - j) as u64 {
                    Some(j + l as usize)
                } else {
                    None
                }
            },
            None => None,
        }
    } else if wt == 5 {
        if end - i >= 4 {
            Some(i + 4)
        } else {
            None
        }
    } else {
        None
    }
}

/// Reads the 32-bit little-endian sample at `i`.
fn read_le32(b: &Vec<u8>, i: usize) -> (r: u32)
    requires
        i + 4 <= b@.len(),
    ensures
        r as nat == le32_at(b@, i as int),
{
    let n: usize = b.len();
    assert(i + 4 <= n);
    (b[i] as u32) + 0x100 * (b[i + 1] as u32) + 0x1_0000 * (b[i + 2] as u32) + 0x100_0000 * (b[i
        + 3] as u32)
}

/// Decodes the fields of a button payload over `[i, end)`.
fn parse_btn(b: &Vec<u8>, i: usize, end: usize, name: u64, pressed: bool) -> (r: Option<
    (u64, bool),
>)
    requires
        i <= end <= b@.len(),
    ensures
        r matches Some(p) ==> btn_fields(b@, i as int, end as int, name as nat, pressed) == Some(
            (p.0 as nat, p.1),
        ),
        r is None ==> btn_fields(b@, i as int, end as int, name as nat, pressed) is None,
    decreases end - i,
{
    if i == end {
        return Some((name, pressed));
    }
    match read_vint(b, i, end) {
        None => None,
        Some((t, j)) => {
            let field = t / 8;
            let wt = t % 8;
            if field == 1 {
                if wt == 0 {
                    match read_vint(b, j, end) {
                        None => None,
                        Some((v, k)) => parse_btn(b, k, end, v, pressed),
                    }
                } else {
                    None
                }
            } else if field == 2 {
                if wt == 0 {
                    match read_vint(b, j, end) {
                        None => None,
                        Some((v, k)) => parse_btn(b, k, end, name, v != 0),
                    }
                } else {
                    None
                }
            } else if field == 0 {
                None
            } else {
                match skip_field(b, j, end, wt) {
                    None => None,
                    Some(k) => parse_btn(b, k, end, name, pressed),
                }
            }
        },
    }
}

/// Decodes the fields of an axis payload over `[i, end)`.
fn parse_axis(b: &Vec<u8>, i: usize, end: usize, name: u64, x: u32, y: u32) -> (r: Option<
    (u64, u32, u32),
>)
    requires
        i <= end <= b@.len(),
    ensures
        r matches Some(p) ==> axis_fields(b@, i as int, end as int, name as nat, x as nat, y as nat)
            == Some((p.0 as nat, p.1 as nat, p.2 as nat)),
        r is None ==> axis_fields(b@, i as int, end as int, name as nat, x as nat, y as nat)
            is None,
    decreases end - i,
{
    if i == end {
        return Some((name, x, y));
    }
    match read_vint(b, i, end) {
        None => None,
        Some((t, j)) => {
            let field = t / 8;
            let wt = t % 8;
            if field == 1 {
                if wt == 0 {
                    match read_vint(b, j, end) {
                        None => None,
                        Some((v, k)) => parse_axis(b, k, end, v, x, y),
                    }
                } else {
                    None
                }
            } else if field == 2 {
                if wt == 5 {
                    if end - j >= 4 {
                        let s = read_le32(b, j);
                        parse_axis(b, j + 4, end, name, s, y)
                    } else {
                        None
                    }
                } else {
                    None
                }
            } else if field == 3 {
                if wt == 5 {
                    if end - j >= 4 {
                        let s = read_le32(b, j);
                        parse_axis(b, j + 4, end, name, x, s)
                    } else {
                        None
                    }
                } else {
                    None
                }
            } else if field == 0 {
                None
            } else {
                match skip_field(b, j, end, wt) {
                    None => None,
                    Some(k) => parse_axis(b, k, end, name, x, y),
                }
            }
        },
    }
}

/// Decodes the fields of the update envelope over `[i, end)`.
fn parse_update(b: &Vec<u8>, i: usize, end: usize, acc: Option<InputEvent>) -> (r: Option<
    Option<InputEvent>,
>)
    requires
        i <= end <= b@.len(),
    ensures
        r matches Some(acc2) ==> upd_fields(b@, i as int, end as int, acc) == Some(acc2),
        r is None ==> upd_fields(b@, i as int, end as int, acc) is None,
    decreases end - i,
{
    if i == end {
        return Some(acc);
    }
    match read_vint(b, i, end) {
        None => None,
        Some((t, j)) => {
            let field = t / 8;
            let wt = t % 8;
            if field == 1 {
                if wt == 2 {
                    match read_vint(b, j, end) {
                        None => None,
                        Some((l, k)) => {
                            if l <= (end - k) as u64 {
                                let stop = k + l as usize;
                                match parse_btn(b, k, stop, 0, false) {
                                    None => None,
                                    Some((nm, pr)) => parse_update(
                                        b,
                                        stop,
                                        end,
                                        Some(InputEvent::Button { name: nm, pressed: pr }),
                                    ),
                                }
                            } else {
                                None
                            }
                        },
                    }
                } else {
                    None
                }
            } else if field == 2 {
                if wt == 2 {
                    match read_vint(b, j, end) {
                        None => None,
                        Some((l, k)) => {
                            if l <= (end - k) as u64 {
                                let stop = k + l as usize;
                                match parse_axis(b, k, stop, 0, 0, 0) {
                                    None => None,
                                    Some((nm, x, y)) => parse_update(
                                        b,
                                        stop,
                                        end,
                                        Some(InputEvent::Axis { name: nm, x_bits: x, y_bits: y }),
                                    ),
                                }
                            } else {
                                None
                            }
                        },
                    }
                } else {
                    None
                }
            } else if field == 0 {
                None
            } else {
                match skip_field(b, j, end, wt) {
                    None => None,
                    Some(k) => parse_update(b, k, end, acc),
                }
            }
        },
    }
}

/// Decodes one frame into the event it carries: exactly `spec_decode_frame`
/// of the bytes, with nothing returned for a malformed or empty envelope.
pub fn decode_frame(b: &Vec<u8>) -> (r: Option<InputEvent>)
    ensures
        r == spec_decode_frame(b@),
{
    match parse_update(b, 0, b.len(), None) {
        None => None,
        Some(acc) => acc,
    }
}

/// The round trip of a canonical button frame: decoding it yields the
/// event it was built from.
proof fn lemma_button_round_trip(b: Seq<u8>, name: u64, pressed: bool)
    requires
        name < 128,
        b =~= seq![
            0x0Au8,
            4u8,
            0x08u8,
            name as u8,
            0x10u8,
            (if pressed {
                1u8
            } else {
                0u8
            }),
        ],
    ensures
        spec_decode_frame(b) == Some(InputEvent::Button { name, pressed }),
{
    assert(vint_at(b, 0, 6) == Some((10 as nat, 1 as int)));
    assert(vint_at(b, 1, 6) == Some((4 as nat, 2 as int)));
    assert(vint_at(b, 2, 6) == Some((8 as nat, 3 as int)));
    assert(vint_at(b, 3, 6) == Some((name as nat, 4 as int)));
    assert(vint_at(b, 4, 6) == Some((16 as nat, 5 as int)));
    assert(vint_at(b, 5, 6) == Some(
        (
            (if pressed {
                1nat
            } else {
                0nat
            }),
            6 as int,
        ),
    ));
    assert(btn_fields(b, 6, 6, name as nat, pressed) == Some((name as nat, pressed)));
    assert(btn_fields(b, 4, 6, name as nat, false) == Some((name as nat, pressed)));
    assert(btn_fields(b, 2, 6, 0, false) == Some((name as nat, pressed)));
    let ev = InputEvent::Button { name, pressed };
    assert(upd_fields(b, 6, 6, Some(ev)) == Some(Some(ev)));
    assert(upd_fields(b, 0, 6, None) == Some(Some(ev)));
}

/// A 32-bit sample equals its four little-endian digits put back together.
proof fn lemma_le32_digits(x: u32)
    ensures
        (x % 0x100) as nat + 0x100 * (((x / 0x100) % 0x100) as nat) + 0x1_0000 * (((x / 0x1_0000)
            % 0x100) as nat) + 0x100_0000 * (((x / 0x100_0000) % 0x100) as nat) == x as nat,
{
}

/// The round trip of a canonical axis frame.
#[verifier::rlimit(80)]
proof fn lemma_axis_round_trip(b: Seq<u8>, name: u64, x: u32, y: u32)
    requires
        name < 128,
        b =~= seq![
            0x12u8,
            12u8,
            0x08u8,
            name as u8,
            0x15u8,
            (x % 0x100) as u8,
            ((x / 0x100) % 0x100) as u8,
            ((x / 0x1_0000) % 0x100) as u8,
            ((x / 0x100_0000) % 0x100) as u8,
            0x1Du8,
            (y % 0x100) as u8,
            ((y / 0x100) % 0x100) as u8,
            ((y / 0x1_0000) % 0x100) as u8,
            ((y / 0x100_0000) % 0x100) as u8,
        ],
    ensures
        spec_decode_frame(b) == Some(InputEvent::Axis { name, x_bits: x, y_bits: y }),
{
    assert(vint_at(b, 0, 14) == Some((18 as nat, 1 as int)));
    assert(vint_at(b, 1, 14) == Some((12 as nat, 2 as int)));
    assert(vint_at(b, 2, 14) == Some((8 as nat, 3 as int)));
    assert(vint_at(b, 3, 14) == Some((name as nat, 4 as int)));
    assert(vint_at(b, 4, 14) == Some((21 as nat, 5 as int)));
    assert(vint_at(b, 9, 14) == Some((29 as nat, 10 as int)));
    lemma_le32_digits(x);
    lemma_le32_digits(y);
    assert(le32_at(b, 5) == x as nat);
    assert(le32_at(b, 10) == y as nat);
    assert(axis_fields(b, 14, 14, name as nat, x as nat, y as nat) == Some(
        (name as nat, x as nat, y as nat),
    ));
    assert(axis_fields(b, 9, 14, name as nat, x as nat, 0) == Some(
        (name as nat, x as nat, y as nat),
    ));
    assert(axis_fields(b, 4, 14, name as nat, 0, 0) == Some((name as nat, x as nat, y as nat)));
    assert(axis_fields(b, 2, 14, 0, 0, 0) == Some((name as nat, x as nat, y as nat)));
    let ev = InputEvent::Axis { name, x_bits: x, y_bits: y };
    assert(upd_fields(b, 14, 14, Some(ev)) == Some(Some(ev)));
    assert(upd_fields(b, 0, 14, None) == Some(Some(ev)));
}

/// Encodes one event as a canonical frame. Every name code in the fixed
/// tables fits one varint byte, which is all this encoder emits. The
/// contract is the round trip: the encoded frame decodes back to the
/// event, so the encoder and decoder agree on the wire format.
pub fn encode_frame(e: &InputEvent) -> (r: Vec<u8>)
    requires
        (match *e {
            InputEvent::Button { name, .. } => name < 128,
            InputEvent::Axis { name, .. } => name < 128,
        }),
    ensures
        spec_decode_frame(r@) == Some(*e),
{
    match *e {
        InputEvent::Button { name, pressed } => {
            let mut v: Vec<u8> = Vec::new();
            v.push(0x0A);
            v.push(4);
            v.push(0x08);
            v.push(name as u8);
            v.push(0x10);
            v.push(if pressed {
                1
            } else {
                0
            });
            proof {
                lemma_button_round_trip(v@, name, pressed);
            }
            v
        },
        InputEvent::Axis { name, x_bits, y_bits } => {
            let mut v: Vec<u8> = Vec::new();
            v.push(0x12);
            v.push(12);
            v.push(0x08);
            v.push(name as u8);
            v.push(0x15);
            v.push((x_bits % 0x100) as u8);
            v.push(((x_bits / 0x100) % 0x100) as u8);
            v.push(((x_bits / 0x1_0000) % 0x100) as u8);
            v.push(((x_bits / 0x100_0000) % 0x100) as u8);
            v.push(0x1D);
            v.push((y_bits % 0x100) as u8);
            v.push(((y_bits / 0x100) % 0x100) as u8);
            v.push(((y_bits / 0x1_0000) % 0x100) as u8);
            v.push(((y_bits / 0x100_0000) % 0x100) as u8);
            proof {
                lemma_axis_round_trip(v@, name, x_bits, y_bits);
            }
            v
        },
    }
}

} // verus!
