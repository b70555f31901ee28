//! The data channel session: decodes incoming frames, drives the store,
//! and owns the channel's close lifecycle.
//!
//! The session runs until its channel's close signal fires. A bad frame is
//! dropped and the session goes on; only the close signal ends it. The
//! closing flag is monotonic: of any number of `close` calls, exactly the
//! first asks the underlying channel to close.

use vstd::prelude::*;
use crate::state::ControllerState;
use crate::event::{InputEvent, spec_apply, event_known, button_bit, AXIS_DPAD};
use crate::codec::spec_decode_frame;
use crate::joystick::Joystick;

verus! {

/// What handling one frame did: a snapshot the device sink must now be
/// pushed, or nothing, for a frame that was dropped.
#[derive(Clone, Copy, PartialEq, Eq, Structural, Debug)]
pub enum FrameOutcome {
    /// The frame decoded to a known event; the state was updated and this
    /// whole snapshot is to be pushed to the device.
    Applied(ControllerState),
    /// The frame was malformed, empty, or named nothing in the tables; the
    /// state is untouched and nothing is pushed.
    Dropped,
}

/// The state a frame takes `s` to: unchanged unless the frame decodes to an
/// event with a known name.
pub open spec fn spec_frame_state(s: ControllerState, frame: Seq<u8>) -> ControllerState {
    match spec_decode_frame(frame) {
        Some(e) => if event_known(e) {
            spec_apply(s, e)
        } else {
            s
        },
        None => s,
    }
}

/// One data channel session: the store it drives and the monotonic closing
/// flag that guards the underlying channel's close request.
pub struct ChannelHandler {
    /// Set once by the first `close`; never cleared.
    pub closed: bool,
    /// The store of the session's gamepad.
    pub joystick: Joystick,
}

impl ChannelHandler {
    /// A running session over a connected store.
    pub fn new(joystick: Joystick) -> (r: ChannelHandler)
        ensures
            !r.closed,
            r.joystick == joystick,
    {
        ChannelHandler { closed: false, joystick }
    }

    /// Decides whether an event's name code is in the fixed tables.
    pub fn known_event(e: &InputEvent) -> (r: bool)
        ensures
            r == event_known(*e),
    {
        match *e {
            InputEvent::Button { name, .. } => crate::event::lookup_button(name).is_some(),
            InputEvent::Axis { name, .. } => name <= AXIS_DPAD,
        }
    }

    /// Handles one received frame: decode, translate, apply. A frame that
    /// does not decode to a known event is dropped and changes nothing —
    /// it never ends the session. Otherwise the store is updated and the
    /// new snapshot is returned for the caller to push to the device sink;
    /// a failed push is logged by the caller and is not fatal either.
    pub fn handle_frame(&mut self, data: &Vec<u8>) -> (r: FrameOutcome)
        ensures
            final(self).closed == old(self).closed,
            final(self).joystick.gamepad == spec_frame_state(old(self).joystick.gamepad, data@),
            (match spec_decode_frame(data@) {
                Some(e) => if event_known(e) {
                    r == FrameOutcome::Applied(spec_apply(old(self).joystick.gamepad, e))
                } else {
                    r == FrameOutcome::Dropped
                },
                None => r == FrameOutcome::Dropped,
            }),
    {
        match crate::codec::decode_frame(data) {
            None => FrameOutcome::Dropped,
            Some(e) => {
                if ChannelHandler::known_event(&e) {
                    let snapshot = self.joystick.update(&e);
                    FrameOutcome::Applied(snapshot)
                } else {
                    FrameOutcome::Dropped
                }
            },
        }
    }

    /// Requests the session's teardown. Only the first call has effect:
    /// it returns true, and the caller then asks the underlying channel,
    /// asynchronously and best-effort, to close. Every later call returns
    /// false and must not touch the channel.
    pub fn close(&mut self) -> (r: bool)
        ensures
            final(self).closed,
            r == !old(self).closed,
            final(self).joystick == old(self).joystick,
    {
        if self.closed {
            false
        } else {
            self.closed = true;
            true
        }
    }
}

/// How many of `k` consecutive `close` calls report that they issued the
/// underlying close request, starting from a session whose flag is
/// `closed0`.
pub open spec fn closes_issued(closed0: bool, k: nat) -> nat
    decreases k,
{
    if k == 0 {
        0
    } else {
        (if closed0 {
            0nat
        } else {
            1nat
        }) + closes_issued(true, (k - 1) as nat)
    }
}

/// Idempotent close: on a session not yet closing, any run of one or more
/// `close` calls issues exactly one underlying close request; on a session
/// already closing, none at all.
pub proof fn lemma_close_idempotent(closed0: bool, k: nat)
    requires
        k >= 1,
    ensures
        !closed0 ==> closes_issued(closed0, k) == 1,
        closed0 ==> closes_issued(closed0, k) == 0,
    decreases k,
{
    if k > 1 {
        lemma_close_idempotent(true, (k - 1) as nat);
    } else {
        assert(closes_issued(true, 0) == 0);
    }
}

/// A malformed frame between two good ones is invisible to the state: the
/// two good frames are applied exactly as if the bad one had never come,
/// and the session never ends on its account.
pub proof fn lemma_bad_frame_dropped(
    s: ControllerState,
    f1: Seq<u8>,
    bad: Seq<u8>,
    f2: Seq<u8>,
    e1: InputEvent,
    e2: InputEvent,
)
    requires
        spec_decode_frame(f1) == Some(e1),
        event_known(e1),
        spec_decode_frame(bad) is None,
        spec_decode_frame(f2) == Some(e2),
        event_known(e2),
    ensures
        spec_frame_state(spec_frame_state(spec_frame_state(s, f1), bad), f2) == spec_apply(
            spec_apply(s, e1),
            e2,
        ),
{
}

} // verus!
