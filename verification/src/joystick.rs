//! The controller state store: the canonical snapshot of one virtual
//! gamepad, mutated only through `update`, one whole event at a time.
//!
//! Exclusivity is carried by the exclusive borrow: while an `update` runs no
//! other reader or writer can touch the store, so every mutation is applied
//! against a settled snapshot and the device sink only ever sees whole
//! snapshots. A caller that shares the store between tasks wraps it in a
//! lock and holds the lock across one call.

use vstd::prelude::*;
use crate::state::ControllerState;
use crate::event::{InputEvent, spec_apply};

verus! {

/// The in-memory side of the store. The device sink itself is driven by the
/// caller: `update` hands back the snapshot to push.
pub struct Joystick {
    /// The canonical gamepad snapshot.
    pub gamepad: ControllerState,
}

impl Joystick {
    /// A fresh store: zeroed state, nothing pressed.
    pub fn new() -> (r: Joystick)
        ensures
            r.gamepad == ControllerState::spec_zero(),
    {
        Joystick { gamepad: ControllerState::zero() }
    }

    /// One consistent snapshot of the current state.
    pub fn get(&self) -> (r: ControllerState)
        ensures
            r == self.gamepad,
    {
        self.gamepad
    }

    /// Applies one event to the state and returns the whole snapshot that
    /// must now be pushed to the device sink. The in-memory state is updated
    /// whether or not that push later succeeds; a push failure is the
    /// caller's to report and does not roll anything back.
    pub fn update(&mut self, e: &InputEvent) -> (r: ControllerState)
        ensures
            final(self).gamepad == spec_apply(old(self).gamepad, *e),
            r == final(self).gamepad,
    {
        let next = crate::event::translate(&self.gamepad, e);
        self.gamepad = next;
        next
    }
}

/// The state after applying a sequence of events in order, one at a time.
pub open spec fn apply_all(s: ControllerState, evs: Seq<InputEvent>) -> ControllerState
    decreases evs.len(),
{
    if evs.len() == 0 {
        s
    } else {
        spec_apply(apply_all(s, evs.drop_last()), evs.last())
    }
}

/// Atomicity of the store: each `update` takes the state from one settled
/// snapshot to the next in a single step, so the state after any run of
/// updates is exactly `apply_all` of the events in the order the store
/// granted them — some sequential order of the callers — and no torn or
/// partial write is ever observable through `get`.
pub proof fn lemma_updates_serialize(s: ControllerState, evs: Seq<InputEvent>, e: InputEvent)
    ensures
        apply_all(s, evs.push(e)) == spec_apply(apply_all(s, evs), e),
{
    assert(evs.push(e).drop_last() =~= evs);
    assert(evs.push(e).last() == e);
}

} // verus!
