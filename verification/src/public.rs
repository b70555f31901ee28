//! The readings exposed over the status interface.

use vstd::prelude::*;

verus! {

/// The axis reading of one controller.
#[derive(Debug, Clone, Copy, PartialEq, Eq, Structural)]
pub struct Axis {
    /// Left stick, horizontal component.
    pub left_x: i16,
}

/// One user's controller reading.
#[derive(Debug, Clone, Copy, PartialEq, Eq, Structural)]
pub struct Controller {
    /// The user the reading belongs to.
    pub user_id: i64,
    /// The axis reading.
    pub axis: Axis,
}

impl Default for Axis {
    /// The centred reading.
    fn default() -> (r: Axis)
        ensures
            r.left_x == 0,
    {
        Axis { left_x: 0 }
    }
}

impl Default for Controller {
    /// The reading of nobody's controller, centred.
    fn default() -> (r: Controller)
        ensures
            r.user_id == 0,
            r.axis.left_x == 0,
    {
        Controller { user_id: 0, axis: Axis { left_x: 0 } }
    }
}

} // verus!
