use vstd::prelude::*;
use crate::geometry::Point;

verus! {

/// Identifies one shape of the host's scene.
#[derive(Clone, Copy, Debug, PartialEq, Eq, Structural)]
pub struct ShapeHandle {
    pub id: u64,
}

/// Where the pointer is this frame, and whether it is over the UI overlay.
#[derive(Clone, Copy, Debug, PartialEq, Eq, Structural)]
pub struct MouseMovement {
    pub position: Point,
    pub over_ui: bool,
}

impl MouseMovement {
    pub open spec fn wf(self) -> bool {
        self.position.bounded()
    }
}

/// The primary pointer button this frame.
#[derive(Clone, Copy, Debug, PartialEq, Eq, Structural)]
pub struct MouseButtons {
    /// The button is down.
    pub pressed: bool,
    /// The button went down this frame.
    pub just_pressed: bool,
    /// The button went up this frame.
    pub just_released: bool,
}

} // verus!
