//! The joints of the arm.

use vstd::prelude::*;

verus! {

/// A joint of the arm.
#[derive(Debug, Clone, Copy, PartialEq, Eq, Structural)]
pub enum Axis {
    Zed,
    Shoulder,
    Elbow,
    Yaw,
    WristPitch,
    WristRoll,
    Grip,
}

/// How a joint moves.
#[derive(Debug, Clone, Copy, PartialEq, Eq, Structural)]
pub enum AxisKind {
    Linear,
    Rotary,
    Orbital,
}

} // verus!
