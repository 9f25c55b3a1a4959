//! What the pointer does on a pill that holds a level.

use vstd::prelude::*;
use crate::binary64::Binary64;

verus! {

/// A gesture on a pill: a click, a click of the other button, or a turn of the wheel by
/// a vertical distance.
#[derive(Clone, Copy, PartialEq, Eq, Debug, Structural)]
pub enum Gesture {
    Click,
    Context,
    Wheel { dy: Binary64 },
}

/// The step, in percent, by which a gesture moves a level.
pub const LEVEL_STEP: i32 = 5;

/// The step of the wheel: up where the distance is below zero, else down.
pub open spec fn wheel_delta(dy: Binary64) -> int {
    if dy.number().below_zero() {
        5
    } else {
        -5
    }
}

/// The step of the wheel.
pub fn wheel_step(dy: Binary64) -> (delta: i32)
    ensures
        delta == wheel_delta(dy),
{
    if dy.is_below_zero() {
        LEVEL_STEP
    } else {
        -LEVEL_STEP
    }
}

} // verus!
