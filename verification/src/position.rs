//! Integer coordinates on the field. `y` grows downward.

use vstd::prelude::*;

verus! {

/// The sum of two coordinates, held inside the range of `i32`.
pub open spec fn clamped_sum(a: int, b: int) -> int {
    if a + b > i32::MAX {
        i32::MAX as int
    } else if a + b < i32::MIN {
        i32::MIN as int
    } else {
        a + b
    }
}

/// Adds two coordinates; a sum beyond the range of `i32` stops at its end.
pub fn saturating_sum(a: i32, b: i32) -> (r: i32)
    ensures
        r == clamped_sum(a as int, b as int),
{
    let wide: i64 = a as i64 + b as i64;
    if wide > i32::MAX as i64 {
        i32::MAX
    } else if wide < i32::MIN as i64 {
        i32::MIN
    } else {
        wide as i32
    }
}

/// A cell of the field, or a step between two cells.
#[derive(Clone, Copy, Debug, PartialEq, Eq, Structural)]
pub struct Position {
    pub x: i32,
    pub y: i32,
}

impl Position {
    pub fn new(x: i32, y: i32) -> (r: Position)
        ensures
            r == (Position { x, y }),
    {
        Position { x, y }
    }

    /// The cell reached from `self` by the step `step`.
    pub open spec fn plus(self, step: Position) -> Position {
        Position {
            x: clamped_sum(self.x as int, step.x as int) as i32,
            y: clamped_sum(self.y as int, step.y as int) as i32,
        }
    }

    pub fn moved_by(self, step: Position) -> (r: Position)
        ensures
            r == self.plus(step),
    {
        Position { x: saturating_sum(self.x, step.x), y: saturating_sum(self.y, step.y) }
    }
}

} // verus!
