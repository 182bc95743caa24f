//! Axis-aligned overlap between two windows, and how the ball bounces off
//! the window it runs into.
use vstd::prelude::*;

verus! {

/// A width and a height, or half of them, in pixels.
#[derive(Clone, Copy, Debug, PartialEq, Eq)]
pub struct Extent {
    pub x: u32,
    pub y: u32,
}

impl Extent {
    /// Half of this extent, rounded down on each axis.
    pub fn halved(&self) -> (r: Extent)
        ensures
            r.x == self.x / 2,
            r.y == self.y / 2,
    {
        Extent { x: self.x / 2, y: self.y / 2 }
    }
}

/// How far two boxes reach into each other on each axis. A positive value
/// on both axes means that they intersect.
#[derive(Clone, Copy, Debug, PartialEq, Eq)]
pub struct Overlap {
    pub x: i64,
    pub y: i64,
}

pub open spec fn abs(v: int) -> int {
    if v < 0 {
        -v
    } else {
        v
    }
}

/// The overlap of two boxes on one axis: their half extents added, less the
/// distance between their centres.
pub open spec fn axis_overlap(half_1: u32, half_2: u32, delta: i32) -> int {
    half_1 + half_2 - abs(delta as int)
}

impl Overlap {
    /// Whether the two boxes intersect.
    pub open spec fn hits(&self) -> bool {
        self.x > 0 && self.y > 0
    }

    /// Whether the two boxes intersect.
    pub fn intersects(&self) -> (r: bool)
        ensures
            r == self.hits(),
    {
        self.x > 0 && self.y > 0
    }
}

/// The overlap of two boxes with half extents `half_1` and `half_2` whose
/// centres lie `delta_x` and `delta_y` apart (in whole pixels, either sign).
pub fn get_overlap(delta_x: i32, delta_y: i32, half_1: Extent, half_2: Extent) -> (r: Overlap)
    ensures
        r.x == axis_overlap(half_1.x, half_2.x, delta_x),
        r.y == axis_overlap(half_1.y, half_2.y, delta_y),
{
    let dx: i64 = if delta_x < 0 { -(delta_x as i64) } else { delta_x as i64 };
    let dy: i64 = if delta_y < 0 { -(delta_y as i64) } else { delta_y as i64 };
    Overlap {
        x: half_1.x as i64 + half_2.x as i64 - dx,
        y: half_1.y as i64 + half_2.y as i64 - dy,
    }
}

/// The axis on which the ball is pushed back and its velocity reversed.
#[derive(Clone, Copy, Debug, PartialEq, Eq)]
pub enum Axis {
    Horizontal,
    Vertical,
}

/// How the ball rebounds: the axis whose velocity component changes sign,
/// and the amount added to the ball's position on that axis.
#[derive(Clone, Copy, Debug, PartialEq, Eq)]
pub struct Bounce {
    pub axis: Axis,
    pub shift: i64,
}

/// The rebound of the ball off a window, or none where they do not
/// intersect.
///
/// `overlap` is the overlap on this frame and `prev_overlap` the overlap of
/// the two positions on the frame before. Where the boxes already overlapped
/// vertically before, the ball came in from the side and is pushed out
/// horizontally; else where they overlapped horizontally, it came from above
/// or below and is pushed vertically; else the axis of the smaller overlap
/// is chosen, the horizontal one on a tie. In that last case a vertical
/// push goes toward the window's side rather than away from it.
///
/// `other_right` tells whether the window's centre lies right of the ball's,
/// and `other_above` whether it lies above (at a smaller y).
pub open spec fn rebound(overlap: Overlap, prev_overlap: Overlap, other_right: bool, other_above: bool) -> Option<Bounce> {
    // The ball moves away from the window: left of it when the window is to
    // its right, below it when the window is above.
    let away_x: int = if other_right { -overlap.x } else { overlap.x as int };
    let away_y: int = if other_above { overlap.y as int } else { -overlap.y };
    if !overlap.hits() {
        None
    } else if prev_overlap.y > 0 {
        Some(Bounce { axis: Axis::Horizontal, shift: away_x as i64 })
    } else if prev_overlap.x > 0 {
        Some(Bounce { axis: Axis::Vertical, shift: away_y as i64 })
    } else if overlap.y >= overlap.x {
        Some(Bounce { axis: Axis::Horizontal, shift: away_x as i64 })
    } else {
        Some(Bounce { axis: Axis::Vertical, shift: (-away_y) as i64 })
    }
}

/// Executable form of [`rebound`].
pub fn resolve_collision(overlap: Overlap, prev_overlap: Overlap, other_right: bool, other_above: bool) -> (r: Option<Bounce>)
    ensures
        r == rebound(overlap, prev_overlap, other_right, other_above),
{
    if !overlap.intersects() {
        return None;
    }
    let push_x: i64 = if other_right { -overlap.x } else { overlap.x };
    let push_y: i64 = if other_above { overlap.y } else { -overlap.y };
    if prev_overlap.y > 0 {
        Some(Bounce { axis: Axis::Horizontal, shift: push_x })
    } else if prev_overlap.x > 0 {
        Some(Bounce { axis: Axis::Vertical, shift: push_y })
    } else if overlap.y >= overlap.x {
        Some(Bounce { axis: Axis::Horizontal, shift: push_x })
    } else {
        Some(Bounce { axis: Axis::Vertical, shift: -push_y })
    }
}

} // verus!
