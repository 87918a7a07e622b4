//! Constants of the viewport and helpers shared by the stages.

use crate::fixed::{
    fx_add, fx_div, fx_mul, fx_sub, spec_fx_add, spec_fx_div, spec_fx_mul, spec_fx_sub,
};
use crate::geometry::{Point2, Vector2};
use vstd::prelude::*;

verus! {

/// Width of the viewport: 1280.
pub const WIDTH: i64 = 83886080;

/// Half the width of the viewport.
pub const MIDDLE_X: i64 = 41943040;

/// Height of the viewport: 720.
pub const HEIGHT: i64 = 47185920;

/// Half the height of the viewport.
pub const MIDDLE_Y: i64 = 23592960;

/// Thickness of the lines of the debug grid: 1.
pub const GRID_THICKNESS: i64 = 65536;

/// Ticks per second.
pub const DESIRED_FPS: u32 = 60;

/// Ticks for which a jump is still allowed after the ground was left.
pub const COYOTE_TIME_IN_TICKS: i32 = 5;

/// `val` carried from the range `start1..end1` to the range
/// `start2..end2`.
pub open spec fn spec_map_range(val: i64, start1: i64, end1: i64, start2: i64, end2: i64) -> i64 {
    spec_fx_add(
        spec_fx_mul(
            spec_fx_div(spec_fx_sub(val, start1), spec_fx_sub(end1, start1)),
            spec_fx_sub(end2, start2),
        ),
        start2,
    )
}

/// Maps a value from one range to another.
pub fn map_range(val: i64, start1: i64, end1: i64, start2: i64, end2: i64) -> (r: i64)
    ensures
        r == spec_map_range(val, start1, end1, start2, end2),
{
    fx_add(fx_mul(fx_div(fx_sub(val, start1), fx_sub(end1, start1)), fx_sub(end2, start2)), start2)
}

/// Where a point of the world lies on the screen: the camera's centre is
/// shown in the middle of the viewport.
pub open spec fn spec_relative_point(camera: Vector2, point: Point2) -> Point2 {
    let moved = point.spec_moved_back(camera);
    Point2 { x: spec_fx_add(moved.x, MIDDLE_X), y: spec_fx_add(moved.y, MIDDLE_Y) }
}

/// Screen coordinates of a point of the world.
pub fn relative_point(camera: Vector2, point: Point2) -> (p: Point2)
    ensures
        p == spec_relative_point(camera, point),
{
    let moved = point.moved_back(&camera);
    Point2::new(fx_add(moved.x, MIDDLE_X), fx_add(moved.y, MIDDLE_Y))
}

} // verus!
