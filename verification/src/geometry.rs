//! Vectors, points and axis-aligned rectangles over fixed-point scalars.
//!
//! The y axis points down: the top edge of a rectangle is its smallest y.

use crate::fixed::{
    fx_add, fx_div, fx_hypot, fx_mul, fx_neg, fx_sub, spec_fx_add, spec_fx_div, spec_fx_hypot,
    spec_fx_mul, spec_fx_neg, spec_fx_sub,
};
use vstd::prelude::*;

verus! {

/// A displacement in the plane.
#[derive(Clone, Copy, Debug, PartialEq, Eq, Structural)]
pub struct Vector2 {
    pub x: i64,
    pub y: i64,
}

/// A location in the plane.
#[derive(Clone, Copy, Debug, PartialEq, Eq, Structural)]
pub struct Point2 {
    pub x: i64,
    pub y: i64,
}

/// An axis-aligned rectangle: its top-left corner, width and height.
#[derive(Clone, Copy, Debug, PartialEq, Eq, Structural)]
pub struct Rect {
    pub x: i64,
    pub y: i64,
    pub w: i64,
    pub h: i64,
}

impl Vector2 {
    pub open spec fn zero() -> Vector2 {
        Vector2 { x: 0, y: 0 }
    }

    /// The componentwise sum.
    pub open spec fn spec_plus(self, other: Vector2) -> Vector2 {
        Vector2 { x: spec_fx_add(self.x, other.x), y: spec_fx_add(self.y, other.y) }
    }

    /// The vector with both components negated.
    pub open spec fn spec_negated(self) -> Vector2 {
        Vector2 { x: spec_fx_neg(self.x), y: spec_fx_neg(self.y) }
    }

    /// The vector with both components multiplied by the scalar `s`.
    pub open spec fn spec_scaled(self, s: i64) -> Vector2 {
        Vector2 { x: spec_fx_mul(self.x, s), y: spec_fx_mul(self.y, s) }
    }

    /// The vector with both components divided by the scalar `s`.
    pub open spec fn spec_unscaled(self, s: i64) -> Vector2 {
        Vector2 { x: spec_fx_div(self.x, s), y: spec_fx_div(self.y, s) }
    }

    /// The Euclidean length.
    pub open spec fn spec_magnitude(self) -> i64 {
        spec_fx_hypot(self.x, self.y)
    }

    pub fn new(x: i64, y: i64) -> (v: Vector2)
        ensures
            v == (Vector2 { x, y }),
    {
        Vector2 { x, y }
    }

    pub fn plus(&self, other: &Vector2) -> (v: Vector2)
        ensures
            v == self.spec_plus(*other),
    {
        Vector2 { x: fx_add(self.x, other.x), y: fx_add(self.y, other.y) }
    }

    pub fn negated(&self) -> (v: Vector2)
        ensures
            v == self.spec_negated(),
    {
        Vector2 { x: fx_neg(self.x), y: fx_neg(self.y) }
    }

    pub fn scaled(&self, s: i64) -> (v: Vector2)
        ensures
            v == self.spec_scaled(s),
    {
        Vector2 { x: fx_mul(self.x, s), y: fx_mul(self.y, s) }
    }

    pub fn unscaled(&self, s: i64) -> (v: Vector2)
        ensures
            v == self.spec_unscaled(s),
    {
        Vector2 { x: fx_div(self.x, s), y: fx_div(self.y, s) }
    }

    pub fn magnitude(&self) -> (m: i64)
        ensures
            m == self.spec_magnitude(),
    {
        fx_hypot(self.x, self.y)
    }
}

impl Point2 {
    /// The point moved by `v`.
    pub open spec fn spec_moved(self, v: Vector2) -> Point2 {
        Point2 { x: spec_fx_add(self.x, v.x), y: spec_fx_add(self.y, v.y) }
    }

    /// The point moved against `v`.
    pub open spec fn spec_moved_back(self, v: Vector2) -> Point2 {
        Point2 { x: spec_fx_sub(self.x, v.x), y: spec_fx_sub(self.y, v.y) }
    }

    pub fn new(x: i64, y: i64) -> (p: Point2)
        ensures
            p == (Point2 { x, y }),
    {
        Point2 { x, y }
    }

    pub fn moved(&self, v: &Vector2) -> (p: Point2)
        ensures
            p == self.spec_moved(*v),
    {
        Point2 { x: fx_add(self.x, v.x), y: fx_add(self.y, v.y) }
    }

    pub fn moved_back(&self, v: &Vector2) -> (p: Point2)
        ensures
            p == self.spec_moved_back(*v),
    {
        Point2 { x: fx_sub(self.x, v.x), y: fx_sub(self.y, v.y) }
    }
}

impl Rect {
    pub open spec fn spec_left(self) -> i64 {
        self.x
    }

    pub open spec fn spec_right(self) -> i64 {
        spec_fx_add(self.x, self.w)
    }

    pub open spec fn spec_top(self) -> i64 {
        self.y
    }

    pub open spec fn spec_bottom(self) -> i64 {
        spec_fx_add(self.y, self.h)
    }

    /// The point lies in the rectangle, edges included.
    pub open spec fn spec_contains(self, p: Point2) -> bool {
        &&& p.x >= self.spec_left()
        &&& p.x <= self.spec_right()
        &&& p.y <= self.spec_bottom()
        &&& p.y >= self.spec_top()
    }

    /// The two rectangles share an area: both have a positive width and
    /// height, and their interiors meet. Rectangles that only touch along an
    /// edge do not overlap.
    pub open spec fn spec_overlaps(self, other: Rect) -> bool {
        &&& self.w > 0 && self.h > 0
        &&& other.w > 0 && other.h > 0
        &&& self.spec_left() < other.spec_right()
        &&& self.spec_right() > other.spec_left()
        &&& self.spec_top() < other.spec_bottom()
        &&& self.spec_bottom() > other.spec_top()
    }

    /// The rectangle moved by `offset`.
    pub open spec fn spec_translated(self, offset: Vector2) -> Rect {
        Rect { x: spec_fx_add(self.x, offset.x), y: spec_fx_add(self.y, offset.y), ..self }
    }

    pub fn new(x: i64, y: i64, w: i64, h: i64) -> (r: Rect)
        ensures
            r == (Rect { x, y, w, h }),
    {
        Rect { x, y, w, h }
    }

    pub fn left(&self) -> (r: i64)
        ensures
            r == self.spec_left(),
    {
        self.x
    }

    pub fn right(&self) -> (r: i64)
        ensures
            r == self.spec_right(),
    {
        fx_add(self.x, self.w)
    }

    pub fn top(&self) -> (r: i64)
        ensures
            r == self.spec_top(),
    {
        self.y
    }

    pub fn bottom(&self) -> (r: i64)
        ensures
            r == self.spec_bottom(),
    {
        fx_add(self.y, self.h)
    }

    pub fn contains(&self, p: Point2) -> (r: bool)
        ensures
            r == self.spec_contains(p),
    {
        p.x >= self.left() && p.x <= self.right() && p.y <= self.bottom() && p.y >= self.top()
    }

    pub fn overlaps(&self, other: &Rect) -> (r: bool)
        ensures
            r == self.spec_overlaps(*other),
    {
        self.w > 0 && self.h > 0 && other.w > 0 && other.h > 0 && self.left() < other.right()
            && self.right() > other.left() && self.top() < other.bottom() && self.bottom()
            > other.top()
    }

    pub fn translate(&mut self, offset: Vector2)
        ensures
            *final(self) == old(self).spec_translated(offset),
    {
        self.x = fx_add(self.x, offset.x);
        self.y = fx_add(self.y, offset.y);
    }
}

} // verus!
