//! Operators as traits: a trait for `+` with a type parameter that defaults
//! to `Self` and an associated result type, and `==` written by hand.

use vstd::prelude::*;
use vstd::std_specs::cmp::PartialEqSpec;

verus! {

/// Addition with a right-hand side of type `RHS`, which is `Self` unless
/// the implementation chooses otherwise.
pub trait Add<RHS = Self>: Sized {
    /// The type of the sum.
    type Output;

    /// The operands for which the sum can be formed.
    spec fn add_defined(self, rhs: RHS) -> bool;

    /// The sum.
    spec fn add_spec(self, rhs: RHS) -> Self::Output;

    /// Forms the sum of `self` and `rhs`.
    fn add(self, rhs: RHS) -> (sum: Self::Output)
        requires
            self.add_defined(rhs),
        ensures
            sum == self.add_spec(rhs),
    ;
}

/// A point in the plane with whole-number coordinates.
#[derive(Debug)]
pub struct Point {
    pub x: i32,
    pub y: i32,
}

impl Add for Point {
    type Output = Point;

    /// Both coordinates of the sum fit in an `i32`.
    open spec fn add_defined(self, rhs: Point) -> bool {
        &&& i32::MIN <= self.x + rhs.x <= i32::MAX
        &&& i32::MIN <= self.x + rhs.y <= i32::MAX
    }

    /// The first coordinate of `self` is added to each coordinate of `rhs`;
    /// the second coordinate of `self` has no part in the sum.
    open spec fn add_spec(self, rhs: Point) -> Point {
        Point { x: (self.x + rhs.x) as i32, y: (self.x + rhs.y) as i32 }
    }

    fn add(self, other: Point) -> (sum: Point) {
        Point { x: self.x + other.x, y: self.x + other.y }
    }
}

impl PartialEq for Point {
    /// Two points are equal when both coordinates agree.
    fn eq(&self, other: &Point) -> (equal: bool) {
        (self.x == other.x) && (self.y == other.y)
    }
}

impl vstd::std_specs::cmp::PartialEqSpecImpl for Point {
    open spec fn obeys_eq_spec() -> bool {
        true
    }

    open spec fn eq_spec(&self, other: &Point) -> bool {
        (self.x == other.x) && (self.y == other.y)
    }
}

/// `==` on points is an equivalence: every point equals itself, equality
/// does not depend on the side a point stands on, and two points that
/// equal a third equal each other. It holds of two points exactly when
/// they are the same point.
pub proof fn lemma_point_eq_is_equivalence(a: Point, b: Point, c: Point)
    ensures
        a.eq_spec(&a),
        a.eq_spec(&b) == b.eq_spec(&a),
        a.eq_spec(&b) && b.eq_spec(&c) ==> a.eq_spec(&c),
        a.eq_spec(&b) == (a == b),
{
}

} // verus!
