//! The geometric tests behind the collision modes, on plain numbers.
//!
//! Every test is exact: lengths are multiplied out to a common denominator
//! instead of being divided, and square roots are compared through their
//! squares.

use vstd::prelude::*;
use crate::engine::math::fixed::{Heading, UNIT};
use crate::engine::math::wide::product_lt;

verus! {

/// Whether two intervals overlap in more than a point.
///
/// An interval is given by its `center`, a length, and by its `extent`, a
/// length times a scale factor: it reaches `extent / (2 * UNIT)` to either
/// side of the center. Intervals that only touch do not overlap.
pub open spec fn intervals_overlap(center_a: int, extent_a: int, center_b: int, extent_b: int) -> bool {
    &&& 2 * UNIT * center_a - extent_a < 2 * UNIT * center_b + extent_b
    &&& 2 * UNIT * center_a + extent_a > 2 * UNIT * center_b - extent_b
}

/// Decides `intervals_overlap`.
pub fn check_intervals_overlap(center_a: i32, extent_a: i64, center_b: i32, extent_b: i64) -> (overlap: bool)
    ensures
        overlap == intervals_overlap(center_a as int, extent_a as int, center_b as int, extent_b as int),
{
    let double_a: i128 = 2_000_000 * (center_a as i128);
    let double_b: i128 = 2_000_000 * (center_b as i128);
    let reach_a: i128 = extent_a as i128;
    let reach_b: i128 = extent_b as i128;
    double_a - reach_a < double_b + reach_b && double_a + reach_a > double_b - reach_b
}

/// Whether the square root of `distance` is less than the sum of the square
/// roots of `reach_a` and `reach_b`, for three numbers that are not negative.
///
/// Squaring `sqrt(d) < sqrt(p) + sqrt(q)` gives `d - p - q < 2 * sqrt(p * q)`,
/// which holds when the left side is negative and else when its square is
/// less than `4 * p * q`.
pub open spec fn root_below_sum_of_roots(distance: int, reach_a: int, reach_b: int) -> bool {
    let excess = distance - reach_a - reach_b;
    excess < 0 || excess * excess < 4 * reach_a * reach_b
}

/// On perfect squares the comparison is the comparison of the roots: for
/// `x`, `y` and `z` that are not negative, the root of `x * x` lies below the
/// sum of the roots of `y * y` and `z * z` exactly when `x < y + z`.
pub proof fn lemma_roots_of_squares(x: int, y: int, z: int)
    requires
        0 <= x,
        0 <= y,
        0 <= z,
    ensures
        root_below_sum_of_roots(x * x, y * y, z * z) == (x < y + z),
{
    let excess = x * x - y * y - z * z;
    let cross = 2 * y * z;
    assert(0 <= cross) by (nonlinear_arith)
        requires
            cross == 2 * y * z,
            0 <= y,
            0 <= z,
    ;
    assert(cross * cross == 4 * (y * y) * (z * z)) by (nonlinear_arith)
        requires
            cross == 2 * y * z,
    ;
    assert((y + z) * (y + z) == y * y + z * z + cross) by (nonlinear_arith)
        requires
            cross == 2 * y * z,
    ;
    assert((x < y + z) == (x * x < (y + z) * (y + z))) by (nonlinear_arith)
        requires
            0 <= x,
            0 <= y + z,
    ;
    assert((excess < 0 || excess * excess < cross * cross) == (excess < cross)) by (nonlinear_arith)
        requires
            0 <= cross,
    ;
}

proof fn lemma_square_of_halves(excess: int, half: int, odd: int)
    requires
        excess == 2 * half + odd,
        odd == 0 || odd == 1,
    ensures
        excess * excess == 4 * (half * (half + odd)) + odd,
{
    assert((2 * half + odd) * (2 * half + odd) == 4 * (half * (half + odd)) + odd * odd)
        by (nonlinear_arith);
}

/// Decides `root_below_sum_of_roots`.
pub fn check_root_below_sum_of_roots(distance: u128, reach_a: u128, reach_b: u128) -> (below: bool)
    ensures
        below == root_below_sum_of_roots(distance as int, reach_a as int, reach_b as int),
{
    if distance < reach_a {
        return true;
    }
    let rest: u128 = distance - reach_a;
    if rest < reach_b {
        return true;
    }
    let excess: u128 = rest - reach_b;
    let half: u128 = excess / 2;
    let odd: u128 = excess % 2;
    let below = product_lt(half, half + odd, reach_a, reach_b);
    proof {
        lemma_square_of_halves(excess as int, half as int, odd as int);
        assert(4 * reach_a * reach_b == 4 * (reach_a * reach_b)) by (nonlinear_arith);
    }
    below
}

/// A square in the plane: its center, the direction it faces, and the
/// length of its side as a scale factor applied to a side of length 1.
#[derive(Clone, Copy, Debug)]
pub struct OrientedBox {
    pub center_x: i32,
    pub center_y: i32,
    pub heading: Heading,
    pub side: i32,
}

/// The smaller of two numbers.
pub open spec fn min2(a: int, b: int) -> int {
    if a <= b {
        a
    } else {
        b
    }
}

/// The larger of two numbers.
pub open spec fn max2(a: int, b: int) -> int {
    if a >= b {
        a
    } else {
        b
    }
}

impl OrientedBox {
    /// The x coordinate of a corner, multiplied by `2 * UNIT`.
    ///
    /// The corner lies half a side along the heading, forward if `along` is
    /// 1 and backward if it is -1, and half a side across it, to the left if
    /// `across` is 1 and to the right if it is -1.
    pub open spec fn corner_x(&self, along: int, across: int) -> int {
        2 * UNIT * self.center_x + self.side * (along * self.heading.cos() - across
            * self.heading.sin())
    }

    /// The y coordinate of a corner, multiplied by `2 * UNIT`.
    pub open spec fn corner_y(&self, along: int, across: int) -> int {
        2 * UNIT * self.center_y + self.side * (along * self.heading.sin() + across
            * self.heading.cos())
    }

    /// How far a corner lies along an axis: the dot product of the corner
    /// and the axis.
    pub open spec fn projection(&self, along: int, across: int, axis_x: int, axis_y: int) -> int {
        self.corner_x(along, across) * axis_x + self.corner_y(along, across) * axis_y
    }

    /// The least projection of a corner on an axis.
    pub open spec fn lowest_projection(&self, axis_x: int, axis_y: int) -> int {
        min2(
            min2(self.projection(1, 1, axis_x, axis_y), self.projection(-1, 1, axis_x, axis_y)),
            min2(self.projection(-1, -1, axis_x, axis_y), self.projection(1, -1, axis_x, axis_y)),
        )
    }

    /// The greatest projection of a corner on an axis.
    pub open spec fn highest_projection(&self, axis_x: int, axis_y: int) -> int {
        max2(
            max2(self.projection(1, 1, axis_x, axis_y), self.projection(-1, 1, axis_x, axis_y)),
            max2(self.projection(-1, -1, axis_x, axis_y), self.projection(1, -1, axis_x, axis_y)),
        )
    }

    /// Whether the shadows of two boxes on an axis overlap in more than a
    /// point. Where they do not, the axis separates the boxes.
    pub open spec fn overlap_on_axis(&self, other: &OrientedBox, axis_x: int, axis_y: int) -> bool {
        &&& self.lowest_projection(axis_x, axis_y) < other.highest_projection(axis_x, axis_y)
        &&& other.lowest_projection(axis_x, axis_y) < self.highest_projection(axis_x, axis_y)
    }

    /// Whether two boxes overlap: no face normal of either box separates
    /// them. The face normals of a box are its heading and the direction
    /// across it.
    pub open spec fn overlaps(&self, other: &OrientedBox) -> bool {
        &&& self.overlap_on_axis(other, self.heading.cos(), self.heading.sin())
        &&& self.overlap_on_axis(other, -self.heading.sin(), self.heading.cos())
        &&& self.overlap_on_axis(other, other.heading.cos(), other.heading.sin())
        &&& self.overlap_on_axis(other, -other.heading.sin(), other.heading.cos())
    }

    /// One coordinate of a corner: `center` is the center's coordinate, and
    /// `first` and `second` are the heading's components that the corner's
    /// offset along and across the heading are measured by.
    fn corner_coordinate(&self, center: i32, along: i32, first: i32, across: i32, second: i32) -> (coordinate: i128)
        requires
            along == 1 || along == -1,
            across == 1 || across == -1,
            -UNIT <= first <= UNIT,
            -UNIT <= second <= UNIT,
        ensures
            coordinate == 2 * UNIT * center + self.side * (along * first - across * second),
            -0x40_0000_0000_0000 <= coordinate <= 0x40_0000_0000_0000,
    {
        let offset: i128 = (along as i128) * (first as i128) - (across as i128) * (second as i128);
        let side: i128 = self.side as i128;
        assert(-0x8000_0000 * 2_000_000 <= side * offset <= 0x8000_0000 * 2_000_000)
            by (nonlinear_arith)
            requires
                -0x8000_0000 <= side <= 0x8000_0000,
                -2_000_000 <= offset <= 2_000_000,
        ;
        2_000_000 * (center as i128) + side * offset
    }

    fn corner_projection(&self, along: i32, across: i32, axis_x: i32, axis_y: i32) -> (projection: i128)
        requires
            along == 1 || along == -1,
            across == 1 || across == -1,
            -UNIT <= axis_x <= UNIT,
            -UNIT <= axis_y <= UNIT,
        ensures
            projection == self.projection(along as int, across as int, axis_x as int, axis_y as int),
    {
        let cos: i32 = self.heading.get_cos();
        let sin: i32 = self.heading.get_sin();
        let x: i128 = self.corner_coordinate(self.center_x, along, cos, across, sin);
        let y: i128 = self.corner_coordinate(self.center_y, along, sin, -across, cos);
        let ax: i128 = axis_x as i128;
        let ay: i128 = axis_y as i128;
        assert(-0x40_0000_0000_0000 * 1_000_000 <= x * ax <= 0x40_0000_0000_0000 * 1_000_000)
            by (nonlinear_arith)
            requires
                -0x40_0000_0000_0000 <= x <= 0x40_0000_0000_0000,
                -1_000_000 <= ax <= 1_000_000,
        ;
        assert(-0x40_0000_0000_0000 * 1_000_000 <= y * ay <= 0x40_0000_0000_0000 * 1_000_000)
            by (nonlinear_arith)
            requires
                -0x40_0000_0000_0000 <= y <= 0x40_0000_0000_0000,
                -1_000_000 <= ay <= 1_000_000,
        ;
        x * ax + y * ay
    }

    /// The least and the greatest projection of a corner on an axis.
    fn projection_range(&self, axis_x: i32, axis_y: i32) -> (range: (i128, i128))
        requires
            -UNIT <= axis_x <= UNIT,
            -UNIT <= axis_y <= UNIT,
        ensures
            range.0 == self.lowest_projection(axis_x as int, axis_y as int),
            range.1 == self.highest_projection(axis_x as int, axis_y as int),
    {
        let front_left: i128 = self.corner_projection(1, 1, axis_x, axis_y);
        let back_left: i128 = self.corner_projection(-1, 1, axis_x, axis_y);
        let back_right: i128 = self.corner_projection(-1, -1, axis_x, axis_y);
        let front_right: i128 = self.corner_projection(1, -1, axis_x, axis_y);
        let low_left: i128 = if front_left <= back_left { front_left } else { back_left };
        let low_right: i128 = if back_right <= front_right { back_right } else { front_right };
        let high_left: i128 = if front_left >= back_left { front_left } else { back_left };
        let high_right: i128 = if back_right >= front_right { back_right } else { front_right };
        (
            if low_left <= low_right { low_left } else { low_right },
            if high_left >= high_right { high_left } else { high_right },
        )
    }

    fn check_overlap_on_axis(&self, other: &OrientedBox, axis_x: i32, axis_y: i32) -> (overlap: bool)
        requires
            -UNIT <= axis_x <= UNIT,
            -UNIT <= axis_y <= UNIT,
        ensures
            overlap == self.overlap_on_axis(other, axis_x as int, axis_y as int),
    {
        let (low, high) = self.projection_range(axis_x, axis_y);
        let (other_low, other_high) = other.projection_range(axis_x, axis_y);
        low < other_high && other_low < high
    }

    /// Decides `overlaps` by the separating-axis test.
    pub fn check_overlaps(&self, other: &OrientedBox) -> (overlap: bool)
        ensures
            overlap == self.overlaps(other),
    {
        let cos: i32 = self.heading.get_cos();
        let sin: i32 = self.heading.get_sin();
        let other_cos: i32 = other.heading.get_cos();
        let other_sin: i32 = other.heading.get_sin();
        self.check_overlap_on_axis(other, cos, sin)
            && self.check_overlap_on_axis(other, -sin, cos)
            && self.check_overlap_on_axis(other, other_cos, other_sin)
            && self.check_overlap_on_axis(other, -other_sin, other_cos)
    }
}

proof fn lemma_unturned_projection(oriented: OrientedBox, along: int, across: int)
    requires
        oriented.heading.cos() == UNIT,
        oriented.heading.sin() == 0,
    ensures
        oriented.projection(along, across, UNIT as int, 0) == (2 * UNIT * oriented.center_x + along
            * oriented.side * UNIT) * UNIT,
        oriented.projection(along, across, 0, UNIT as int) == (2 * UNIT * oriented.center_y + across
            * oriented.side * UNIT) * UNIT,
{
    let side = oriented.side as int;
    let cos = oriented.heading.cos();
    let sin = oriented.heading.sin();
    assert(side * (along * cos - across * sin) == along * side * UNIT && side * (along * sin + across
        * cos) == across * side * UNIT) by (nonlinear_arith)
        requires
            cos == 1_000_000,
            sin == 0,
    ;
    let x = oriented.corner_x(along, across);
    let y = oriented.corner_y(along, across);
    assert(x * UNIT + y * 0 == x * UNIT && x * 0 + y * UNIT == y * UNIT) by (nonlinear_arith);
}

/// Boxes that are not turned overlap exactly when their intervals overlap
/// on both axes: for them the separating-axis test is the test of
/// axis-aligned boxes of the same size.
pub proof fn lemma_unturned_boxes(a: OrientedBox, b: OrientedBox)
    requires
        a.heading.cos() == UNIT,
        a.heading.sin() == 0,
        b.heading.cos() == UNIT,
        b.heading.sin() == 0,
        a.side >= 0,
        b.side >= 0,
    ensures
        a.overlaps(&b) == (intervals_overlap(
            a.center_x as int,
            a.side * UNIT,
            b.center_x as int,
            b.side * UNIT,
        ) && intervals_overlap(a.center_y as int, a.side * UNIT, b.center_y as int, b.side * UNIT)),
{
    lemma_unturned_projection(a, 1, 1);
    lemma_unturned_projection(a, -1, 1);
    lemma_unturned_projection(a, -1, -1);
    lemma_unturned_projection(a, 1, -1);
    lemma_unturned_projection(b, 1, 1);
    lemma_unturned_projection(b, -1, 1);
    lemma_unturned_projection(b, -1, -1);
    lemma_unturned_projection(b, 1, -1);
}

} // verus!
