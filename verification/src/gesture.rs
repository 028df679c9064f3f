//! Telling the three two-finger gestures apart.
//!
//! Two fingers that move the same way tilt and orbit the camera. One finger
//! that moves across the line between the two rotates it, and one that moves
//! along that line zooms. The decision looks at the angle between vectors,
//! through the cosine, and its two thresholds are tuned by hand.
//!
//! A cosine is a ratio of an inner product to a product of lengths. To stay
//! in integers the comparisons are made on squares, multiplied out:
//! `cos > n/d` exactly when the inner product is positive and
//! `d² · (a·b)² > n² · |a|² · |b|²`. Both sides can take more than 128
//! bits, and are computed exactly in two limbs.

use vstd::prelude::*;
use crate::fixed::lemma_product_bound;
use crate::geometry::{Offset, Point, Vector};
use crate::wide::scaled_product;

verus! {

/// A finger counts as moved when the square of its displacement is greater
/// than this. Tunable.
pub const MOVEMENT_MARGIN_SQ: u128 = 0;

/// Two fingers move the same way when the cosine of the angle between their
/// displacements is greater than `SAME_DIRECTION_NUM / SAME_DIRECTION_DEN`,
/// which is 0.8. Tunable.
pub const SAME_DIRECTION_NUM: u128 = 4;

/// See [`SAME_DIRECTION_NUM`].
pub const SAME_DIRECTION_DEN: u128 = 5;

/// A finger moves across the line between the fingers when the cosine of the
/// angle between that line and its displacement is at most
/// `RADIAL_NUM / RADIAL_DEN` in size, which is 0.4. Tunable.
pub const RADIAL_NUM: u128 = 2;

/// See [`RADIAL_NUM`].
pub const RADIAL_DEN: u128 = 5;

/// What a touch asks of the camera. Each variant holds the arguments of the
/// camera operation of the same name.
#[derive(Clone, Copy, Debug, PartialEq, Eq, Structural)]
pub enum Gesture {
    /// One finger drags the point that the camera looks at.
    Pan { new: Point, old: Point },
    /// Two fingers move the same way: elevation and azimuth follow.
    TiltOrbit { new: Point, old: Point },
    /// A finger turns about the other: the azimuth follows.
    Rotate { new_a: Point, new_b: Point, old_a: Point, old_b: Point },
    /// The fingers close in or spread: the distance follows.
    Zoom { new_a: Point, new_b: Point, old_a: Point, old_b: Point },
}

/// Whether the cosine of the angle between `a` and `b` is greater than
/// `num / den`, for two vectors with length and `0 <= num <= den`.
pub open spec fn cosine_above(a: Vector, b: Vector, num: int, den: int) -> bool {
    a.dot(b) > 0 && den * den * (a.dot(b) * a.dot(b)) > num * num * (a.norm2() * b.norm2())
}

/// Whether the cosine of the angle between `a` and `b` lies between
/// `-num / den` and `num / den`, both included, for two vectors with length
/// and `0 <= num <= den`.
pub open spec fn cosine_within(a: Vector, b: Vector, num: int, den: int) -> bool {
    den * den * (a.dot(b) * a.dot(b)) <= num * num * (a.norm2() * b.norm2())
}

/// The gesture that two fingers make when the first has just moved from
/// `first_old` to `first_new` and the second last moved from `second_old` to
/// `second_new`.
///
/// There is none unless the first finger moved by more than the margin, and
/// none while the second has no displacement to compare with. Otherwise the
/// first of these decides: the fingers move the same way, which tilts; the
/// first finger moves across the line that joined the fingers before the
/// move, which rotates; anything else zooms. Fingers that started from one
/// point have no line between them, and zoom.
pub open spec fn gesture_for(
    first_new: Point,
    first_old: Point,
    second_new: Point,
    second_old: Point,
) -> Option<Gesture> {
    let moving = Vector::between(first_old, first_new);
    let other = Vector::between(second_old, second_new);
    let axis = Vector::between(first_old, second_old);
    if moving.norm2() <= MOVEMENT_MARGIN_SQ {
        None
    } else if other.is_zero() {
        None
    } else if cosine_above(moving, other, SAME_DIRECTION_NUM as int, SAME_DIRECTION_DEN as int) {
        Some(Gesture::TiltOrbit { new: first_new, old: first_old })
    } else if !axis.is_zero() && cosine_within(
        axis,
        moving,
        RADIAL_NUM as int,
        RADIAL_DEN as int,
    ) {
        Some(
            Gesture::Rotate {
                new_a: first_new,
                new_b: second_new,
                old_a: first_old,
                old_b: second_old,
            },
        )
    } else {
        Some(
            Gesture::Zoom {
                new_a: first_new,
                new_b: second_new,
                old_a: first_old,
                old_b: second_old,
            },
        )
    }
}

/// Two fingers that have both moved make exactly one of the three two-finger
/// gestures, and the gesture carries the positions of the finger that moved
/// last first. Two fingers never pan.
pub proof fn lemma_two_moving_fingers_make_a_gesture(
    first_new: Point,
    first_old: Point,
    second_new: Point,
    second_old: Point,
)
    ensures
        gesture_for(first_new, first_old, second_new, second_old) is Some <==> Vector::between(
            first_old,
            first_new,
        ).norm2() > MOVEMENT_MARGIN_SQ && second_new != second_old,
        match gesture_for(first_new, first_old, second_new, second_old) {
            Some(Gesture::TiltOrbit { new, old }) => new == first_new && old == first_old,
            Some(Gesture::Rotate { new_a, new_b, old_a, old_b }) | Some(
                Gesture::Zoom { new_a, new_b, old_a, old_b },
            ) => new_a == first_new && new_b == second_new && old_a == first_old && old_b
                == second_old,
            Some(Gesture::Pan { .. }) => false,
            None => true,
        },
{
}

/// The inner product of two displacements between positions.
fn inner(a: Offset, b: Offset) -> (r: i128)
    requires
        a@.spans(),
        b@.spans(),
    ensures
        r == a@.dot(b@),
        -0x2_0000_0000_0000_0000 < r < 0x2_0000_0000_0000_0000,
{
    proof {
        lemma_product_bound(a.dx as int, b.dx as int, 0xffff_ffff, 0xffff_ffff);
        lemma_product_bound(a.dy as int, b.dy as int, 0xffff_ffff, 0xffff_ffff);
    }
    (a.dx as i128) * (b.dx as i128) + (a.dy as i128) * (b.dy as i128)
}

/// The squared length of a displacement between positions.
fn length2(a: Offset) -> (r: u128)
    requires
        a@.spans(),
    ensures
        r == a@.norm2(),
        r < 0x2_0000_0000_0000_0000,
{
    proof {
        lemma_product_bound(a.dx as int, a.dx as int, 0xffff_ffff, 0xffff_ffff);
        lemma_product_bound(a.dy as int, a.dy as int, 0xffff_ffff, 0xffff_ffff);
    }
    a.magnitude2()
}

/// Decides which gesture two fingers make: see [`gesture_for`].
///
/// The result depends on the four positions and on nothing else.
pub fn classify(first_new: Point, first_old: Point, second_new: Point, second_old: Point) -> (g:
    Option<Gesture>)
    ensures
        g == gesture_for(first_new, first_old, second_new, second_old),
{
    let moving = first_new.offset_from(first_old);
    let other = second_new.offset_from(second_old);
    let axis = second_old.offset_from(first_old);
    let moving2: u128 = length2(moving);
    if moving2 <= MOVEMENT_MARGIN_SQ {
        return None;
    }
    if other.dx == 0 && other.dy == 0 {
        return None;
    }
    let other2: u128 = length2(other);
    let alike: i128 = inner(moving, other);
    if alike > 0 {
        let size: u128 = alike as u128;
        let reached = scaled_product(SAME_DIRECTION_DEN * SAME_DIRECTION_DEN, size, size);
        let asked = scaled_product(SAME_DIRECTION_NUM * SAME_DIRECTION_NUM, moving2, other2);
        if reached.exceeds(asked) {
            return Some(Gesture::TiltOrbit { new: first_new, old: first_old });
        }
    }
    let along: i128 = inner(axis, moving);
    let size: u128 = if along < 0 {
        (-along) as u128
    } else {
        along as u128
    };
    assert(size * size == along * along) by (nonlinear_arith)
        requires
            size == along || size == -along,
    ;
    let axis2: u128 = length2(axis);
    let reached = scaled_product(RADIAL_DEN * RADIAL_DEN, size, size);
    let allowed = scaled_product(RADIAL_NUM * RADIAL_NUM, axis2, moving2);
    if !(axis.dx == 0 && axis.dy == 0) && !reached.exceeds(allowed) {
        Some(
            Gesture::Rotate {
                new_a: first_new,
                new_b: second_new,
                old_a: first_old,
                old_b: second_old,
            },
        )
    } else {
        Some(
            Gesture::Zoom {
                new_a: first_new,
                new_b: second_new,
                old_a: first_old,
                old_b: second_old,
            },
        )
    }
}

} // verus!
