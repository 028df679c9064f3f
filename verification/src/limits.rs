//! What stays true of the camera whatever the fingers do.
//!
//! The elevation and the distance never leave their limits, and a drag of
//! two fingers always leaves the azimuth in its range. A gesture that moves
//! nothing changes nothing, and two fingers that move as a whole neither
//! zoom nor turn the camera.

use vstd::prelude::*;
use crate::camera::{
    CameraState,
    Heading,
    HALF_TURN,
    MAX_ANGLE_FROM_GROUND,
    MAX_DISTANCE,
    MIN_ANGLE_FROM_GROUND,
    MIN_DISTANCE,
    wrap,
    FULL_TURN,
};
use crate::fixed::{lemma_trunc_div_zero, MICRO};
use crate::geometry::Point;

verus! {

/// The camera after a run of two-finger drags, each a pair of the position
/// dragged to and the position dragged from.
pub open spec fn tilted_through(start: CameraState, drags: Seq<(Point, Point)>) -> CameraState
    decreases drags.len(),
{
    if drags.len() == 0 {
        start
    } else {
        tilted_through(start, drags.drop_last()).tilted(drags.last().0, drags.last().1)
    }
}

/// The camera after a run of pinches, each the two new positions of the
/// fingers followed by their two old ones.
pub open spec fn zoomed_through(start: CameraState, pinches: Seq<(Point, Point, Point, Point)>)
    -> CameraState
    decreases pinches.len(),
{
    if pinches.len() == 0 {
        start
    } else {
        zoomed_through(start, pinches.drop_last()).zoomed(
            pinches.last().0,
            pinches.last().1,
            pinches.last().2,
            pinches.last().3,
        )
    }
}

/// The camera starts out valid, with its azimuth in range.
pub proof fn lemma_initial_valid()
    ensures
        CameraState::initial().valid(),
        CameraState::initial().wrapped(),
{
}

/// A drag of two fingers leaves the elevation within its limits, wherever
/// it was and however far the fingers went, and does not touch the distance.
pub proof fn lemma_tilt_keeps_limits(state: CameraState, new: Point, old: Point)
    ensures
        state.has_viewport() ==> MIN_ANGLE_FROM_GROUND <= state.tilted(new, old).angle_from_ground
            <= MAX_ANGLE_FROM_GROUND,
        state.within_limits() ==> state.tilted(new, old).within_limits(),
        state.tilted(new, old).dist_origin == state.dist_origin,
{
}

/// The elevation is within its limits after any run of two-finger drags.
pub proof fn lemma_elevation_stays_within_limits(start: CameraState, drags: Seq<(Point, Point)>)
    requires
        start.within_limits(),
    ensures
        tilted_through(start, drags).within_limits(),
        MIN_ANGLE_FROM_GROUND <= tilted_through(start, drags).angle_from_ground
            <= MAX_ANGLE_FROM_GROUND,
    decreases drags.len(),
{
    if drags.len() > 0 {
        lemma_elevation_stays_within_limits(start, drags.drop_last());
        lemma_tilt_keeps_limits(
            tilted_through(start, drags.drop_last()),
            drags.last().0,
            drags.last().1,
        );
    }
}

/// Wrapping brings every angle into the range above `-HALF_TURN` and up to
/// `HALF_TURN`, changes it by whole turns only, and leaves an angle of that
/// range as it is.
pub proof fn lemma_wrap_lands(angle: int)
    ensures
        -HALF_TURN < wrap(angle) <= HALF_TURN,
        (wrap(angle) - angle) % (FULL_TURN as int) == 0,
        -HALF_TURN < angle <= HALF_TURN ==> wrap(angle) == angle,
{
    let short = HALF_TURN - angle;
    assert(short == 360_000_000 * (short / 360_000_000) + short % 360_000_000);
    assert(wrap(angle) - angle == 360_000_000 * (short / 360_000_000));
}

/// With a viewport, a drag of two fingers leaves the azimuth in its range,
/// wherever it was, also out of range, and however far the fingers went.
pub proof fn lemma_tilt_wraps_azimuth(state: CameraState, new: Point, old: Point)
    requires
        state.has_viewport(),
    ensures
        state.tilted(new, old).wrapped(),
{
    lemma_wrap_lands(state.angle_about_y + state.swing(new, old));
}

/// The azimuth is in its range after any run of two-finger drags: after the
/// first drag wherever it was before, and throughout if it started there.
pub proof fn lemma_azimuth_stays_wrapped(start: CameraState, drags: Seq<(Point, Point)>)
    requires
        start.wrapped() || (start.has_viewport() && drags.len() > 0),
    ensures
        tilted_through(start, drags).wrapped(),
        tilted_through(start, drags).has_viewport() == start.has_viewport(),
    decreases drags.len(),
{
    if drags.len() > 0 {
        let before = tilted_through(start, drags.drop_last());
        if drags.len() > 1 || start.wrapped() {
            lemma_azimuth_stays_wrapped(start, drags.drop_last());
        } else {
            assert(before == start);
        }
        if before.has_viewport() {
            lemma_tilt_wraps_azimuth(before, drags.last().0, drags.last().1);
        }
    }
}

/// A pinch leaves the distance within its limits, wherever it was and
/// however far the fingers went, and does not touch the elevation.
pub proof fn lemma_zoom_keeps_limits(
    state: CameraState,
    new_a: Point,
    new_b: Point,
    old_a: Point,
    old_b: Point,
)
    ensures
        state.has_viewport() ==> MIN_DISTANCE <= state.zoomed(new_a, new_b, old_a, old_b).dist_origin
            <= MAX_DISTANCE,
        state.within_limits() ==> state.zoomed(new_a, new_b, old_a, old_b).within_limits(),
        state.zoomed(new_a, new_b, old_a, old_b).angle_from_ground == state.angle_from_ground,
{
}

/// The distance is within its limits after any run of pinches.
pub proof fn lemma_distance_stays_within_limits(
    start: CameraState,
    pinches: Seq<(Point, Point, Point, Point)>,
)
    requires
        start.within_limits(),
    ensures
        zoomed_through(start, pinches).within_limits(),
        MIN_DISTANCE <= zoomed_through(start, pinches).dist_origin <= MAX_DISTANCE,
    decreases pinches.len(),
{
    if pinches.len() > 0 {
        lemma_distance_stays_within_limits(start, pinches.drop_last());
        lemma_zoom_keeps_limits(
            zoomed_through(start, pinches.drop_last()),
            pinches.last().0,
            pinches.last().1,
            pinches.last().2,
            pinches.last().3,
        );
    }
}

/// A pan from a position to the same position leaves the target where it is,
/// whatever the heading.
pub proof fn lemma_pan_nowhere(state: CameraState, at: Point, heading: Heading)
    requires
        state.valid(),
    ensures
        state.panned(at, at, heading) == state,
{
    if state.has_viewport() {
        lemma_trunc_div_zero(state.width);
        lemma_trunc_div_zero(state.height);
        assert(MICRO * MICRO == 1_000_000_000_000) by (nonlinear_arith)
            requires
                MICRO == 1_000_000,
        ;
        lemma_trunc_div_zero(MICRO * MICRO);
        let reach = crate::fixed::isqrt(state.dist_origin * MICRO);
        assert((0 * heading.cos - 0 * heading.sin) * reach == 0) by (nonlinear_arith);
        assert((0 * heading.sin + 0 * heading.cos) * reach == 0) by (nonlinear_arith);
    }
}

/// A pinch that leaves the separation of the fingers as it was leaves the
/// distance as it was. The separation is measured in the scene, exactly: see
/// [`CameraState::separation2`].
pub proof fn lemma_zoom_same_separation(
    state: CameraState,
    new_a: Point,
    new_b: Point,
    old_a: Point,
    old_b: Point,
)
    requires
        state.valid(),
        state.separation2(new_a, new_b) == state.separation2(old_a, old_b),
    ensures
        state.zoomed(new_a, new_b, old_a, old_b) == state,
{
}

/// Two fingers that move as a whole, each by the same way, neither zoom nor
/// turn the camera: the distance stays, and the line between them has no
/// cross product with itself.
pub proof fn lemma_whole_move_changes_nothing(
    state: CameraState,
    new_a: Point,
    new_b: Point,
    old_a: Point,
    old_b: Point,
)
    requires
        state.valid(),
        new_a.x - new_b.x == old_a.x - old_b.x,
        new_a.y - new_b.y == old_a.y - old_b.y,
    ensures
        state.zoomed(new_a, new_b, old_a, old_b) == state,
        state.twist(new_a, new_b, old_a, old_b).0 == 0,
        state.twist(new_a, new_b, old_a, old_b).1 >= 0,
{
    if state.has_viewport() {
        let x = crate::camera::scene_length(old_a.x - old_b.x, state.width);
        let y = crate::camera::scene_length(
            state.flipped(old_a.y as int) - state.flipped(old_b.y as int),
            state.height,
        );
        assert(x * y - y * x == 0 && x * x + y * y >= 0) by (nonlinear_arith);
    }
}

/// Fingers that spread never take the camera away, and fingers that close in
/// never bring it nearer.
pub proof fn lemma_zoom_direction(
    state: CameraState,
    new_a: Point,
    new_b: Point,
    old_a: Point,
    old_b: Point,
)
    requires
        state.valid(),
    ensures
        state.span(new_a, new_b) >= state.span(old_a, old_b) ==> state.zoomed(
            new_a,
            new_b,
            old_a,
            old_b,
        ).dist_origin <= state.dist_origin,
        state.span(new_a, new_b) <= state.span(old_a, old_b) ==> state.zoomed(
            new_a,
            new_b,
            old_a,
            old_b,
        ).dist_origin >= state.dist_origin,
{
}

} // verus!
