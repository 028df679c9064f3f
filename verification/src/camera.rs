//! The orbital camera.
//!
//! The camera looks at a target on the ground from a given distance, at a
//! given height above the ground and from a given side. Gestures change these
//! values; whoever draws the scene reads them.
//!
//! Everything is held in integers. Angles are counted in microdegrees, so
//! that the limits of 5°, 90° and ±180° are exact. Lengths in the scene are
//! counted in millionths of a unit. The touch surface reports positions
//! with the origin at the top left; the camera turns the picture upside down,
//! so that up is positive, and measures it in units of which five span the
//! viewport.
//!
//! Sines, cosines and arc tangents are not computed here. Where an operation
//! needs one, the caller hands it in: [`Camera::pan`] takes the [`Heading`]
//! of the camera, and [`Camera::rotate_by`] takes the angle that belongs to
//! the [`Twist`] that [`Camera::twist`] measured. What can be told of such a
//! value without computing it is checked: a heading has length one, and an
//! angle lies in the quadrant of its twist.

use vstd::prelude::*;
use crate::fixed::{
    clamp,
    clamp_to,
    div_toward_zero,
    integer_sqrt,
    is_root,
    isqrt,
    lemma_product_bound,
    lemma_trunc_div_bound,
    saturate,
    saturate_to_i64,
    trunc_div,
    MICRO,
};
use crate::geometry::Point;

verus! {

/// The lowest that the camera can stand above the ground: 5°.
pub const MIN_ANGLE_FROM_GROUND: i64 = 5_000_000;

/// The highest that the camera can stand above the ground: 90°, straight
/// above the target.
pub const MAX_ANGLE_FROM_GROUND: i64 = 90_000_000;

/// A quarter of a turn: 90°.
pub const QUARTER_TURN: i64 = 90_000_000;

/// Half a turn about the vertical axis: 180°. The azimuth is wrapped into
/// the range above `-HALF_TURN` and up to `HALF_TURN`.
pub const HALF_TURN: i64 = 180_000_000;

/// A whole turn about the vertical axis: 360°.
pub const FULL_TURN: i64 = 360_000_000;

/// The nearest that the camera can be to its target: one unit.
pub const MIN_DISTANCE: i64 = 1_000_000;

/// The farthest that the camera can be from its target: 40 units.
pub const MAX_DISTANCE: i64 = 40_000_000;

/// The largest width or height of a viewport that gestures are measured
/// against: the largest coordinate of a position.
pub const MAX_EXTENT: usize = 0x7fff_ffff;

/// How many scene units span the viewport, in width and in height.
pub const UNITS_PER_VIEWPORT: i64 = 5;

/// The microdegrees in one radian, rounded. A drag of one scene unit turns
/// the camera by one radian before damping.
pub const MICRODEGREES_PER_RADIAN: i64 = 57_295_780;

/// By how much a vertical drag of two fingers is damped before it changes
/// the elevation: eight times as much as a horizontal one. Tunable.
pub const VERTICAL_DAMPING: i64 = 64;

/// By how much a horizontal drag of two fingers is damped before it changes
/// the azimuth. Tunable.
pub const HORIZONTAL_DAMPING: i64 = 8;

/// How far the squared length of a [`Heading`] may be from the square of a
/// million: what rounding a sine and a cosine to millionths can make of it.
pub const HEADING_SLACK: i64 = 1_414_214;

/// By how much a change of the span between two fingers, in scene units,
/// changes the distance. Tunable.
pub const ZOOM_GAIN: i64 = 3;

/// The sine and the cosine of the camera's azimuth, in millionths.
#[derive(Clone, Copy, Debug, PartialEq, Eq, Structural)]
pub struct Heading {
    pub sin: i32,
    pub cos: i32,
}

impl Heading {
    /// Whether the heading has length one, as the sine and cosine of one
    /// angle have: the sum of the squares is within [`HEADING_SLACK`] of the
    /// square of a million.
    pub open spec fn is_unit(self) -> bool {
        let length2 = self.sin * self.sin + self.cos * self.cos;
        MICRO * MICRO - HEADING_SLACK <= length2 <= MICRO * MICRO + HEADING_SLACK
    }

    /// Tests whether the heading has length one.
    pub fn check(&self) -> (unit: bool)
        ensures
            unit == self.is_unit(),
    {
        proof {
            lemma_scales();
            lemma_product_bound(self.sin as int, self.sin as int, 0x8000_0000, 0x8000_0000);
            lemma_product_bound(self.cos as int, self.cos as int, 0x8000_0000, 0x8000_0000);
        }
        let sin = self.sin as i128;
        let cos = self.cos as i128;
        let length2: i128 = sin * sin + cos * cos;
        let whole: i128 = MICRO as i128 * MICRO as i128;
        whole - HEADING_SLACK as i128 <= length2 && length2 <= whole + HEADING_SLACK as i128
    }
}

/// How the line between two fingers has turned: the cross product and the
/// inner product of the line after the move with the line before it, both
/// measured in the scene. The angle between the two lines is the arc tangent
/// of `cross / dot`, in the quadrant that the two signs give.
#[derive(Clone, Copy, Debug, PartialEq, Eq, Structural)]
pub struct Twist {
    pub cross: i128,
    pub dot: i128,
}

impl Twist {
    /// Whether `angle`, in microdegrees and rounded, can be the angle of this
    /// twist. It is at most half a turn either way. Its sign is that of the
    /// cross product, and it is less or more than a quarter of a turn as the
    /// inner product is positive or negative. With no cross product it is 0
    /// or, for lines that point in opposite ways, half a turn.
    pub open spec fn fits(self, angle: int) -> bool {
        &&& -HALF_TURN <= angle <= HALF_TURN
        &&& self.cross > 0 ==> angle >= 0
        &&& self.cross < 0 ==> angle <= 0
        &&& self.dot > 0 ==> -QUARTER_TURN <= angle <= QUARTER_TURN
        &&& self.dot < 0 ==> angle <= -QUARTER_TURN || angle >= QUARTER_TURN
        &&& self.dot == 0 && self.cross != 0 ==> angle == QUARTER_TURN || angle == -QUARTER_TURN
        &&& self.cross == 0 && self.dot >= 0 ==> angle == 0
        &&& self.cross == 0 && self.dot < 0 ==> angle == HALF_TURN || angle == -HALF_TURN
    }

    /// Tests whether `angle` can be the angle of this twist.
    pub fn admits(&self, angle: i64) -> (fits: bool)
        ensures
            fits == self.fits(angle as int),
    {
        -HALF_TURN <= angle && angle <= HALF_TURN && (self.cross <= 0 || angle >= 0) && (self.cross
            >= 0 || angle <= 0) && (self.dot <= 0 || (-QUARTER_TURN <= angle && angle
            <= QUARTER_TURN)) && (self.dot >= 0 || angle <= -QUARTER_TURN || angle
            >= QUARTER_TURN) && (self.dot != 0 || self.cross == 0 || angle == QUARTER_TURN || angle
            == -QUARTER_TURN) && (self.cross != 0 || self.dot < 0 || angle == 0) && (self.cross != 0
            || self.dot >= 0 || angle == HALF_TURN || angle == -HALF_TURN)
    }
}

/// The angle, in microdegrees, by which a drag of `d` pixels turns the camera
/// on a viewport that is `extent` pixels across. The viewport spans
/// [`UNITS_PER_VIEWPORT`] units, a unit counts for a radian, and the angle is
/// divided by `damping`.
pub open spec fn angle_step(d: int, extent: int, damping: int) -> int {
    trunc_div(d * (UNITS_PER_VIEWPORT * MICRODEGREES_PER_RADIAN), damping * extent)
}

/// The length in the scene, in millionths of a unit, of `d` pixels on a
/// viewport that is `extent` pixels across.
pub open spec fn scene_length(d: int, extent: int) -> int {
    trunc_div(d * (UNITS_PER_VIEWPORT * MICRO), extent)
}

/// The angle that differs from `angle` by whole turns and lies above
/// `-HALF_TURN` and at most at `HALF_TURN`.
pub open spec fn wrap(angle: int) -> int {
    HALF_TURN - ((HALF_TURN - angle) % (FULL_TURN as int))
}

/// What the camera holds: the mathematical value of a [`Camera`].
pub struct CameraState {
    /// The width of the viewport in pixels; 0 until it is set.
    pub width: int,
    /// The height of the viewport in pixels; 0 until it is set.
    pub height: int,
    /// The elevation of the camera above the ground, in microdegrees.
    pub angle_from_ground: int,
    /// The azimuth of the camera about the vertical axis, in microdegrees.
    pub angle_about_y: int,
    /// The distance from the camera to its target, in millionths of a unit.
    pub dist_origin: int,
    /// Where on the ground the camera looks, in millionths of a unit.
    pub x_target: int,
    /// See `x_target`.
    pub z_target: int,
}

impl CameraState {
    /// The camera before any gesture: 45° above the ground, ten units from
    /// the origin, facing along the azimuth 0, with no viewport yet.
    pub open spec fn initial() -> CameraState {
        CameraState {
            width: 0,
            height: 0,
            angle_from_ground: 45_000_000,
            angle_about_y: 0,
            dist_origin: 10_000_000,
            x_target: 0,
            z_target: 0,
        }
    }

    /// Whether elevation and distance are within their limits.
    pub open spec fn within_limits(self) -> bool {
        &&& MIN_ANGLE_FROM_GROUND <= self.angle_from_ground <= MAX_ANGLE_FROM_GROUND
        &&& MIN_DISTANCE <= self.dist_origin <= MAX_DISTANCE
    }

    /// Whether the state is one that a [`Camera`] can hold: elevation and
    /// distance are within their limits, and the extents of the viewport,
    /// the azimuth and the target fit their fields. The viewport may be
    /// unset.
    pub open spec fn valid(self) -> bool {
        &&& self.within_limits()
        &&& 0 <= self.width <= usize::MAX
        &&& 0 <= self.height <= usize::MAX
        &&& i64::MIN <= self.angle_about_y <= i64::MAX
        &&& i64::MIN <= self.x_target <= i64::MAX
        &&& i64::MIN <= self.z_target <= i64::MAX
    }

    /// Whether the azimuth is above `-HALF_TURN` and at most `HALF_TURN`.
    pub open spec fn wrapped(self) -> bool {
        -HALF_TURN < self.angle_about_y <= HALF_TURN
    }

    /// Whether a viewport is set that gestures can be measured against:
    /// width and height are positive and at most [`MAX_EXTENT`]. Without one
    /// a position on the screen has no place in the scene, and no gesture
    /// moves the camera.
    pub open spec fn has_viewport(self) -> bool {
        0 < self.width <= MAX_EXTENT && 0 < self.height <= MAX_EXTENT
    }

    /// The height of a screen row above the bottom of the viewport.
    pub open spec fn flipped(self, y: int) -> int {
        self.height - y
    }

    /// The squared separation of two positions, weighed by the viewport:
    /// `dx² · height² + dy² · width²` for positions `dx` apart across and
    /// `dy` down. The squared distance of the two in the scene is this, times
    /// 25 and divided by `width² · height²`.
    pub open spec fn separation2(self, a: Point, b: Point) -> int {
        let across = (a.x - b.x) * self.height;
        let down = (a.y - b.y) * self.width;
        across * across + down * down
    }

    /// The distance in the scene between two positions on the screen, in
    /// millionths of a unit: the root of [`separation2`](Self::separation2),
    /// rounded down, measured in the scene and rounded down again.
    pub open spec fn span(self, a: Point, b: Point) -> int {
        trunc_div(
            UNITS_PER_VIEWPORT * MICRO * isqrt(self.separation2(a, b)),
            self.width * self.height,
        )
    }

    /// The camera after the viewport was set to `width` by `height` pixels.
    pub open spec fn resized(self, width: int, height: int) -> CameraState {
        CameraState { width, height, ..self }
    }

    /// By how much a drag of two fingers from `old` to `new` raises the
    /// camera, before the elevation is clamped: downward on the screen is
    /// upward for the camera.
    pub open spec fn lift(self, new: Point, old: Point) -> int {
        -angle_step(
            self.flipped(new.y as int) - self.flipped(old.y as int),
            self.height,
            VERTICAL_DAMPING as int,
        )
    }

    /// By how much a drag of two fingers from `old` to `new` turns the
    /// camera, before the azimuth is wrapped.
    pub open spec fn swing(self, new: Point, old: Point) -> int {
        angle_step(new.x - old.x, self.width, HORIZONTAL_DAMPING as int)
    }

    /// The camera after two fingers were dragged the same way, one of them
    /// from `old` to `new`.
    ///
    /// The vertical part of the drag changes the elevation, which is then
    /// clamped to its limits. The horizontal part changes the azimuth, which
    /// is then brought back by whole turns into its range.
    pub open spec fn tilted(self, new: Point, old: Point) -> CameraState {
        if self.has_viewport() {
            CameraState {
                angle_from_ground: clamp(
                    self.angle_from_ground + self.lift(new, old),
                    MIN_ANGLE_FROM_GROUND as int,
                    MAX_ANGLE_FROM_GROUND as int,
                ),
                angle_about_y: wrap(self.angle_about_y + self.swing(new, old)),
                ..self
            }
        } else {
            self
        }
    }

    /// The camera after one finger was dragged from `old` to `new` while the
    /// camera had the given heading.
    ///
    /// The drag is measured in the scene, turned by the heading so that it
    /// is relative to where the camera faces, scaled by the square root of
    /// the distance so that a near camera pans less than a far one, and added
    /// to the target.
    pub open spec fn panned(self, new: Point, old: Point, heading: Heading) -> CameraState {
        if self.has_viewport() {
            let dx = scene_length(new.x - old.x, self.width);
            let dy = -scene_length(
                self.flipped(new.y as int) - self.flipped(old.y as int),
                self.height,
            );
            let reach = isqrt(self.dist_origin * MICRO);
            CameraState {
                x_target: saturate(
                    self.x_target + trunc_div(
                        (dx * heading.cos - dy * heading.sin) * reach,
                        MICRO * MICRO,
                    ),
                ),
                z_target: saturate(
                    self.z_target + trunc_div(
                        (dx * heading.sin + dy * heading.cos) * reach,
                        MICRO * MICRO,
                    ),
                ),
                ..self
            }
        } else {
            self
        }
    }

    /// The camera after two fingers moved from `old_a` and `old_b` to `new_a`
    /// and `new_b`, closing in or spreading.
    ///
    /// The distance grows by [`ZOOM_GAIN`] times what the span between the
    /// fingers has lost, and is then clamped to its limits: fingers that
    /// spread bring the camera nearer, fingers that close in take it away.
    pub open spec fn zoomed(self, new_a: Point, new_b: Point, old_a: Point, old_b: Point)
        -> CameraState {
        if self.has_viewport() {
            CameraState {
                dist_origin: clamp(
                    self.dist_origin + ZOOM_GAIN * (self.span(old_a, old_b) - self.span(
                        new_a,
                        new_b,
                    )),
                    MIN_DISTANCE as int,
                    MAX_DISTANCE as int,
                ),
                ..self
            }
        } else {
            self
        }
    }

    /// How the line between two fingers turned when they moved from `old_a`
    /// and `old_b` to `new_a` and `new_b`: the cross product and the inner
    /// product of the new line with the old one, as a pair. Both are 0
    /// without a viewport.
    pub open spec fn twist(self, new_a: Point, new_b: Point, old_a: Point, old_b: Point) -> (
        int,
        int,
    ) {
        if self.has_viewport() {
            let new_x = scene_length(new_a.x - new_b.x, self.width);
            let new_y = scene_length(
                self.flipped(new_a.y as int) - self.flipped(new_b.y as int),
                self.height,
            );
            let old_x = scene_length(old_a.x - old_b.x, self.width);
            let old_y = scene_length(
                self.flipped(old_a.y as int) - self.flipped(old_b.y as int),
                self.height,
            );
            (new_x * old_y - new_y * old_x, new_x * old_x + new_y * old_y)
        } else {
            (0, 0)
        }
    }

    /// The camera after it was turned by `angle` microdegrees. The azimuth
    /// is not wrapped.
    pub open spec fn rotated(self, angle: int) -> CameraState {
        CameraState { angle_about_y: saturate(self.angle_about_y + angle), ..self }
    }
}

/// An orbital camera that gestures move.
#[derive(Debug)]
pub struct Camera {
    width: usize,
    height: usize,
    angle_from_ground: i64,
    angle_about_y: i64,
    dist_origin: i64,
    x_target: i64,
    z_target: i64,
}

impl View for Camera {
    type V = CameraState;

    closed spec fn view(&self) -> CameraState {
        CameraState {
            width: self.width as int,
            height: self.height as int,
            angle_from_ground: self.angle_from_ground as int,
            angle_about_y: self.angle_about_y as int,
            dist_origin: self.dist_origin as int,
            x_target: self.x_target as int,
            z_target: self.z_target as int,
        }
    }
}

impl Default for Camera {
    /// The camera before any gesture.
    fn default() -> (camera: Camera)
        ensures
            camera@ == CameraState::initial(),
            camera@.valid(),
    {
        Camera {
            width: 0,
            height: 0,
            angle_from_ground: 45_000_000,
            angle_about_y: 0,
            dist_origin: 10_000_000,
            x_target: 0,
            z_target: 0,
        }
    }
}

/// The values of the products of constants that the formulas use.
proof fn lemma_scales()
    ensures
        UNITS_PER_VIEWPORT * MICRO == 5_000_000,
        UNITS_PER_VIEWPORT * MICRODEGREES_PER_RADIAN == 286_478_900,
        MICRO * MICRO == 1_000_000_000_000,
{
    assert(UNITS_PER_VIEWPORT * MICRO == 5_000_000) by (nonlinear_arith)
        requires
            UNITS_PER_VIEWPORT == 5,
            MICRO == 1_000_000,
    ;
    assert(UNITS_PER_VIEWPORT * MICRODEGREES_PER_RADIAN == 286_478_900) by (nonlinear_arith)
        requires
            UNITS_PER_VIEWPORT == 5,
            MICRODEGREES_PER_RADIAN == 57_295_780,
    ;
    assert(MICRO * MICRO == 1_000_000_000_000) by (nonlinear_arith)
        requires
            MICRO == 1_000_000,
    ;
}

/// Measures `d` pixels in the scene: see [`scene_length`].
fn scene_length_of(d: i128, extent: usize) -> (len: i128)
    requires
        extent > 0,
        -0x1_0000_0000 <= d <= 0x1_0000_0000,
    ensures
        len == scene_length(d as int, extent as int),
        -21_474_836_480_000_000 <= len <= 21_474_836_480_000_000,
{
    proof {
        lemma_scales();
        lemma_trunc_div_bound(d * 5_000_000, extent as int, 21_474_836_480_000_000);
    }
    let scale: i128 = UNITS_PER_VIEWPORT as i128 * MICRO as i128;
    div_toward_zero(d * scale, extent as i128)
}

/// Turns a drag of `d` pixels into an angle: see [`angle_step`].
fn angle_step_of(d: i128, extent: usize, damping: i64) -> (step: i128)
    requires
        extent > 0,
        1 <= damping <= 1024,
        -0x1_0000_0000 <= d <= 0x1_0000_0000,
    ensures
        step == angle_step(d as int, extent as int, damping as int),
        -1_230_417_506_494_054_400 <= step <= 1_230_417_506_494_054_400,
{
    proof {
        lemma_product_bound(damping as int, extent as int, 1024, 0x1_0000_0000_0000_0000);
        assert(damping * extent >= 1) by (nonlinear_arith)
            requires
                damping >= 1,
                extent >= 1,
        ;
        assert(1_230_417_506_494_054_400 * (damping * extent) >= 1_230_417_506_494_054_400)
            by (nonlinear_arith)
            requires
                damping * extent >= 1,
        ;
        lemma_scales();
        lemma_trunc_div_bound(d * 286_478_900, damping * extent, 1_230_417_506_494_054_400);
    }
    let scale: i128 = UNITS_PER_VIEWPORT as i128 * MICRODEGREES_PER_RADIAN as i128;
    div_toward_zero(d * scale, damping as i128 * extent as i128)
}

/// Brings an angle back by whole turns: see [`wrap`].
fn wrap_of(angle: i128) -> (wrapped: i64)
    requires
        -0x1_0000_0000_0000_0000 <= angle <= 0x1_0000_0000_0000_0000,
    ensures
        wrapped == wrap(angle as int),
        -HALF_TURN < wrapped <= HALF_TURN,
{
    let full: i128 = FULL_TURN as i128;
    let short: i128 = HALF_TURN as i128 - angle;
    let over: i128 = if short >= 0 {
        short % full
    } else {
        let under: i128 = (-short) % full;
        if under == 0 {
            0
        } else {
            full - under
        }
    };
    assert(over == short % 360_000_000);
    (HALF_TURN as i128 - over) as i64
}

impl Camera {
    #[verifier::type_invariant]
    spec fn limits_hold(self) -> bool {
        &&& MIN_ANGLE_FROM_GROUND <= self.angle_from_ground <= MAX_ANGLE_FROM_GROUND
        &&& MIN_DISTANCE <= self.dist_origin <= MAX_DISTANCE
    }

    /// The elevation of the camera above the ground, in microdegrees.
    pub fn angle_from_ground(&self) -> (angle: i64)
        ensures
            angle == self@.angle_from_ground,
            MIN_ANGLE_FROM_GROUND <= angle <= MAX_ANGLE_FROM_GROUND,
    {
        proof {
            use_type_invariant(self);
        }
        self.angle_from_ground
    }

    /// The azimuth of the camera about the vertical axis, in microdegrees.
    pub fn angle_about_y(&self) -> (angle: i64)
        ensures
            angle == self@.angle_about_y,
    {
        self.angle_about_y
    }

    /// The distance from the camera to its target, in millionths of a unit.
    pub fn dist_origin(&self) -> (distance: i64)
        ensures
            distance == self@.dist_origin,
            MIN_DISTANCE <= distance <= MAX_DISTANCE,
    {
        proof {
            use_type_invariant(self);
        }
        self.dist_origin
    }

    /// Where on the ground the camera looks, in millionths of a unit: first
    /// along x, then along z.
    pub fn target(&self) -> (target: (i64, i64))
        ensures
            target.0 == self@.x_target,
            target.1 == self@.z_target,
    {
        (self.x_target, self.z_target)
    }

    /// The size of the viewport in pixels, width first; 0 by 0 until it is
    /// set.
    pub fn viewport(&self) -> (size: (usize, usize))
        ensures
            size.0 == self@.width,
            size.1 == self@.height,
    {
        (self.width, self.height)
    }

    /// Whether a viewport is set that gestures can be measured against.
    pub fn has_viewport(&self) -> (set: bool)
        ensures
            set == self@.has_viewport(),
    {
        0 < self.width && self.width <= MAX_EXTENT && 0 < self.height && self.height
            <= MAX_EXTENT
    }

    /// Sets the size of the viewport in pixels, width first. Every gesture
    /// is measured against it.
    pub fn size(&mut self, size: (usize, usize))
        ensures
            final(self)@ == old(self)@.resized(size.0 as int, size.1 as int),
            final(self)@.valid(),
    {
        proof {
            use_type_invariant(&*self);
        }
        self.width = size.0;
        self.height = size.1;
    }

    /// Two fingers were dragged the same way, one of them from `before` to
    /// `new`: see [`CameraState::tilted`].
    ///
    /// With a viewport the elevation is within its limits afterwards and the
    /// azimuth in its range, whatever they were and however far the fingers
    /// went.
    pub fn two_fingers_same_direction(&mut self, new: Point, before: Point)
        ensures
            final(self)@ == old(self)@.tilted(new, before),
            final(self)@.valid(),
            old(self)@.has_viewport() ==> final(self)@.wrapped(),
    {
        proof {
            use_type_invariant(&*self);
        }
        if !self.has_viewport() {
            return;
        }
        let height = self.height as i128;
        let rise: i128 = (height - new.y as i128) - (height - before.y as i128);
        let run: i128 = new.x as i128 - before.x as i128;
        let lift: i128 = -angle_step_of(rise, self.height, VERTICAL_DAMPING);
        let swing: i128 = angle_step_of(run, self.width, HORIZONTAL_DAMPING);
        self.angle_from_ground = clamp_to(
            self.angle_from_ground as i128 + lift,
            MIN_ANGLE_FROM_GROUND,
            MAX_ANGLE_FROM_GROUND,
        );
        self.angle_about_y = wrap_of(self.angle_about_y as i128 + swing);
    }

    /// One finger was dragged from `before` to `new`, and `heading` holds the
    /// sine and cosine of the azimuth: see [`CameraState::panned`].
    pub fn pan(&mut self, new: Point, before: Point, heading: Heading)
        requires
            heading.is_unit(),
        ensures
            final(self)@ == old(self)@.panned(new, before, heading),
            final(self)@.valid(),
    {
        proof {
            use_type_invariant(&*self);
        }
        if !self.has_viewport() {
            return;
        }
        let height = self.height as i128;
        let dx: i128 = scene_length_of(new.x as i128 - before.x as i128, self.width);
        let dy: i128 = -scene_length_of(
            (height - new.y as i128) - (height - before.y as i128),
            self.height,
        );
        let reach: i128 = integer_sqrt((self.dist_origin as i128 * MICRO as i128) as u128) as i128;
        let sin = heading.sin as i128;
        let cos = heading.cos as i128;
        let ghost side: int = 21_474_836_480_000_000;
        let ghost turn: int = 0x8000_0000;
        proof {
            lemma_scales();
            lemma_product_bound(dx as int, cos as int, side, turn);
            lemma_product_bound(dy as int, sin as int, side, turn);
            lemma_product_bound(dx as int, sin as int, side, turn);
            lemma_product_bound(dy as int, cos as int, side, turn);
            assert(side * turn == 46_116_860_184_273_879_040_000_000);
            assert(reach <= 6_324_555) by (nonlinear_arith)
                requires
                    is_root(self.dist_origin * MICRO, reach as int),
                    self.dist_origin <= MAX_DISTANCE,
            ;
            lemma_product_bound(
                dx * cos - dy * sin,
                reach as int,
                92_233_720_368_547_758_080_000_000,
                6_324_555,
            );
            lemma_product_bound(
                dx * sin + dy * cos,
                reach as int,
                92_233_720_368_547_758_080_000_000,
                6_324_555,
            );
            assert(92_233_720_368_547_758_080_000_000 * 6_324_555
                == 583_337_237_325_500_566_103_654_400_000_000);
            lemma_trunc_div_bound(
                (dx * cos - dy * sin) * reach,
                MICRO * MICRO,
                583_337_237_325_500_566_103_654_400_000_000,
            );
            lemma_trunc_div_bound(
                (dx * sin + dy * cos) * reach,
                MICRO * MICRO,
                583_337_237_325_500_566_103_654_400_000_000,
            );
        }
        let whole: i128 = MICRO as i128 * MICRO as i128;
        let along_x: i128 = div_toward_zero((dx * cos - dy * sin) * reach, whole);
        let along_z: i128 = div_toward_zero((dx * sin + dy * cos) * reach, whole);
        self.x_target = saturate_to_i64(self.x_target as i128 + along_x);
        self.z_target = saturate_to_i64(self.z_target as i128 + along_z);
    }

    /// The distance in the scene between two positions on the screen: see
    /// [`CameraState::span`].
    fn span_of(&self, a: Point, b: Point) -> (span: i128)
        requires
            self@.has_viewport(),
        ensures
            span == self@.span(a, b),
            0 <= span <= 92_233_720_368_547_758_080_000_000,
    {
        let ghost edge: int = 0x8000_0000;
        let ghost gap: int = 0x1_0000_0000;
        proof {
            lemma_product_bound(a.x - b.x, self.height as int, gap, edge);
            lemma_product_bound(a.y - b.y, self.width as int, gap, edge);
            assert(gap * edge == 0x8000_0000_0000_0000);
        }
        let across: i128 = (a.x as i128 - b.x as i128) * self.height as i128;
        let down: i128 = (a.y as i128 - b.y as i128) * self.width as i128;
        proof {
            lemma_product_bound(
                across as int,
                across as int,
                0x8000_0000_0000_0000,
                0x8000_0000_0000_0000,
            );
            lemma_product_bound(
                down as int,
                down as int,
                0x8000_0000_0000_0000,
                0x8000_0000_0000_0000,
            );
            assert(across * across >= 0 && down * down >= 0) by (nonlinear_arith);
            assert(0x8000_0000_0000_0000 * 0x8000_0000_0000_0000
                == 0x4000_0000_0000_0000_0000_0000_0000_0000);
            assert(self.width * self.height >= 1) by (nonlinear_arith)
                requires
                    self.width >= 1,
                    self.height >= 1,
            ;
            lemma_product_bound(self.width as int, self.height as int, edge, edge);
        }
        let square: u128 = (across * across) as u128 + (down * down) as u128;
        let root: u64 = integer_sqrt(square);
        let scale: i128 = UNITS_PER_VIEWPORT as i128 * MICRO as i128;
        let area: i128 = self.width as i128 * self.height as i128;
        proof {
            lemma_scales();
            assert(92_233_720_368_547_758_080_000_000 * area >= 5_000_000 * root)
                by (nonlinear_arith)
                requires
                    area >= 1,
                    0 <= root <= 0xffff_ffff_ffff_ffff,
            ;
            lemma_trunc_div_bound(5_000_000 * root, area as int, 92_233_720_368_547_758_080_000_000);
        }
        div_toward_zero(scale * root as i128, area)
    }

    /// Two fingers moved from `old_a` and `old_b` to `new_a` and `new_b`,
    /// closing in or spreading: see [`CameraState::zoomed`].
    pub fn zoom(&mut self, new_a: Point, new_b: Point, old_a: Point, old_b: Point)
        ensures
            final(self)@ == old(self)@.zoomed(new_a, new_b, old_a, old_b),
            final(self)@.valid(),
    {
        proof {
            use_type_invariant(&*self);
        }
        if !self.has_viewport() {
            return;
        }
        let lost: i128 = self.span_of(old_a, old_b) - self.span_of(new_a, new_b);
        proof {
            lemma_product_bound(
                ZOOM_GAIN as int,
                lost as int,
                3,
                92_233_720_368_547_758_080_000_000,
            );
        }
        self.dist_origin = clamp_to(
            self.dist_origin as i128 + ZOOM_GAIN as i128 * lost,
            MIN_DISTANCE,
            MAX_DISTANCE,
        );
    }

    /// Measures how the line between two fingers turned when they moved from
    /// `old_a` and `old_b` to `new_a` and `new_b`: see
    /// [`CameraState::twist`]. The camera does not change.
    pub fn twist(&self, new_a: Point, new_b: Point, old_a: Point, old_b: Point) -> (twist: Twist)
        ensures
            (twist.cross as int, twist.dot as int) == self@.twist(new_a, new_b, old_a, old_b),
    {
        if !self.has_viewport() {
            return Twist { cross: 0, dot: 0 };
        }
        let height = self.height as i128;
        let new_x: i128 = scene_length_of(new_a.x as i128 - new_b.x as i128, self.width);
        let new_y: i128 = scene_length_of(
            (height - new_a.y as i128) - (height - new_b.y as i128),
            self.height,
        );
        let old_x: i128 = scene_length_of(old_a.x as i128 - old_b.x as i128, self.width);
        let old_y: i128 = scene_length_of(
            (height - old_a.y as i128) - (height - old_b.y as i128),
            self.height,
        );
        let ghost side: int = 21_474_836_480_000_000;
        proof {
            lemma_product_bound(new_x as int, old_y as int, side, side);
            lemma_product_bound(new_y as int, old_x as int, side, side);
            lemma_product_bound(new_x as int, old_x as int, side, side);
            lemma_product_bound(new_y as int, old_y as int, side, side);
            assert(side * side == 461_168_601_842_738_790_400_000_000_000_000);
        }
        Twist { cross: new_x * old_y - new_y * old_x, dot: new_x * old_x + new_y * old_y }
    }

    /// Turns the camera by `angle` microdegrees: see
    /// [`CameraState::rotated`]. The azimuth is not wrapped.
    pub fn rotate(&mut self, angle: i64)
        ensures
            final(self)@ == old(self)@.rotated(angle as int),
            final(self)@.valid(),
    {
        proof {
            use_type_invariant(&*self);
        }
        self.angle_about_y = saturate_to_i64(self.angle_about_y as i128 + angle as i128);
    }

    /// Turns the camera as one finger has turned about another: by `angle`,
    /// the angle of `twist` in microdegrees, if it can be that angle. An
    /// angle that does not fit the twist is refused, and nothing changes.
    pub fn rotate_by(&mut self, twist: Twist, angle: i64) -> (turned: bool)
        ensures
            turned == twist.fits(angle as int),
            turned ==> final(self)@ == old(self)@.rotated(angle as int),
            !turned ==> final(self)@ == old(self)@,
            final(self)@.valid(),
    {
        proof {
            use_type_invariant(&*self);
        }
        if twist.admits(angle) {
            self.rotate(angle);
            true
        } else {
            false
        }
    }
}

} // verus!
