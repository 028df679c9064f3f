use cgmath::{InnerSpace, Vector2};
use orbit_controls::{classify, Gesture, Offset, Point};

fn p(x: i32, y: i32) -> Point {
    Point { x, y }
}

/// The decision as the formulas with cosines put it, in floating point.
/// `None` where a score is too near a threshold for floating point to tell.
fn by_cosines(first_new: Point, first_old: Point, second_new: Point, second_old: Point)
    -> Option<Option<&'static str>> {
    let v = |a: Point, b: Point| Vector2::new((a.x - b.x) as f64, (a.y - b.y) as f64);
    let moving = v(first_new, first_old);
    let other = v(second_new, second_old);
    let axis = v(second_old, first_old);
    if moving.magnitude2() <= 0.0 || other.magnitude2() == 0.0 {
        return Some(None);
    }
    let same = moving.normalize().dot(other.normalize());
    if (same - 0.8).abs() < 1e-9 {
        return None;
    }
    if same > 0.8 {
        return Some(Some("tilt"));
    }
    if axis.magnitude2() == 0.0 {
        return Some(Some("zoom"));
    }
    let radial = axis.normalize().dot(moving.normalize());
    if (radial.abs() - 0.4).abs() < 1e-9 {
        return None;
    }
    if -0.4 <= radial && radial <= 0.4 {
        Some(Some("rotate"))
    } else {
        Some(Some("zoom"))
    }
}

fn name(g: Option<Gesture>) -> Option<&'static str> {
    match g {
        None => None,
        Some(Gesture::Pan { .. }) => Some("pan"),
        Some(Gesture::TiltOrbit { .. }) => Some("tilt"),
        Some(Gesture::Rotate { .. }) => Some("rotate"),
        Some(Gesture::Zoom { .. }) => Some("zoom"),
    }
}

#[test]
fn two_fingers_moving_right_tilt() {
    let g = classify(p(150, 100), p(100, 100), p(250, 100), p(200, 100));
    assert_eq!(g, Some(Gesture::TiltOrbit { new: p(150, 100), old: p(100, 100) }));
}

#[test]
fn finger_moving_across_the_axis_rotates() {
    // The second finger rests at (200,100); it had come there along the axis.
    let g = classify(p(100, 150), p(100, 100), p(200, 100), p(210, 100));
    assert_eq!(
        g,
        Some(Gesture::Rotate {
            new_a: p(100, 150),
            new_b: p(200, 100),
            old_a: p(100, 100),
            old_b: p(210, 100),
        })
    );
}

#[test]
fn second_finger_that_never_moved_makes_no_gesture() {
    let g = classify(p(100, 150), p(100, 100), p(200, 100), p(200, 100));
    assert_eq!(g, None);
}

#[test]
fn fingers_moving_apart_zoom() {
    let g = classify(p(50, 100), p(100, 100), p(250, 100), p(200, 100));
    assert_eq!(
        g,
        Some(Gesture::Zoom {
            new_a: p(50, 100),
            new_b: p(250, 100),
            old_a: p(100, 100),
            old_b: p(200, 100),
        })
    );
}

#[test]
fn first_finger_at_rest_makes_no_gesture() {
    let g = classify(p(100, 100), p(100, 100), p(250, 100), p(200, 100));
    assert_eq!(g, None);
}

#[test]
fn classification_gives_the_same_answer_every_time() {
    let first = classify(p(13, -7), p(10, 4), p(-20, 31), p(-25, 30));
    for _ in 0..100 {
        assert_eq!(classify(p(13, -7), p(10, 4), p(-20, 31), p(-25, 30)), first);
    }
}

#[test]
fn cosine_of_exactly_four_fifths_does_not_tilt() {
    // (4,3) against (1,0): the cosine is 0.8, which is not greater than 0.8.
    // The axis (0,1) makes a cosine of 0.6 with (4,3): along, so a zoom.
    let g = classify(p(4, 3), p(0, 0), p(1, 5), p(0, 5));
    assert_eq!(name(g), Some("zoom"));
    // One step nearer to parallel tilts: (5,3) against (1,0) has cosine 0.857.
    let g = classify(p(5, 3), p(0, 0), p(1, 5), p(0, 5));
    assert_eq!(name(g), Some("tilt"));
}

#[test]
fn movement_across_the_axis_rotates_on_either_side() {
    // The second finger last moved down, the first moves up: no tilt. The
    // axis is (10,0), and the first finger moves nearly at right angles to it.
    let g = classify(p(1, 5), p(0, 0), p(10, -1), p(10, 0));
    assert_eq!(name(g), Some("rotate"));
    let g = classify(p(-1, 5), p(0, 0), p(10, -1), p(10, 0));
    assert_eq!(name(g), Some("rotate"));
    // (2,4) makes a cosine of 0.447 with the axis: just outside the band.
    let g = classify(p(2, 4), p(0, 0), p(10, -1), p(10, 0));
    assert_eq!(name(g), Some("zoom"));
    // (2,5) makes a cosine of 0.371: just inside.
    let g = classify(p(2, 5), p(0, 0), p(10, -1), p(10, 0));
    assert_eq!(name(g), Some("rotate"));
    let g = classify(p(-2, 5), p(0, 0), p(10, -1), p(10, 0));
    assert_eq!(name(g), Some("rotate"));
}

#[test]
fn fingers_that_started_from_one_point_zoom() {
    let g = classify(p(10, 0), p(0, 0), p(0, 10), p(0, 0));
    assert_eq!(name(g), Some("zoom"));
}

#[test]
fn opposite_movement_never_tilts() {
    let g = classify(p(10, 0), p(0, 0), p(90, 50), p(100, 50));
    assert_ne!(name(g), Some("tilt"));
}

#[test]
fn extreme_positions_are_classified() {
    let lo = i32::MIN;
    let hi = i32::MAX;
    let g = classify(p(hi, hi), p(lo, lo), p(hi, hi), p(lo, lo));
    assert_eq!(g, Some(Gesture::TiltOrbit { new: p(hi, hi), old: p(lo, lo) }));
    let g = classify(p(hi, lo), p(lo, hi), p(lo, hi), p(hi, lo));
    assert_eq!(name(g), Some("zoom"));
}

#[test]
fn classification_agrees_with_the_cosines() {
    let first_old = p(0, 0);
    let second_old = p(40, 10);
    let mut compared = 0;
    for mx in -6i32..=6 {
        for my in -6i32..=6 {
            for ox in -3i32..=3 {
                for oy in -3i32..=3 {
                    let first_new = p(first_old.x + mx, first_old.y + my);
                    let second_new = p(second_old.x + ox, second_old.y + oy);
                    let expected = by_cosines(first_new, first_old, second_new, second_old);
                    if let Some(expected) = expected {
                        let got = classify(first_new, first_old, second_new, second_old);
                        assert_eq!(name(got), expected, "{:?} {:?}", first_new, second_new);
                        compared += 1;
                    }
                }
            }
        }
    }
    assert!(compared > 8000);
}

#[test]
fn classification_does_not_depend_on_the_scale() {
    // The same picture a hundred million times as large: every product that
    // is compared takes more than 128 bits.
    let k = 100_000_000;
    let first_old = p(0, 0);
    let second_old = p(4, 1);
    for mx in -5i32..=5 {
        for my in -5i32..=5 {
            for ox in -2i32..=2 {
                for oy in -2i32..=2 {
                    let small = classify(
                        p(mx, my),
                        first_old,
                        p(second_old.x + ox, second_old.y + oy),
                        second_old,
                    );
                    let large = classify(
                        p(k * mx, k * my),
                        first_old,
                        p(k * (second_old.x + ox), k * (second_old.y + oy)),
                        p(k * second_old.x, k * second_old.y),
                    );
                    assert_eq!(name(small), name(large), "{} {} {} {}", mx, my, ox, oy);
                }
            }
        }
    }
    // On the threshold of four fifths, and one step beyond it.
    let g = classify(p(4 * k, 3 * k), p(0, 0), p(k, 5 * k), p(0, 5 * k));
    assert_eq!(name(g), Some("zoom"));
    let g = classify(p(4 * k + 1, 3 * k), p(0, 0), p(k, 5 * k), p(0, 5 * k));
    assert_eq!(name(g), Some("tilt"));
    let g = classify(p(4 * k, 3 * k + 1), p(0, 0), p(k, 5 * k), p(0, 5 * k));
    assert_eq!(name(g), Some("zoom"));
}

#[test]
fn squared_length_agrees_with_the_vector_crate() {
    let a = Offset { dx: 4_294_967_295, dy: -4_294_967_295 };
    let va = Vector2::new(a.dx as i128, a.dy as i128);
    assert_eq!(a.magnitude2() as i128, va.magnitude2());
    assert_eq!(a.magnitude2(), 36_893_488_130_239_234_050);
    let b = Offset { dx: i64::MIN, dy: i64::MIN };
    assert_eq!(b.magnitude2(), 1u128 << 127);
    assert_eq!(Offset { dx: 3, dy: -4 }.magnitude2(), 25);
}

#[test]
fn offset_leads_from_one_point_to_another() {
    let d = p(3, -4).offset_from(p(-7, 6));
    assert_eq!(d, Offset { dx: 10, dy: -10 });
    let d = p(i32::MIN, i32::MAX).offset_from(p(i32::MAX, i32::MIN));
    assert_eq!(d, Offset { dx: -4_294_967_295, dy: 4_294_967_295 });
}
