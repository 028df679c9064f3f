use orbit_controls::{
    Finger, FingerTracker, Gesture, InputEvent, Offset, Phase, Point, TouchError, TouchEvent,
};

fn at(x: i32, y: i32) -> Point {
    Point { x, y }
}

fn touch(id: i64, phase: Phase, x: i32, y: i32) -> TouchEvent {
    TouchEvent { id, phase, position: at(x, y), is_3d: false, device: 0 }
}

#[test]
fn new_tracker_follows_nothing() {
    let t = FingerTracker::new();
    assert_eq!(t.len(), 0);
    assert!(t.ids().is_empty());
    assert_eq!(t.primary(), None);
    assert_eq!(t.secondary(), None);
}

#[test]
fn finger_with_pos_has_not_moved() {
    let f = Finger::with_pos(at(12, 34));
    assert_eq!(f.position, at(12, 34));
    assert_eq!(f.previous, at(12, 34));
    assert!(f.sampled);
    assert_eq!(f.direction(), Offset { dx: 0, dy: 0 });
}

#[test]
fn finger_update_keeps_the_last_displacement() {
    let mut f = Finger::with_pos(at(10, 10));
    f.update(at(13, 6));
    assert_eq!(f.position, at(13, 6));
    assert_eq!(f.direction(), Offset { dx: 3, dy: -4 });
    f.update(at(13, 6));
    assert_eq!(f.direction(), Offset { dx: 0, dy: 0 });
    f.update(at(-20, 0));
    assert_eq!(f.direction(), Offset { dx: -33, dy: -6 });
    // Taking the displacement away from the position gives the one before.
    assert_eq!(f.previous, at(13, 6));
}

#[test]
fn placeholder_is_first_seen_where_it_first_moves() {
    let mut f = Finger::placeholder();
    assert!(!f.sampled);
    assert_eq!(f.position, at(0, 0));
    assert_eq!(f.direction(), Offset { dx: 0, dy: 0 });
    f.update(at(300, 200));
    assert!(f.sampled);
    assert_eq!(f.position, at(300, 200));
    assert_eq!(f.direction(), Offset { dx: 0, dy: 0 });
    f.update(at(301, 200));
    assert_eq!(f.direction(), Offset { dx: 1, dy: 0 });
}

#[test]
fn first_start_makes_the_primary() {
    let mut t = FingerTracker::new();
    t.on_start(7, at(100, 100));
    assert_eq!(t.ids(), &vec![7]);
    assert_eq!(t.primary(), Some(Finger::with_pos(at(100, 100))));
    assert_eq!(t.secondary(), None);
}

#[test]
fn second_start_makes_the_secondary() {
    let mut t = FingerTracker::new();
    t.on_start(7, at(100, 100));
    t.on_start(9, at(200, 100));
    assert_eq!(t.ids(), &vec![7, 9]);
    assert_eq!(t.primary(), Some(Finger::with_pos(at(100, 100))));
    assert_eq!(t.secondary(), Some(Finger::with_pos(at(200, 100))));
}

#[test]
fn third_start_only_joins_the_list() {
    let mut t = FingerTracker::new();
    t.on_start(7, at(100, 100));
    t.on_start(9, at(200, 100));
    t.on_start(11, at(300, 100));
    assert_eq!(t.ids(), &vec![7, 9, 11]);
    assert_eq!(t.primary(), Some(Finger::with_pos(at(100, 100))));
    assert_eq!(t.secondary(), Some(Finger::with_pos(at(200, 100))));
}

#[test]
fn end_of_the_only_finger_empties_the_tracker() {
    let mut t = FingerTracker::new();
    t.on_start(7, at(100, 100));
    t.on_end_or_cancel(7);
    assert_eq!(t.len(), 0);
    assert_eq!(t.primary(), None);
    assert_eq!(t.secondary(), None);
}

#[test]
fn end_of_the_primary_promotes_the_secondary() {
    let mut t = FingerTracker::new();
    t.on_start(7, at(100, 100));
    t.on_start(9, at(200, 100));
    assert_eq!(t.on_move(9, at(210, 105), false, 0), Ok(None));
    t.on_end_or_cancel(7);
    assert_eq!(t.ids(), &vec![9]);
    let mut moved = Finger::with_pos(at(200, 100));
    moved.update(at(210, 105));
    assert_eq!(t.primary(), Some(moved));
    assert_eq!(t.secondary(), None);
}

#[test]
fn end_of_the_primary_with_a_third_finger_waiting() {
    let mut t = FingerTracker::new();
    t.on_start(7, at(100, 100));
    t.on_start(9, at(200, 100));
    t.on_start(11, at(300, 100));
    t.on_end_or_cancel(7);
    assert_eq!(t.ids(), &vec![9, 11]);
    assert_eq!(t.primary(), Some(Finger::with_pos(at(200, 100))));
    assert_eq!(t.secondary(), Some(Finger::placeholder()));
}

#[test]
fn end_of_the_secondary_with_a_third_finger_waiting() {
    let mut t = FingerTracker::new();
    t.on_start(7, at(100, 100));
    t.on_start(9, at(200, 100));
    t.on_start(11, at(300, 100));
    t.on_end_or_cancel(9);
    assert_eq!(t.ids(), &vec![7, 11]);
    assert_eq!(t.primary(), Some(Finger::with_pos(at(100, 100))));
    assert_eq!(t.secondary(), Some(Finger::placeholder()));
}

#[test]
fn end_of_the_secondary_without_a_third_finger() {
    let mut t = FingerTracker::new();
    t.on_start(7, at(100, 100));
    t.on_start(9, at(200, 100));
    t.on_end_or_cancel(9);
    assert_eq!(t.ids(), &vec![7]);
    assert_eq!(t.primary(), Some(Finger::with_pos(at(100, 100))));
    assert_eq!(t.secondary(), None);
}

#[test]
fn end_of_a_waiting_finger_changes_no_role() {
    let mut t = FingerTracker::new();
    t.on_start(7, at(100, 100));
    t.on_start(9, at(200, 100));
    t.on_start(11, at(300, 100));
    t.on_end_or_cancel(11);
    assert_eq!(t.ids(), &vec![7, 9]);
    assert_eq!(t.primary(), Some(Finger::with_pos(at(100, 100))));
    assert_eq!(t.secondary(), Some(Finger::with_pos(at(200, 100))));
}

#[test]
fn end_of_an_unknown_finger_changes_nothing() {
    let mut t = FingerTracker::new();
    t.on_start(7, at(100, 100));
    t.on_end_or_cancel(8);
    assert_eq!(t.ids(), &vec![7]);
    assert_eq!(t.primary(), Some(Finger::with_pos(at(100, 100))));
}

#[test]
fn one_finger_pans_against_its_movement() {
    let mut t = FingerTracker::new();
    t.on_start(7, at(100, 100));
    let asked = t.on_move(7, at(130, 90), false, 0);
    assert_eq!(asked, Ok(Some(Gesture::Pan { new: at(100, 100), old: at(130, 90) })));
    assert_eq!(t.primary().unwrap().position, at(130, 90));
    assert_eq!(t.primary().unwrap().direction(), Offset { dx: 30, dy: -10 });
}

#[test]
fn one_finger_that_stays_does_not_pan() {
    let mut t = FingerTracker::new();
    t.on_start(7, at(100, 100));
    assert_eq!(t.on_move(7, at(100, 100), false, 0), Ok(None));
}

#[test]
fn two_fingers_moving_right_ask_for_a_tilt() {
    let mut t = FingerTracker::new();
    t.on_start(1, at(100, 100));
    t.on_start(2, at(200, 100));
    // The first finger has no displacement yet to compare with.
    assert_eq!(t.on_move(2, at(250, 100), false, 0), Ok(None));
    assert_eq!(
        t.on_move(1, at(150, 100), false, 0),
        Ok(Some(Gesture::TiltOrbit { new: at(150, 100), old: at(100, 100) }))
    );
}

#[test]
fn finger_moving_across_a_resting_finger_asks_for_a_rotation() {
    let mut t = FingerTracker::new();
    t.on_start(1, at(100, 100));
    t.on_start(2, at(210, 100));
    assert_eq!(t.on_move(2, at(200, 100), false, 0), Ok(None));
    assert_eq!(
        t.on_move(1, at(100, 150), false, 0),
        Ok(Some(Gesture::Rotate {
            new_a: at(100, 150),
            new_b: at(200, 100),
            old_a: at(100, 100),
            old_b: at(210, 100),
        }))
    );
}

#[test]
fn finger_moving_beside_a_fresh_finger_asks_for_nothing() {
    let mut t = FingerTracker::new();
    t.on_start(1, at(100, 100));
    t.on_start(2, at(200, 100));
    assert_eq!(t.on_move(1, at(100, 150), false, 0), Ok(None));
    // The move was taken in all the same.
    assert_eq!(t.primary().unwrap().position, at(100, 150));
}

#[test]
fn two_fingers_moving_apart_ask_for_a_zoom() {
    let mut t = FingerTracker::new();
    t.on_start(1, at(100, 100));
    t.on_start(2, at(200, 100));
    assert_eq!(t.on_move(1, at(50, 100), false, 0), Ok(None));
    assert_eq!(
        t.on_move(2, at(250, 100), false, 0),
        Ok(Some(Gesture::Zoom {
            new_a: at(250, 100),
            new_b: at(50, 100),
            old_a: at(200, 100),
            old_b: at(100, 100),
        }))
    );
}

#[test]
fn promoted_finger_makes_no_gesture_with_its_first_move() {
    let mut t = FingerTracker::new();
    t.on_start(1, at(100, 100));
    t.on_start(2, at(200, 100));
    t.on_start(3, at(300, 100));
    assert_eq!(t.on_move(1, at(110, 100), false, 0), Ok(None));
    t.on_end_or_cancel(2);
    // Finger 3 is the secondary now, and nobody knows where it is.
    assert_eq!(t.secondary(), Some(Finger::placeholder()));
    assert_eq!(t.on_move(3, at(310, 120), false, 0), Ok(None));
    assert_eq!(t.secondary(), Some(Finger::with_pos(at(310, 120))));
    // Its second move counts.
    assert_eq!(
        t.on_move(3, at(320, 120), false, 0),
        Ok(Some(Gesture::TiltOrbit { new: at(320, 120), old: at(310, 120) }))
    );
}

#[test]
fn move_beside_a_placeholder_makes_no_gesture() {
    let mut t = FingerTracker::new();
    t.on_start(1, at(100, 100));
    t.on_start(2, at(200, 100));
    t.on_start(3, at(300, 100));
    t.on_end_or_cancel(2);
    assert_eq!(t.on_move(1, at(110, 100), false, 0), Ok(None));
    assert_eq!(t.primary().unwrap().position, at(110, 100));
}

#[test]
fn move_of_a_waiting_finger_is_ignored() {
    let mut t = FingerTracker::new();
    t.on_start(1, at(100, 100));
    t.on_start(2, at(200, 100));
    t.on_start(3, at(300, 100));
    assert_eq!(t.on_move(3, at(350, 100), false, 0), Ok(None));
    assert_eq!(t.ids(), &vec![1, 2, 3]);
    assert_eq!(t.primary(), Some(Finger::with_pos(at(100, 100))));
    assert_eq!(t.secondary(), Some(Finger::with_pos(at(200, 100))));
}

#[test]
fn move_of_an_unknown_finger_joins_the_list() {
    let mut t = FingerTracker::new();
    assert_eq!(t.on_move(5, at(1, 1), false, 0), Ok(None));
    assert_eq!(t.ids(), &vec![5]);
    assert_eq!(t.primary(), None);
    // Known by id only: its moves ask for nothing.
    assert_eq!(t.on_move(5, at(9, 9), false, 0), Ok(None));
    assert_eq!(t.ids(), &vec![5]);
    t.on_start(6, at(0, 0));
    assert_eq!(t.ids(), &vec![5, 6]);
    assert_eq!(t.primary(), None);
    assert_eq!(t.secondary(), Some(Finger::with_pos(at(0, 0))));
    assert_eq!(t.on_move(5, at(9, 9), false, 0), Ok(None));
}

#[test]
fn secondary_without_primary_is_an_error() {
    let mut t = FingerTracker::new();
    assert_eq!(t.on_move(5, at(1, 1), false, 0), Ok(None));
    t.on_start(6, at(0, 0));
    let before = t.secondary();
    assert_eq!(t.on_move(6, at(3, 3), false, 0), Err(TouchError::SecondaryWithoutPrimary));
    assert_eq!(t.ids(), &vec![5, 6]);
    assert_eq!(t.secondary(), before);
}

#[test]
fn three_d_touch_is_refused() {
    let mut t = FingerTracker::new();
    t.on_start(7, at(100, 100));
    assert_eq!(t.on_move(7, at(130, 90), true, 0), Err(TouchError::Touch3d));
    assert_eq!(t.on_move(7, at(130, 90), true, 3), Err(TouchError::Touch3d));
    assert_eq!(t.primary(), Some(Finger::with_pos(at(100, 100))));
}

#[test]
fn touch_of_another_device_is_refused() {
    let mut t = FingerTracker::new();
    t.on_start(7, at(100, 100));
    assert_eq!(t.on_move(7, at(130, 90), false, 1), Err(TouchError::ForeignDevice));
    assert_eq!(t.on_move(7, at(130, 90), false, -1), Err(TouchError::ForeignDevice));
    assert_eq!(t.primary(), Some(Finger::with_pos(at(100, 100))));
}

#[test]
fn start_and_end_are_taken_from_any_device() {
    let mut t = FingerTracker::new();
    let mut e = touch(7, Phase::Start, 1, 2);
    e.is_3d = true;
    e.device = 4;
    assert_eq!(t.handle(&e), Ok(None));
    assert_eq!(t.ids(), &vec![7]);
    e.phase = Phase::End;
    assert_eq!(t.handle(&e), Ok(None));
    assert_eq!(t.len(), 0);
}

#[test]
fn handle_goes_by_the_phase() {
    let mut t = FingerTracker::new();
    assert_eq!(t.handle(&touch(1, Phase::Start, 100, 100)), Ok(None));
    assert_eq!(
        t.handle(&touch(1, Phase::Move, 120, 100)),
        Ok(Some(Gesture::Pan { new: at(100, 100), old: at(120, 100) }))
    );
    assert_eq!(t.handle(&touch(2, Phase::Start, 200, 100)), Ok(None));
    assert_eq!(t.len(), 2);
    assert_eq!(t.handle(&touch(1, Phase::Cancel, 0, 0)), Ok(None));
    assert_eq!(t.ids(), &vec![2]);
    assert_eq!(t.handle(&touch(2, Phase::End, 0, 0)), Ok(None));
    assert_eq!(t.len(), 0);
}

#[test]
fn dispatch_refuses_what_is_no_touch() {
    let mut t = FingerTracker::new();
    assert_eq!(t.dispatch(&InputEvent::Touch(touch(1, Phase::Start, 100, 100))), Ok(None));
    assert_eq!(t.dispatch(&InputEvent::Other), Err(TouchError::UnhandledEvent));
    assert_eq!(t.ids(), &vec![1]);
    assert_eq!(
        t.dispatch(&InputEvent::Touch(touch(1, Phase::Move, 100, 130))),
        Ok(Some(Gesture::Pan { new: at(100, 100), old: at(100, 130) }))
    );
}

#[test]
fn roles_follow_the_live_fingers() {
    // A run that obeys the life of a touch: after every event the list is as
    // long as the number of fingers down, and the roles are filled to match.
    let run = [
        touch(1, Phase::Start, 10, 10),
        touch(1, Phase::Move, 12, 10),
        touch(2, Phase::Start, 50, 50),
        touch(3, Phase::Start, 90, 90),
        touch(2, Phase::Move, 52, 50),
        touch(4, Phase::Start, 20, 90),
        touch(1, Phase::End, 12, 10),
        touch(3, Phase::Move, 91, 90),
        touch(2, Phase::Cancel, 52, 50),
        touch(4, Phase::Move, 21, 90),
        touch(3, Phase::End, 91, 90),
        touch(1, Phase::Start, 5, 5),
        touch(4, Phase::End, 21, 90),
        touch(1, Phase::End, 5, 5),
    ];
    let mut down: Vec<i64> = Vec::new();
    let mut t = FingerTracker::new();
    for e in run.iter() {
        match e.phase {
            Phase::Start => down.push(e.id),
            Phase::Move => {}
            Phase::End | Phase::Cancel => down.retain(|id| *id != e.id),
        }
        let asked = t.handle(e);
        assert_ne!(asked, Err(TouchError::SecondaryWithoutPrimary));
        assert!(asked.is_ok());
        assert_eq!(t.ids(), &down);
        assert!(t.len() <= down.len());
        assert_eq!(t.primary().is_some(), down.len() >= 1);
        assert_eq!(t.secondary().is_some(), down.len() >= 2);
    }
    assert_eq!(t.len(), 0);
}
