//! Following up to two fingers through their touches.
//!
//! The tracker keeps the ids of the fingers that are down, in the order in
//! which they arrived, and a record for the first two of them: the primary
//! and the secondary finger. Every touch event changes that state, and a move
//! may ask the camera for a gesture. The tracker never touches the camera:
//! it hands the gesture back.

use vstd::prelude::*;
use crate::finger::Finger;
use crate::geometry::Point;
use crate::gesture::{classify, gesture_for, Gesture, MOVEMENT_MARGIN_SQ};

verus! {

/// The stage of a finger's touch that an event reports.
#[derive(Clone, Copy, Debug, PartialEq, Eq, Structural)]
pub enum Phase {
    /// The finger came down.
    Start,
    /// The finger moved while down.
    Move,
    /// The finger was lifted.
    End,
    /// The touch was taken away by the system.
    Cancel,
}

/// One event of the touch surface.
#[derive(Clone, Copy, Debug, PartialEq, Eq, Structural)]
pub struct TouchEvent {
    /// The finger's id: the same from its start to its end.
    pub id: i64,
    pub phase: Phase,
    /// Where the finger is.
    pub position: Point,
    /// Whether the surface reports pressure or height with the position.
    pub is_3d: bool,
    /// The number of the device that the event comes from.
    pub device: i64,
}

/// An event of any input device.
#[derive(Clone, Copy, Debug, PartialEq, Eq, Structural)]
pub enum InputEvent {
    Touch(TouchEvent),
    /// A pointer, a wheel, a key, a window: anything but a touch.
    Other,
}

/// Why an event was refused. A refused event leaves the tracker as it was.
#[derive(Clone, Copy, Debug, PartialEq, Eq, Structural)]
pub enum TouchError {
    /// A move came with pressure or height, which is not supported.
    Touch3d,
    /// A move came from a device other than the first.
    ForeignDevice,
    /// A move came for the secondary finger while there is no record of a
    /// primary one. No run of events in which every finger starts before it
    /// moves leads here.
    SecondaryWithoutPrimary,
    /// The event is no touch.
    UnhandledEvent,
}

/// The part that a finger plays when it moves.
pub enum Role {
    /// The only finger that is down.
    Alone,
    /// The first of two or more.
    Primary,
    /// The second of two or more.
    Secondary,
    /// Any other finger.
    Bystander,
}

/// What the tracker knows: the mathematical value of a [`FingerTracker`].
pub struct TrackerState {
    /// The ids of the fingers that are down, oldest first.
    pub ids: Seq<i64>,
    /// The record of the finger whose id comes first.
    pub primary: Option<Finger>,
    /// The record of the finger whose id comes second.
    pub secondary: Option<Finger>,
}

impl TrackerState {
    /// The state in which no finger is down.
    pub open spec fn empty() -> TrackerState {
        TrackerState { ids: Seq::empty(), primary: None, secondary: None }
    }

    /// The state after finger `id` came down at `pos`.
    ///
    /// The id joins the list. The first finger of the list becomes the
    /// primary and the second the secondary; later ones only wait in the list.
    pub open spec fn started(self, id: i64, pos: Point) -> TrackerState {
        let ids = self.ids.push(id);
        TrackerState {
            ids,
            primary: if ids.len() == 1 {
                Some(Finger::seen_at(pos))
            } else {
                self.primary
            },
            secondary: if ids.len() == 2 {
                Some(Finger::seen_at(pos))
            } else {
                self.secondary
            },
        }
    }

    /// The state after finger `id` was lifted or its touch cancelled.
    ///
    /// The id leaves the list, and the fingers behind it move up. When the
    /// primary finger leaves, the secondary takes its place with its record.
    /// A finger that moves up into the secondary's place gets a placeholder
    /// for a record. An id that is not in the list changes nothing.
    pub open spec fn ended(self, id: i64) -> TrackerState {
        match self.ids.index_of_first(id) {
            None => self,
            Some(at) => {
                let ids = self.ids.remove(at);
                let heir = if ids.len() >= 2 {
                    Some(Finger::unseen())
                } else {
                    None
                };
                if at == 0 {
                    TrackerState {
                        ids,
                        primary: if ids.len() == 0 {
                            None
                        } else {
                            self.secondary
                        },
                        secondary: heir,
                    }
                } else if at == 1 {
                    TrackerState { ids, primary: self.primary, secondary: heir }
                } else {
                    TrackerState { ids, primary: self.primary, secondary: self.secondary }
                }
            },
        }
    }

    /// The part that finger `id` plays in a move.
    pub open spec fn role_of(self, id: i64) -> Role {
        if self.ids.len() == 1 && self.ids[0] == id {
            Role::Alone
        } else if self.ids.len() >= 2 && self.ids[0] == id {
            Role::Primary
        } else if self.ids.len() >= 2 && self.ids[1] == id {
            Role::Secondary
        } else {
            Role::Bystander
        }
    }

    /// What a move of finger `id` to `pos` asks for, when the event is of a
    /// supported kind.
    ///
    /// A finger alone pans, against its own movement, once it has moved by
    /// more than the margin. Of two fingers the one that moved is the first
    /// argument of [`gesture_for`]; the other one lends its last position and
    /// the position before that. A finger whose record is a placeholder is
    /// only being seen for the first time and makes no gesture. A move that
    /// finds a record missing makes none either, but for the secondary
    /// finger without a primary, which is an error.
    pub open spec fn move_outcome(self, id: i64, pos: Point) -> Result<Option<Gesture>, TouchError> {
        match self.role_of(id) {
            Role::Alone => match self.primary {
                Some(p) => Ok(
                    if p.moved_to(pos).displacement().norm2() > MOVEMENT_MARGIN_SQ {
                        Some(Gesture::Pan { new: p.position, old: pos })
                    } else {
                        None
                    },
                ),
                None => Ok(None),
            },
            Role::Primary => match (self.primary, self.secondary) {
                (Some(p), Some(s)) => Ok(
                    if p.sampled {
                        gesture_for(pos, p.position, s.position, s.previous)
                    } else {
                        None
                    },
                ),
                _ => Ok(None),
            },
            Role::Secondary => match (self.primary, self.secondary) {
                (None, _) => Err(TouchError::SecondaryWithoutPrimary),
                (Some(p), Some(s)) => Ok(
                    if s.sampled {
                        gesture_for(pos, s.position, p.position, p.previous)
                    } else {
                        None
                    },
                ),
                (Some(_), None) => Ok(None),
            },
            Role::Bystander => Ok(None),
        }
    }

    /// The state after a move of finger `id` to `pos`, when the event is of a
    /// supported kind.
    ///
    /// The record of the finger that moved is brought up to date, if it and
    /// the records that the move needs are there. A finger that is not in
    /// the list joins it, without a record.
    pub open spec fn after_move(self, id: i64, pos: Point) -> TrackerState {
        match self.role_of(id) {
            Role::Alone => match self.primary {
                Some(p) => TrackerState { primary: Some(p.moved_to(pos)), ..self },
                None => self,
            },
            Role::Primary => match (self.primary, self.secondary) {
                (Some(p), Some(_)) => TrackerState { primary: Some(p.moved_to(pos)), ..self },
                _ => self,
            },
            Role::Secondary => match (self.primary, self.secondary) {
                (Some(_), Some(s)) => TrackerState { secondary: Some(s.moved_to(pos)), ..self },
                _ => self,
            },
            Role::Bystander => if self.ids.contains(id) {
                self
            } else {
                TrackerState { ids: self.ids.push(id), ..self }
            },
        }
    }

    /// What the event asks for, or why it is refused.
    ///
    /// Only a move can ask for a gesture or be refused: it is refused when it
    /// comes with pressure or height, else when it comes from another device
    /// than the first, else when [`move_outcome`](Self::move_outcome) says so.
    pub open spec fn outcome(self, event: TouchEvent) -> Result<Option<Gesture>, TouchError> {
        match event.phase {
            Phase::Move => if event.is_3d {
                Err(TouchError::Touch3d)
            } else if event.device != 0 {
                Err(TouchError::ForeignDevice)
            } else {
                self.move_outcome(event.id, event.position)
            },
            _ => Ok(None),
        }
    }

    /// The state after the event. An event that is refused changes nothing.
    pub open spec fn handled(self, event: TouchEvent) -> TrackerState {
        match event.phase {
            Phase::Start => self.started(event.id, event.position),
            Phase::End | Phase::Cancel => self.ended(event.id),
            Phase::Move => if event.is_3d || event.device != 0 {
                self
            } else {
                self.after_move(event.id, event.position)
            },
        }
    }
}

/// The first move of a finger whose record is a placeholder makes no
/// gesture: the finger is only being seen for the first time.
pub proof fn lemma_first_sight_makes_no_gesture(state: TrackerState, id: i64, pos: Point)
    requires
        match state.role_of(id) {
            Role::Alone | Role::Primary => state.primary matches Some(p) && !p.sampled,
            Role::Secondary => state.secondary matches Some(s) && !s.sampled,
            Role::Bystander => false,
        },
    ensures
        state.move_outcome(id, pos) is Ok ==> state.move_outcome(id, pos) == Ok::<
            Option<Gesture>,
            TouchError,
        >(None),
{
}

/// Follows the fingers on a touch surface.
pub struct FingerTracker {
    ids: Vec<i64>,
    primary: Option<Finger>,
    secondary: Option<Finger>,
}

impl View for FingerTracker {
    type V = TrackerState;

    closed spec fn view(&self) -> TrackerState {
        TrackerState { ids: self.ids@, primary: self.primary, secondary: self.secondary }
    }
}

/// The place of the first `id` in `ids`, or the length of `ids` if there is
/// none.
fn first_place(ids: &Vec<i64>, id: i64) -> (at: usize)
    ensures
        at <= ids.len(),
        at < ids.len() ==> ids@.index_of_first(id) == Some(at as int) && ids@.contains(id),
        at == ids.len() ==> ids@.index_of_first(id) == None::<int> && !ids@.contains(id),
{
    let mut at: usize = 0;
    while at < ids.len() && ids[at] != id
        invariant
            at <= ids.len(),
            forall|j: int| 0 <= j < at ==> ids@[j] != id,
        decreases ids.len() - at,
    {
        at += 1;
    }
    proof {
        ids@.index_of_first_ensures(id);
        if at < ids.len() {
            assert(ids@[at as int] == id);
        }
    }
    at
}

impl FingerTracker {
    /// A tracker with no finger down.
    pub fn new() -> (tracker: FingerTracker)
        ensures
            tracker@ == TrackerState::empty(),
    {
        FingerTracker { ids: Vec::new(), primary: None, secondary: None }
    }

    /// The number of fingers that are down.
    pub fn len(&self) -> (n: usize)
        ensures
            n == self@.ids.len(),
    {
        self.ids.len()
    }

    /// The ids of the fingers that are down, oldest first.
    pub fn ids(&self) -> (ids: &Vec<i64>)
        ensures
            ids@ == self@.ids,
    {
        &self.ids
    }

    /// The record of the primary finger.
    pub fn primary(&self) -> (finger: Option<Finger>)
        ensures
            finger == self@.primary,
    {
        self.primary
    }

    /// The record of the secondary finger.
    pub fn secondary(&self) -> (finger: Option<Finger>)
        ensures
            finger == self@.secondary,
    {
        self.secondary
    }

    /// Finger `id` came down at `pos`: see [`TrackerState::started`].
    pub fn on_start(&mut self, id: i64, pos: Point)
        ensures
            final(self)@ == old(self)@.started(id, pos),
    {
        self.ids.push(id);
        if self.ids.len() == 1 {
            self.primary = Some(Finger::with_pos(pos));
        } else if self.ids.len() == 2 {
            self.secondary = Some(Finger::with_pos(pos));
        }
    }

    /// Finger `id` was lifted or its touch cancelled: see
    /// [`TrackerState::ended`].
    pub fn on_end_or_cancel(&mut self, id: i64)
        ensures
            final(self)@ == old(self)@.ended(id),
    {
        let at = first_place(&self.ids, id);
        if at < self.ids.len() {
            self.ids.remove(at);
            let heir = if self.ids.len() >= 2 {
                Some(Finger::placeholder())
            } else {
                None
            };
            if at == 0 {
                self.primary = if self.ids.len() == 0 {
                    None
                } else {
                    self.secondary
                };
                self.secondary = heir;
            } else if at == 1 {
                self.secondary = heir;
            }
        }
    }

    /// Finger `id` moved to `pos`.
    ///
    /// The move is refused, and nothing changes, when `is_3d` is set, else
    /// when `device` is not 0, else when the finger is the secondary one and
    /// there is no record of a primary. Otherwise the tracker takes the move
    /// in and says which gesture it makes, if any: see
    /// [`TrackerState::move_outcome`] and [`TrackerState::after_move`].
    pub fn on_move(&mut self, id: i64, pos: Point, is_3d: bool, device: i64) -> (asked: Result<
        Option<Gesture>,
        TouchError,
    >)
        ensures
            is_3d ==> asked == Err::<Option<Gesture>, TouchError>(TouchError::Touch3d),
            !is_3d && device != 0 ==> asked == Err::<Option<Gesture>, TouchError>(
                TouchError::ForeignDevice,
            ),
            !is_3d && device == 0 ==> asked == old(self)@.move_outcome(id, pos),
            asked is Ok ==> final(self)@ == old(self)@.after_move(id, pos),
            asked is Err ==> final(self)@ == old(self)@,
    {
        if is_3d {
            return Err(TouchError::Touch3d);
        }
        if device != 0 {
            return Err(TouchError::ForeignDevice);
        }
        let count = self.ids.len();
        if count == 1 && self.ids[0] == id {
            match self.primary {
                Some(mut p) => {
                    let from = p.position;
                    p.update(pos);
                    self.primary = Some(p);
                    if p.direction().magnitude2() > MOVEMENT_MARGIN_SQ {
                        Ok(Some(Gesture::Pan { new: from, old: pos }))
                    } else {
                        Ok(None)
                    }
                },
                None => Ok(None),
            }
        } else if count >= 2 && self.ids[0] == id {
            match (self.primary, self.secondary) {
                (Some(mut p), Some(s)) => {
                    let asked = if p.sampled {
                        classify(pos, p.position, s.position, s.previous)
                    } else {
                        None
                    };
                    p.update(pos);
                    self.primary = Some(p);
                    Ok(asked)
                },
                _ => Ok(None),
            }
        } else if count >= 2 && self.ids[1] == id {
            match (self.primary, self.secondary) {
                (None, _) => Err(TouchError::SecondaryWithoutPrimary),
                (Some(p), Some(mut s)) => {
                    let asked = if s.sampled {
                        classify(pos, s.position, p.position, p.previous)
                    } else {
                        None
                    };
                    s.update(pos);
                    self.secondary = Some(s);
                    Ok(asked)
                },
                (Some(_), None) => Ok(None),
            }
        } else {
            if first_place(&self.ids, id) == count {
                self.ids.push(id);
            }
            Ok(None)
        }
    }

    /// Takes in one touch event: see [`TrackerState::outcome`] and
    /// [`TrackerState::handled`].
    pub fn handle(&mut self, event: &TouchEvent) -> (asked: Result<Option<Gesture>, TouchError>)
        ensures
            asked == old(self)@.outcome(*event),
            final(self)@ == old(self)@.handled(*event),
            asked is Err ==> final(self)@ == old(self)@,
    {
        match event.phase {
            Phase::Start => {
                self.on_start(event.id, event.position);
                Ok(None)
            },
            Phase::End | Phase::Cancel => {
                self.on_end_or_cancel(event.id);
                Ok(None)
            },
            Phase::Move => self.on_move(event.id, event.position, event.is_3d, event.device),
        }
    }

    /// Takes in one input event. Only touches are understood: any other
    /// event is refused as [`TouchError::UnhandledEvent`].
    pub fn dispatch(&mut self, event: &InputEvent) -> (asked: Result<Option<Gesture>, TouchError>)
        ensures
            match *event {
                InputEvent::Touch(touch) => {
                    &&& asked == old(self)@.outcome(touch)
                    &&& final(self)@ == old(self)@.handled(touch)
                    &&& asked is Err ==> final(self)@ == old(self)@
                },
                InputEvent::Other => {
                    &&& asked == Err::<Option<Gesture>, TouchError>(TouchError::UnhandledEvent)
                    &&& final(self)@ == old(self)@
                },
            },
    {
        match event {
            InputEvent::Touch(touch) => self.handle(touch),
            InputEvent::Other => Err(TouchError::UnhandledEvent),
        }
    }
}

} // verus!
