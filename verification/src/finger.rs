//! One contact on the touch surface.

use vstd::prelude::*;
use crate::geometry::{Offset, Point, Vector};

verus! {

/// A finger that is down: where it was last seen and where it was seen
/// before that.
///
/// The displacement of the last move is the difference of the two positions,
/// so taking it away from the last position gives back the earlier one
/// exactly.
///
/// A finger that takes over a role after another has left is known only by
/// its id until it moves. Its record is then a placeholder: it stands at the
/// origin, has not moved, and is not `sampled`. The first position reported
/// for it is where it is first seen, not a move away from the origin.
#[derive(Clone, Copy, Debug, PartialEq, Eq, Structural)]
pub struct Finger {
    /// The last position seen.
    pub position: Point,
    /// The position seen before `position`; equal to it until the finger moves.
    pub previous: Point,
    /// Whether `position` was ever reported by the touch surface.
    pub sampled: bool,
}

impl Finger {
    /// The record of a finger first seen at `pos`.
    pub open spec fn seen_at(pos: Point) -> Finger {
        Finger { position: pos, previous: pos, sampled: true }
    }

    /// The record of a finger whose position is not known yet.
    pub open spec fn unseen() -> Finger {
        Finger { position: Point { x: 0, y: 0 }, previous: Point { x: 0, y: 0 }, sampled: false }
    }

    /// The record after the finger was reported at `pos`.
    pub open spec fn moved_to(self, pos: Point) -> Finger {
        if self.sampled {
            Finger { position: pos, previous: self.position, sampled: true }
        } else {
            Finger::seen_at(pos)
        }
    }

    /// The displacement of the last move.
    pub open spec fn displacement(self) -> Vector {
        Vector::between(self.previous, self.position)
    }

    /// Starts to follow a finger that touched down at `pos`. It has not moved.
    pub fn with_pos(pos: Point) -> (finger: Finger)
        ensures
            finger == Finger::seen_at(pos),
            finger.displacement().is_zero(),
    {
        Finger { position: pos, previous: pos, sampled: true }
    }

    /// The placeholder for a finger whose position is not known yet.
    pub fn placeholder() -> (finger: Finger)
        ensures
            finger == Finger::unseen(),
            finger.displacement().is_zero(),
    {
        Finger { position: Point { x: 0, y: 0 }, previous: Point { x: 0, y: 0 }, sampled: false }
    }

    /// Records that the finger is now at `pos`.
    ///
    /// The displacement becomes the way from the last position to `pos`. For
    /// a placeholder there is no last position: the finger is taken as first
    /// seen at `pos`, with no displacement.
    pub fn update(&mut self, pos: Point)
        ensures
            *final(self) == old(self).moved_to(pos),
            final(self).position == pos,
            final(self).sampled,
            old(self).sampled ==> final(self).displacement() == Vector::between(
                old(self).position,
                pos,
            ),
            !old(self).sampled ==> final(self).displacement().is_zero(),
    {
        if self.sampled {
            self.previous = self.position;
        } else {
            self.previous = pos;
            self.sampled = true;
        }
        self.position = pos;
    }

    /// The displacement of the last move.
    pub fn direction(&self) -> (d: Offset)
        ensures
            d@ == self.displacement(),
    {
        self.position.offset_from(self.previous)
    }
}

} // verus!
