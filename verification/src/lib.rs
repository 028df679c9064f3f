//! Multi-touch gestures for an orbital camera, in integer arithmetic.
//!
//! A [`FingerTracker`] follows the fingers on a touch surface through their
//! touches and says which [`Gesture`] each move makes. A [`Camera`] is moved
//! by those gestures and keeps its elevation, azimuth, distance and target
//! for whoever draws the scene.
//!
//! Positions are integers, angles microdegrees, lengths in the scene
//! millionths of a unit. The library holds no floating-point number: where a
//! sine, a cosine or an arc tangent is needed, the caller computes it and
//! hands it in, and the library checks of it what it can.

pub mod fixed;
pub mod wide;
pub mod geometry;
pub mod finger;
pub mod gesture;
pub mod tracker;
pub mod lifecycle;
pub mod camera;
pub mod limits;

pub use camera::{Camera, Heading, Twist};
pub use finger::Finger;
pub use geometry::{Offset, Point};
pub use gesture::{classify, Gesture};
pub use tracker::{FingerTracker, InputEvent, Phase, TouchError, TouchEvent};
