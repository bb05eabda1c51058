//! Hinge-angle sensing and posture classification for foldable and
//! dual-screen devices.
//!
//! - [`angle`]: angles as exact fixed-point values and their reduction onto
//!   the circle `[0, 360)` degrees.
//! - [`posture`]: the four postures, the classification policy and the
//!   display labels.
//! - [`sensor`]: the decisions of the serialized, failure-caching sensor
//!   access path; the caller performs the platform work that each step asks
//!   for and reports back.

pub mod angle;
pub mod posture;
pub mod sensor;

pub use angle::{Angle, MICRODEGREES_PER_DEGREE, FULL_TURN};
pub use posture::PostureType;
pub use sensor::{posture_reply, Acquisition, HingeSensor, ReadStep};
