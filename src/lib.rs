//! Points orbiting a common center, each at its own radius and angular speed.
//!
//! The model is exact integer kinematics. Angles are binary angles: one full
//! turn is 2^64 units, so turning wraps around exactly and an angle never
//! grows without bound. Lengths and times are fixed-point integers in units
//! the caller picks; the angular speed of a point is its orbit radius times a
//! base speed, in angle units per time unit. A point's position is never
//! stored: it is `center + orbit_radius * (cos angle, sin angle)`, worked out
//! by whoever paints the frame.
pub mod angle;
pub mod color;
pub mod flower;
pub mod paint;
