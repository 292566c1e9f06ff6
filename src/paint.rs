//! What a frame paints, in order.
use vstd::prelude::*;
use crate::color::Color;
use crate::flower::{Coord, FlowingPoint};

verus! {

/// One painting operation on a drawing surface.
#[derive(Clone, Copy, Debug, PartialEq, Eq, Structural)]
pub enum Paint {
    /// Fill the whole surface with `color`.
    Clear { color: Color },
    /// Fill a disc of `radius` at `center + orbit_radius * (cos angle, sin angle)`.
    Disc { center: Coord, orbit_radius: u64, angle: u64, radius: u64, color: Color },
}

/// The disc that paints `p` around `center`.
pub open spec fn disc_of(center: Coord, p: FlowingPoint) -> Paint {
    Paint::Disc {
        center,
        orbit_radius: p.orbit_radius,
        angle: p.angle,
        radius: p.radius,
        color: p.color,
    }
}

/// A frame: cleared to white, then one disc per point, in the points' order.
pub open spec fn frame_of(center: Coord, points: Seq<FlowingPoint>) -> Seq<Paint> {
    seq![Paint::Clear { color: Color { r: 255, g: 255, b: 255, a: 255 } }]
        + points.map_values(|p: FlowingPoint| disc_of(center, p))
}

} // verus!
