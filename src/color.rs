//! Colors of the points and of the background.
use vstd::prelude::*;

verus! {

/// An RGBA color; each channel runs from 0 (none) to 255 (full).
#[derive(Clone, Copy, Debug, PartialEq, Eq, Structural)]
pub struct Color {
    pub r: u8,
    pub g: u8,
    pub b: u8,
    pub a: u8,
}

impl Color {
    /// Opaque white, the color a frame is cleared to.
    pub fn white() -> (c: Color)
        ensures
            c == (Color { r: 255, g: 255, b: 255, a: 255 }),
    {
        Color { r: 255, g: 255, b: 255, a: 255 }
    }
}

/// Relies on rand::random::<u8>: a byte drawn from the thread-local
/// generator; nothing is known of its value.
#[verifier::external_body]
fn random_channel() -> (r: u8) {
    rand::random::<u8>()
}

/// A fully opaque color whose red, green and blue channels are drawn at
/// random, each on its own.
pub fn random_color() -> (c: Color)
    ensures
        c.a == 255,
{
    let r = random_channel();
    let g = random_channel();
    let b = random_channel();
    Color { r, g, b, a: 255 }
}

} // verus!
