//! Small value types shared by the render passes: an integer lattice vector,
//! an 8-bit RGBA color, and the model of the full-frame orthographic
//! transform (the blit and UI passes only ever read the frame dimensions
//! from it).
use vstd::prelude::*;

verus! {

/// A point or direction on the integer lattice the scene model lives on.
#[derive(Clone, Copy, PartialEq, Eq, Structural, Debug)]
pub struct Vector3 {
    pub x: i32,
    pub y: i32,
    pub z: i32,
}

impl Vector3 {
    pub fn new(x: i32, y: i32, z: i32) -> (v: Vector3)
        ensures
            v == (Vector3 { x, y, z }),
    {
        Vector3 { x, y, z }
    }
}

/// An RGBA color, eight bits per channel.
#[derive(Clone, Copy, PartialEq, Eq, Structural, Debug)]
pub struct Color {
    pub r: u8,
    pub g: u8,
    pub b: u8,
    pub a: u8,
}

impl Color {
    /// A fully opaque color from its three channels.
    pub fn opaque(r: u8, g: u8, b: u8) -> (c: Color)
        ensures
            c == (Color { r, g, b, a: 255 }),
    {
        Color { r, g, b, a: 255 }
    }
}

/// The world-view-projection transform used when compositing a full frame:
/// an orthographic projection over the frame rectangle scaled to its size.
/// The only data it depends on are the frame dimensions, so the model
/// carries exactly those.
#[derive(Clone, Copy, PartialEq, Eq, Structural, Debug)]
pub struct FrameMatrix {
    pub width: u32,
    pub height: u32,
}

} // verus!
