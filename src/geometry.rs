//! Plain value types: vectors, colors and hitboxes.
use vstd::prelude::*;

verus! {

/// A 2-dimensional vector in thousandths of a pixel (or of a pixel per tick).
#[derive(Clone, Copy, Debug, PartialEq, Eq, Default)]
pub struct Vector2 {
    /// The vector's X component.
    pub x: i64,
    /// The vector's Y component.
    pub y: i64,
}

impl Vector2 {
    /// A vector from its two components.
    pub fn new(x: i64, y: i64) -> (r: Vector2)
        ensures
            r.x == x,
            r.y == y,
    {
        Vector2 { x, y }
    }
}

/// An RGBA color.
#[derive(Clone, Copy, Debug, PartialEq, Eq, PartialOrd, Ord, Hash, Default)]
pub struct Color {
    /// Red channel.
    pub r: u8,
    /// Green channel.
    pub g: u8,
    /// Blue channel.
    pub b: u8,
    /// Alpha channel.
    pub a: u8,
}

impl Color {
    /// A color from its four channels.
    pub fn new(r: u8, g: u8, b: u8, a: u8) -> (c: Color)
        ensures
            c.r == r,
            c.g == g,
            c.b == b,
            c.a == a,
    {
        Color { r, g, b, a }
    }
}

/// A rectangle hitbox, offset from the actor's position.
#[derive(Clone, Copy, Debug, PartialEq, Eq, PartialOrd, Ord, Hash, Default)]
pub struct Hitbox {
    /// The hitbox's X offset.
    pub x: i32,
    /// The hitbox's Y offset.
    pub y: i32,
    /// The hitbox's width.
    pub w: i32,
    /// The hitbox's height.
    pub h: i32,
}

} // verus!
