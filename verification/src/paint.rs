//! What a renderer is asked to paint: colours, borders, shadows.
//!
//! A colour channel is counted in thousandths of full intensity, so that
//! three-digit decimal fractions are written without rounding.

use vstd::prelude::*;

verus! {

/// A colour: red, green, blue and opacity, each in thousandths, 1000 being
/// full intensity.
#[derive(Clone, Copy, Debug, PartialEq, Eq, Structural)]
pub struct Color {
    pub r: u16,
    pub g: u16,
    pub b: u16,
    pub a: u16,
}

/// A displacement in whole pixels.
#[derive(Clone, Copy, Debug, PartialEq, Eq, Structural)]
pub struct Vector {
    pub x: i32,
    pub y: i32,
}

/// The line around a shape.
#[derive(Clone, Copy, Debug, PartialEq, Eq, Structural)]
pub struct Border {
    pub color: Color,
    pub width: u32,
    /// The radius of all four corners.
    pub radius: u32,
}

/// The shadow that a shape casts.
#[derive(Clone, Copy, Debug, PartialEq, Eq, Structural)]
pub struct Shadow {
    pub color: Color,
    pub offset: Vector,
    pub blur_radius: u32,
}

/// The colour scheme of the application.
#[derive(Clone, Copy, Debug, PartialEq, Eq, Structural)]
pub enum Theme {
    Light,
    Dark,
}

/// What fills a shape.
#[derive(Clone, Copy, Debug, PartialEq, Eq, Structural)]
pub enum Background {
    Color(Color),
}

impl Color {
    pub open spec fn spec_black() -> Color {
        Color { r: 0, g: 0, b: 0, a: 1000 }
    }

    pub open spec fn spec_white() -> Color {
        Color { r: 1000, g: 1000, b: 1000, a: 1000 }
    }

    pub open spec fn spec_transparent() -> Color {
        Color { r: 0, g: 0, b: 0, a: 0 }
    }

    /// A colour from its four channels, in thousandths.
    pub fn new(r: u16, g: u16, b: u16, a: u16) -> (color: Color)
        ensures
            color == (Color { r, g, b, a }),
    {
        Color { r, g, b, a }
    }

    /// Opaque black.
    #[verifier::when_used_as_spec(spec_black)]
    pub fn black() -> (color: Color)
        ensures
            color == Color::spec_black(),
    {
        Color { r: 0, g: 0, b: 0, a: 1000 }
    }

    /// Opaque white.
    #[verifier::when_used_as_spec(spec_white)]
    pub fn white() -> (color: Color)
        ensures
            color == Color::spec_white(),
    {
        Color { r: 1000, g: 1000, b: 1000, a: 1000 }
    }

    /// Black without any opacity.
    #[verifier::when_used_as_spec(spec_transparent)]
    pub fn transparent() -> (color: Color)
        ensures
            color == Color::spec_transparent(),
    {
        Color { r: 0, g: 0, b: 0, a: 0 }
    }
}

impl Shadow {
    /// No shadow at all: transparent, not displaced, not blurred.
    pub open spec fn spec_none() -> Shadow {
        Shadow { color: Color::spec_transparent(), offset: Vector { x: 0, y: 0 }, blur_radius: 0 }
    }

    #[verifier::when_used_as_spec(spec_none)]
    pub fn none() -> (shadow: Shadow)
        ensures
            shadow == Shadow::spec_none(),
    {
        Shadow { color: Color::transparent(), offset: Vector { x: 0, y: 0 }, blur_radius: 0 }
    }
}

} // verus!
