//! The looks of the three window controls: white and round at rest, and
//! tinted, each in its own colour, under the pointer.

use vstd::prelude::*;
use crate::paint::{Background, Border, Color, Shadow, Theme, Vector};

verus! {

/// How a button is painted.
#[derive(Clone, Copy, Debug, PartialEq, Eq, Structural)]
pub struct Appearance {
    /// How far the shadow is moved away from the button.
    pub shadow_offset: Vector,
    pub background: Option<Background>,
    pub text_color: Color,
    pub border: Border,
    pub shadow: Shadow,
}

/// The look of the close button.
#[derive(Clone, Copy, Debug, PartialEq, Eq, Structural)]
pub struct DecorationClose;

/// The look of the maximise button.
#[derive(Clone, Copy, Debug, PartialEq, Eq, Structural)]
pub struct DecorationMaximise;

/// The look of the minimise button.
#[derive(Clone, Copy, Debug, PartialEq, Eq, Structural)]
pub struct DecorationMinimise;

/// The look of one of the window controls.
#[derive(Clone, Copy, Debug, PartialEq, Eq, Structural)]
pub enum Decoration {
    Close(DecorationClose),
    Maximise(DecorationMaximise),
    Minimise(DecorationMinimise),
}

/// A window control filled with `fill`: black text, round corners of radius
/// 14 without a border line, and a soft grey shadow.
pub open spec fn control_appearance(fill: Color) -> Appearance {
    Appearance {
        shadow_offset: Vector { x: 0, y: 3 },
        background: Some(Background::Color(fill)),
        text_color: Color::spec_black(),
        border: Border { color: Color::spec_transparent(), width: 0, radius: 14 },
        shadow: Shadow {
            color: Color { r: 752, g: 764, b: 819, a: 1000 },
            offset: Vector { x: 4, y: 1 },
            blur_radius: 3,
        },
    }
}

/// The tint of the close button under the pointer: a light red.
pub open spec fn close_tint() -> Color {
    Color { r: 1000, g: 588, b: 541, a: 1000 }
}

/// The tint of the maximise button under the pointer: a light orange.
pub open spec fn maximise_tint() -> Color {
    Color { r: 1000, g: 784, b: 596, a: 1000 }
}

/// The tint of the minimise button under the pointer: a light green.
pub open spec fn minimise_tint() -> Color {
    Color { r: 800, g: 886, b: 796, a: 1000 }
}

/// The look of a window control at rest: filled with white.
pub fn default_appearance() -> (appearance: Appearance)
    ensures
        appearance == control_appearance(Color::spec_white()),
{
    hovered_appearance(Color::new(1000, 1000, 1000, 1000))
}

/// The look of a window control under the pointer: filled with `color`.
pub fn hovered_appearance(color: Color) -> (appearance: Appearance)
    ensures
        appearance == control_appearance(color),
{
    Appearance {
        shadow_offset: Vector { x: 0, y: 3 },
        background: Some(Background::Color(color)),
        text_color: Color::black(),
        border: Border { color: Color::transparent(), width: 0, radius: 14 },
        shadow: Shadow {
            color: Color::new(752, 764, 819, 1000),
            offset: Vector { x: 4, y: 1 },
            blur_radius: 3,
        },
    }
}

impl DecorationClose {
    /// At rest, whatever the theme.
    pub fn active(&self, _style: &Theme) -> (appearance: Appearance)
        ensures
            appearance == control_appearance(Color::spec_white()),
    {
        default_appearance()
    }

    /// Under the pointer, whatever the theme.
    pub fn hovered(&self, _style: &Theme) -> (appearance: Appearance)
        ensures
            appearance == control_appearance(close_tint()),
    {
        hovered_appearance(Color::new(1000, 588, 541, 1000))
    }
}

impl DecorationMaximise {
    /// At rest, whatever the theme.
    pub fn active(&self, _style: &Theme) -> (appearance: Appearance)
        ensures
            appearance == control_appearance(Color::spec_white()),
    {
        default_appearance()
    }

    /// Under the pointer, whatever the theme.
    pub fn hovered(&self, _style: &Theme) -> (appearance: Appearance)
        ensures
            appearance == control_appearance(maximise_tint()),
    {
        hovered_appearance(Color::new(1000, 784, 596, 1000))
    }
}

impl DecorationMinimise {
    /// At rest, whatever the theme.
    pub fn active(&self, _style: &Theme) -> (appearance: Appearance)
        ensures
            appearance == control_appearance(Color::spec_white()),
    {
        default_appearance()
    }

    /// Under the pointer, whatever the theme.
    pub fn hovered(&self, _style: &Theme) -> (appearance: Appearance)
        ensures
            appearance == control_appearance(minimise_tint()),
    {
        hovered_appearance(Color::new(800, 886, 796, 1000))
    }
}

impl Decoration {
    /// The tint of the control under the pointer.
    pub open spec fn tint(self) -> Color {
        match self {
            Decoration::Close(_) => close_tint(),
            Decoration::Maximise(_) => maximise_tint(),
            Decoration::Minimise(_) => minimise_tint(),
        }
    }

    /// At rest, whatever the theme.
    pub fn active(&self, style: &Theme) -> (appearance: Appearance)
        ensures
            appearance == control_appearance(Color::spec_white()),
    {
        match self {
            Decoration::Close(decoration) => decoration.active(style),
            Decoration::Maximise(decoration) => decoration.active(style),
            Decoration::Minimise(decoration) => decoration.active(style),
        }
    }

    /// Under the pointer, whatever the theme.
    pub fn hovered(&self, style: &Theme) -> (appearance: Appearance)
        ensures
            appearance == control_appearance(self.tint()),
    {
        match self {
            Decoration::Close(decoration) => decoration.hovered(style),
            Decoration::Maximise(decoration) => decoration.hovered(style),
            Decoration::Minimise(decoration) => decoration.hovered(style),
        }
    }
}

} // verus!
