use vstd::prelude::*;
use eframe::epaint::Color32;
use crate::catalog::Classes;

verus! {

/// An opaque colour as its three gamma-encoded channels.
#[derive(Clone, Copy, Debug, PartialEq, Eq, Structural, Hash)]
pub struct Rgb {
    pub r: u8,
    pub g: u8,
    pub b: u8,
}

/// Relies on egui's `Color32::BLUE`, which is `from_rgb(0, 0, 255)`.
#[verifier::external_body]
fn blue() -> (c: Rgb)
    ensures
        c == (Rgb { r: 0, g: 0, b: 255 }),
{
    let [r, g, b, _] = Color32::BLUE.to_array();
    Rgb { r, g, b }
}

/// Relies on egui's `Color32::LIGHT_RED`, which is `from_rgb(255, 128, 128)`.
#[verifier::external_body]
fn light_red() -> (c: Rgb)
    ensures
        c == (Rgb { r: 255, g: 128, b: 128 }),
{
    let [r, g, b, _] = Color32::LIGHT_RED.to_array();
    Rgb { r, g, b }
}

/// Relies on egui's `Color32::DARK_RED`, which is `from_rgb(0x8B, 0, 0)`.
#[verifier::external_body]
fn dark_red() -> (c: Rgb)
    ensures
        c == (Rgb { r: 0x8B, g: 0, b: 0 }),
{
    let [r, g, b, _] = Color32::DARK_RED.to_array();
    Rgb { r, g, b }
}

/// Relies on egui's `Color32::GOLD`, which is `from_rgb(255, 215, 0)`.
#[verifier::external_body]
fn gold() -> (c: Rgb)
    ensures
        c == (Rgb { r: 255, g: 215, b: 0 }),
{
    let [r, g, b, _] = Color32::GOLD.to_array();
    Rgb { r, g, b }
}

/// The base highlight colour of each category, before it is made translucent.
pub open spec fn base_color_of(c: Classes) -> Rgb {
    match c {
        Classes::Robot => Rgb { r: 0, g: 0, b: 255 },
        Classes::Ball => Rgb { r: 255, g: 128, b: 128 },
        Classes::GoalPost => Rgb { r: 0x8B, g: 0, b: 0 },
        Classes::PenaltySpot => Rgb { r: 255, g: 215, b: 0 },
    }
}

impl Classes {
    /// The base colour that marks the category on the canvas: blue for a
    /// robot, light red for a ball, dark red for a goal post and gold for a
    /// penalty spot.
    pub fn base_color(&self) -> (r: Rgb)
        ensures
            r == base_color_of(*self),
    {
        match self {
            Classes::Robot => blue(),
            Classes::Ball => light_red(),
            Classes::GoalPost => dark_red(),
            Classes::PenaltySpot => gold(),
        }
    }
}

} // verus!
