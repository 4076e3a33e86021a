use vstd::prelude::*;
use eframe::egui::Key;
use crate::catalog::{canonical, Classes};

verus! {

#[verifier::external_type_specification]
pub struct ExKey(Key);

/// The category bound to a key: the digit keys one to four select the
/// categories in canonical order.
pub open spec fn class_for_key(key: Key) -> Option<Classes> {
    match key {
        Key::Num1 => Some(canonical()[0]),
        Key::Num2 => Some(canonical()[1]),
        Key::Num3 => Some(canonical()[2]),
        Key::Num4 => Some(canonical()[3]),
        _ => None,
    }
}

impl Classes {
    /// The category that a hotkey selects, or `None` for an unbound key.
    pub fn from_key(key: Key) -> (r: Option<Classes>)
        ensures
            r == class_for_key(key),
    {
        match key {
            Key::Num1 => Some(Classes::Ball),
            Key::Num2 => Some(Classes::Robot),
            Key::Num3 => Some(Classes::GoalPost),
            Key::Num4 => Some(Classes::PenaltySpot),
            _ => None,
        }
    }
}

} // verus!
