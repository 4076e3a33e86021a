//! The closed catalog of object categories used when labelling images:
//! their canonical order, integer codes, hotkeys, highlight colours and
//! cyclic navigation.

pub mod catalog;
pub mod input;
pub mod laws;
pub mod palette;

pub use catalog::{Classes, OutOfRange, CLASS_COUNT};
pub use palette::Rgb;
