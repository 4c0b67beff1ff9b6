//! Terminal text styling rendered as ANSI SGR escape sequences, with the
//! smallest transition from one rendered style to the next.
//!
//! The style model lives in [`style`], the escape encoding in [`render`], and
//! the transition rules in [`difference`]. The laws that tie them together are
//! stated and proved in [`laws`].

pub mod color;
pub mod style;
pub mod render;
pub mod difference;
pub mod laws;

pub use color::Color;
pub use difference::Difference;
pub use render::allows_color;
pub use style::{Style, StyleSpec};
