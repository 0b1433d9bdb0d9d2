//! A decorative rule (a horizontal or vertical divider line) for terminal
//! user interfaces: where it goes inside a rectangle, which glyphs make it
//! up, how a colour gradient is spread over them, and how the result is
//! painted into a `ratatui` buffer.
pub mod geometry;
pub mod symbols;
pub mod layout;
pub mod segment;
pub mod color;
pub mod canvas;
pub mod rule;
pub mod builder;
pub mod laws;

pub use crate::color::{Bg, GradientSource, Ground, Rgb, StyledCell};
pub use crate::geometry::{Margin, Padding, Rect};
pub use crate::rule::Rule;
pub use crate::symbols::{Alignment, Orientation, Placement, SymbolSet, VerticalAlignment};
