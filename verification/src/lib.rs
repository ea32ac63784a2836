//! Line alignment for text layout, with every decision and every offset
//! stated in the contracts and proved by Verus.
//!
//! The line geometry that alignment reads is in whole layout units (`i32`); the offsets and
//! the justification amounts that it writes are exact fractions (`Ratio`).

pub mod alignment;
pub mod data;
pub mod properties;

pub use alignment::{align, Alignment, AlignmentOptions};
pub use data::{BreakReason, Justification, LayoutData, LineData, LineMetrics, Ratio};
