//! The parts of a laid out paragraph that alignment reads and writes.

use vstd::prelude::*;

verus! {

/// Why a line ends.
#[derive(Copy, Clone, Debug, PartialEq, Eq, Structural)]
pub enum BreakReason {
    /// The line is the last line of the paragraph: nothing broke it.
    EndOfParagraph,
    /// The line was broken at a regular break opportunity.
    Regular,
    /// The line ends in a hard (explicit) line break.
    Explicit,
    /// The line was broken where no break opportunity was, to fit the width.
    Emergency,
}

/// An exact fraction, `numerator / denominator`, kept as it was computed (not reduced).
#[derive(Copy, Clone, Debug, PartialEq, Eq, Structural)]
pub struct Ratio {
    /// The numerator.
    pub numerator: i64,
    /// The denominator; alignment never writes a zero denominator.
    pub denominator: u64,
}

/// Geometry of one line, in layout units.
#[derive(Copy, Clone, Debug)]
pub struct LineMetrics {
    /// Advance of the line's content, trailing whitespace included.
    pub advance: i32,
    /// Advance of the trailing whitespace, which hangs outside the line.
    pub hanging_advance: i32,
    /// Start of the line box along the inline axis.
    pub inline_min_coord: i32,
    /// End of the line box along the inline axis.
    pub inline_max_coord: i32,
    /// Offset of the line's content from the start of the line box, in layout units; written
    /// by alignment, over a denominator of 2 so that centring is exact.
    pub offset: Ratio,
}

/// How much space each justification opportunity of a line receives.
#[derive(Copy, Clone, Debug)]
pub struct Justification {
    /// Extra advance given to each justification opportunity, in layout units; written by
    /// alignment as the exact share of the free space.
    pub amount_per_opportunity: Ratio,
}

/// One line of a layout.
#[derive(Copy, Clone, Debug)]
pub struct LineData {
    /// Geometry of the line.
    pub metrics: LineMetrics,
    /// Indentation of the line from its start edge.
    pub indent: i32,
    /// Why the line ends.
    pub break_reason: BreakReason,
    /// Number of places (such as whitespace gaps) where justification may add space.
    pub num_justification_opportunities: usize,
    /// Justification applied to the line.
    pub justification: Justification,
}

/// A laid out paragraph.
pub struct LayoutData {
    /// Bidi embedding level of the paragraph; odd levels are right to left.
    pub base_level: u8,
    /// The alignment last applied to the layout, if any.
    pub alignment: Option<crate::alignment::Alignment>,
    /// The lines of the layout, in order.
    pub lines: Vec<LineData>,
}

/// Whether a paragraph at bidi level `level` runs right to left.
pub open spec fn level_is_rtl(level: u8) -> bool {
    level % 2 == 1
}

/// Whether a line is a last line: the paragraph's last line or one that ends in a hard break.
pub open spec fn is_last_line(reason: BreakReason) -> bool {
    reason is EndOfParagraph || reason is Explicit
}

/// The width of the line box.
pub open spec fn line_width(line: LineData) -> int {
    line.metrics.inline_max_coord - line.metrics.inline_min_coord
}

/// The space left in the line box once the indent and the content, less its hanging
/// trailing whitespace, are placed: negative when the line overflows.
pub open spec fn free_space(line: LineData) -> int {
    line_width(line) - line.indent - line.metrics.advance + line.metrics.hanging_advance
}

impl LayoutData {
    /// Whether the paragraph runs right to left.
    pub fn is_rtl(&self) -> (r: bool)
        ensures
            r == level_is_rtl(self.base_level),
    {
        self.base_level % 2 == 1
    }
}

} // verus!
