//! Alignment of the lines of a layout.

use vstd::prelude::*;

use crate::data::{
    free_space, is_last_line, level_is_rtl, Justification, LayoutData, LineData, LineMetrics,
    Ratio,
};

verus! {

/// Alignment of a layout.
#[derive(Copy, Clone, PartialEq, Eq, Debug, Structural)]
pub enum Alignment {
    /// This is [`Alignment::Left`] for LTR text and [`Alignment::Right`] for RTL text.
    Start,
    /// This is [`Alignment::Right`] for LTR text and [`Alignment::Left`] for RTL text.
    End,
    /// Align content to the left edge.
    Left,
    /// Align each line centered within the container.
    Center,
    /// Align content to the right edge.
    Right,
    /// Justify each line by spacing out content, except for the last line.
    ///
    /// The last line of a paragraph and each line ending in a hard break are aligned by
    /// [`AlignmentOptions::last_line_alignment`], and start aligned by default.
    ///
    /// A line with no justification opportunity can't be spaced out and is start aligned.
    Justify,
}

impl Default for Alignment {
    fn default() -> (r: Self)
        ensures
            r == Alignment::Start,
    {
        Alignment::Start
    }
}

/// Additional options to fine tune alignment
#[derive(Debug, Clone, Copy)]
pub struct AlignmentOptions {
    /// If set to `true`, "end" and "center" alignment will apply even if the line contents are
    /// wider than the alignment width. If it is set to `false`, all overflowing lines will be
    /// [`Alignment::Start`] aligned.
    pub align_when_overflowing: bool,
    /// The alignment of last lines, modelled on the CSS `text-align-last` property.
    ///
    /// The last lines are the last line of the paragraph and each line ending in a hard break.
    /// `None` is CSS `auto`: they are aligned like the other lines, except that under
    /// [`Alignment::Justify`] they are start aligned. `Some(alignment)` aligns them with
    /// `alignment`, whatever the alignment of the other lines; `Some(Alignment::Justify)`
    /// justifies them too.
    ///
    /// Lines with no justification opportunity are start aligned, whether or not they are last
    /// lines.
    pub last_line_alignment: Option<Alignment>,
}

impl Default for AlignmentOptions {
    fn default() -> (r: Self)
        ensures
            r.align_when_overflowing == false,
            r.last_line_alignment is None,
    {
        AlignmentOptions { align_when_overflowing: false, last_line_alignment: None }
    }
}

/// Where alignment puts a line's content within its line box, whatever the text direction.
#[derive(Copy, Clone, PartialEq, Eq, Debug, Structural)]
pub enum Placement {
    /// Against the left edge of the line box (after the indent in left-to-right text).
    Left,
    /// Against the right edge of the line box (before the indent in right-to-left text).
    Right,
    /// In the middle of the free space.
    Center,
    /// Against the left edge, with the free space shared among the justification opportunities.
    Justified,
}

/// Where start aligned content goes.
pub open spec fn start_placement(rtl: bool) -> Placement {
    if rtl { Placement::Right } else { Placement::Left }
}

/// Where end aligned content goes.
pub open spec fn end_placement(rtl: bool) -> Placement {
    if rtl { Placement::Left } else { Placement::Right }
}

/// The alignment that applies to a line that ends for `reason`: `last_line_alignment` for last
/// lines when it is set, `alignment` otherwise.
pub open spec fn line_alignment(
    alignment: Alignment,
    options: AlignmentOptions,
    reason: crate::data::BreakReason,
) -> Alignment {
    match options.last_line_alignment {
        Some(last) => if is_last_line(reason) { last } else { alignment },
        None => alignment,
    }
}

/// Where alignment puts the content of `line`.
pub open spec fn placement(
    line: LineData,
    alignment: Alignment,
    options: AlignmentOptions,
    rtl: bool,
) -> Placement {
    let space = free_space(line);
    if !options.align_when_overflowing && space <= 0 {
        start_placement(rtl)
    } else {
        match line_alignment(alignment, options, line.break_reason) {
            Alignment::Left => Placement::Left,
            Alignment::Right => Placement::Right,
            Alignment::Center => Placement::Center,
            Alignment::Start => start_placement(rtl),
            Alignment::End => end_placement(rtl),
            Alignment::Justify => if (is_last_line(line.break_reason)
                && options.last_line_alignment is None) || line.num_justification_opportunities
                == 0 {
                // Last lines under automatic last line alignment, and lines that cannot be
                // spaced out, are start aligned.
                start_placement(rtl)
            } else if space <= 0 {
                // Justification has no effect on a line without free space.
                Placement::Left
            } else {
                Placement::Justified
            },
        }
    }
}

/// The offset of a line's content when it is placed against the left edge: its indent in
/// left-to-right text; in right-to-left text, where the trailing whitespace hangs on the left,
/// minus that whitespace.
pub open spec fn left_offset(line: LineData, rtl: bool) -> int {
    if rtl { -line.metrics.hanging_advance } else { line.indent as int }
}

/// Twice the offset alignment gives the content of `line`: the offset in half units.
pub open spec fn aligned_offset_halves(
    line: LineData,
    alignment: Alignment,
    options: AlignmentOptions,
    rtl: bool,
) -> int {
    let space = free_space(line);
    2 * left_offset(line, rtl) + match placement(line, alignment, options, rtl) {
        Placement::Left => 0,
        Placement::Justified => 0,
        Placement::Right => 2 * space,
        Placement::Center => space,
    }
}

/// The space alignment gives each justification opportunity of `line`: the free space over the
/// number of opportunities when the line is justified, and none otherwise.
pub open spec fn aligned_amount(
    line: LineData,
    alignment: Alignment,
    options: AlignmentOptions,
    rtl: bool,
) -> Ratio {
    if placement(line, alignment, options, rtl) is Justified {
        Ratio {
            numerator: free_space(line) as i64,
            denominator: line.num_justification_opportunities as u64,
        }
    } else {
        Ratio { numerator: 0, denominator: 1 }
    }
}

/// `line` once aligned: its offset and its justification are set, all else is kept.
pub open spec fn aligned_line(
    line: LineData,
    alignment: Alignment,
    options: AlignmentOptions,
    rtl: bool,
) -> LineData {
    LineData {
        metrics: LineMetrics {
            offset: Ratio {
                numerator: aligned_offset_halves(line, alignment, options, rtl) as i64,
                denominator: 2,
            },
            ..line.metrics
        },
        justification: Justification {
            amount_per_opportunity: aligned_amount(line, alignment, options, rtl),
        },
        ..line
    }
}

/// `lines` once aligned, one by one.
pub open spec fn aligned_lines(
    lines: Seq<LineData>,
    alignment: Alignment,
    options: AlignmentOptions,
    rtl: bool,
) -> Seq<LineData> {
    lines.map_values(|line: LineData| aligned_line(line, alignment, options, rtl))
}

/// The free space of `line`.
fn line_free_space(line: &LineData) -> (r: i64)
    ensures
        r == free_space(*line),
        -0x4_0000_0000 < r < 0x4_0000_0000,
{
    let m = &line.metrics;
    (m.inline_max_coord as i64 - m.inline_min_coord as i64) - line.indent as i64 - m.advance as i64
        + m.hanging_advance as i64
}

/// Where alignment puts the content of `line`, whose free space is `space`.
fn line_placement(
    line: &LineData,
    alignment: Alignment,
    options: AlignmentOptions,
    rtl: bool,
    space: i64,
) -> (r: Placement)
    requires
        space == free_space(*line),
    ensures
        r == placement(*line, alignment, options, rtl),
{
    let start = if rtl { Placement::Right } else { Placement::Left };
    let end = if rtl { Placement::Left } else { Placement::Right };
    if !options.align_when_overflowing && space <= 0 {
        return start;
    }
    let is_last_line = match line.break_reason {
        crate::data::BreakReason::EndOfParagraph => true,
        crate::data::BreakReason::Explicit => true,
        _ => false,
    };
    let line_alignment = match options.last_line_alignment {
        Some(last) => if is_last_line { last } else { alignment },
        None => alignment,
    };
    match line_alignment {
        Alignment::Left => Placement::Left,
        Alignment::Right => Placement::Right,
        Alignment::Center => Placement::Center,
        Alignment::Start => start,
        Alignment::End => end,
        Alignment::Justify => {
            if (is_last_line && options.last_line_alignment.is_none())
                || line.num_justification_opportunities == 0 {
                start
            } else if space <= 0 {
                Placement::Left
            } else {
                Placement::Justified
            }
        },
    }
}

/// `line` aligned with `alignment` and `options` in a paragraph of the direction `rtl`.
fn align_line(line: LineData, alignment: Alignment, options: AlignmentOptions, rtl: bool) -> (r:
    LineData)
    ensures
        r == aligned_line(line, alignment, options, rtl),
{
    let space = line_free_space(&line);
    let placement = line_placement(&line, alignment, options, rtl, space);
    let left: i64 = if rtl { -(line.metrics.hanging_advance as i64) } else { line.indent as i64 };
    let mut amount = Ratio { numerator: 0, denominator: 1 };
    let offset_halves: i64 = match placement {
        Placement::Left => 2 * left,
        Placement::Right => 2 * left + 2 * space,
        Placement::Center => 2 * left + space,
        Placement::Justified => {
            amount =
            Ratio {
                numerator: space,
                denominator: line.num_justification_opportunities as u64,
            };
            2 * left
        },
    };
    let mut r = line;
    r.metrics.offset = Ratio { numerator: offset_halves, denominator: 2 };
    r.justification = Justification { amount_per_opportunity: amount };
    r
}

/// Align the layout: set the offset and the justification of each line.
pub fn align(layout: &mut LayoutData, alignment: Alignment, options: AlignmentOptions)
    ensures
        final(layout).alignment == Some(alignment),
        final(layout).base_level == old(layout).base_level,
        final(layout).lines@ == aligned_lines(
            old(layout).lines@,
            alignment,
            options,
            level_is_rtl(old(layout).base_level),
        ),
{
    layout.alignment = Some(alignment);
    let rtl = layout.is_rtl();
    let ghost lines0 = layout.lines@;
    let n = layout.lines.len();
    let mut i: usize = 0;
    while i < n
        invariant
            n == layout.lines.len(),
            n == lines0.len(),
            i <= n,
            rtl == level_is_rtl(layout.base_level),
            layout.base_level == old(layout).base_level,
            layout.alignment == Some(alignment),
            lines0 == old(layout).lines@,
            forall|j: int|
                0 <= j < i ==> layout.lines@[j] == aligned_line(lines0[j], alignment, options, rtl),
            forall|j: int| i <= j < n ==> layout.lines@[j] == lines0[j],
        decreases n - i,
    {
        let line = align_line(layout.lines[i], alignment, options, rtl);
        layout.lines.set(i, line);
        i = i + 1;
    }
    assert(layout.lines@ =~= aligned_lines(lines0, alignment, options, rtl));
}

} // verus!
