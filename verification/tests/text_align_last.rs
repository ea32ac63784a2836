//! Tests for `AlignmentOptions::last_line_alignment`, the alignment of the paragraph's last line
//! and lines ending in a hard break.
//!
//! Each layout stands for a shaped paragraph broken at a width of 200 units: every line is given
//! by its advance, its trailing whitespace and its number of whitespace gaps.

use parley::{
    align, Alignment, AlignmentOptions, BreakReason, Justification, LayoutData, LineData,
    LineMetrics, Ratio,
};

/// Tolerance for comparing positions, in layout units.
const EPSILON: f32 = 0.01;

/// One shaped line: its advance (trailing whitespace included), the advance of its trailing
/// whitespace, its number of justification opportunities and why it ends.
#[derive(Clone, Copy)]
struct Shaped {
    advance: i32,
    trailing: i32,
    gaps: usize,
    reason: BreakReason,
}

fn shaped(advance: i32, trailing: i32, gaps: usize, reason: BreakReason) -> Shaped {
    Shaped { advance, trailing, gaps, reason }
}

/// "The quick brown fox jumps over the lazy dog and runs far away." broken at 200 units.
fn latin() -> [Shaped; 3] {
    [
    shaped(187, 4, 4, BreakReason::Regular),
    shaped(193, 4, 5, BreakReason::Regular),
    shaped(61, 0, 1, BreakReason::EndOfParagraph),
    ]
}

/// An Arabic sentence of three lines broken at 200 units, right to left.
fn arabic() -> [Shaped; 3] {
    [
    shaped(195, 4, 4, BreakReason::Regular),
    shaped(191, 4, 7, BreakReason::Regular),
    shaped(121, 0, 2, BreakReason::EndOfParagraph),
    ]
}

fn line_data(line: &Shaped, width: i32) -> LineData {
    LineData {
        metrics: LineMetrics {
            advance: line.advance,
            hanging_advance: line.trailing,
            inline_min_coord: 0,
            inline_max_coord: width,
            offset: Ratio { numerator: 0, denominator: 1 },
        },
        indent: 0,
        break_reason: line.reason,
        num_justification_opportunities: line.gaps,
        justification: Justification { amount_per_opportunity: Ratio { numerator: 0, denominator: 1 } },
    }
}

fn broken_layout(lines: &[Shaped], width: i32, rtl: bool) -> LayoutData {
    LayoutData {
        base_level: if rtl { 1 } else { 0 },
        alignment: None,
        lines: lines.iter().map(|line| line_data(line, width)).collect(),
    }
}

fn build_layout(
    lines: &[Shaped],
    rtl: bool,
    width: i32,
    alignment: Alignment,
    last_line_alignment: Option<Alignment>,
) -> LayoutData {
    let mut layout = broken_layout(lines, width, rtl);
    align(
        &mut layout,
        alignment,
        AlignmentOptions {
            last_line_alignment,
            ..AlignmentOptions::default()
        },
    );
    layout
}

fn value(r: Ratio) -> f32 {
    r.numerator as f32 / r.denominator as f32
}

/// The left and right edges of each line's visible content, i.e. without its trailing
/// whitespace, which hangs on the left of right-to-left lines.
fn content_extents(layout: &LayoutData) -> Vec<(f32, f32)> {
    let rtl = layout.base_level % 2 == 1;
    layout
        .lines
        .iter()
        .map(|line| {
            let hanging = line.metrics.hanging_advance as f32;
            let left = value(line.metrics.offset) + if rtl { hanging } else { 0.0 };
            let right = left + line.metrics.advance as f32 - hanging
                + line.num_justification_opportunities as f32
                    * value(line.justification.amount_per_opportunity);
            (left, right)
        })
        .collect()
}

fn assert_close(actual: f32, expected: f32, what: &str) {
    assert!(
        (actual - expected).abs() < EPSILON,
        "{what}: expected {expected}, got {actual}"
    );
}

fn assert_fills(extent: (f32, f32), width: f32, line: usize) {
    assert_close(extent.0, 0.0, &format!("line {line} left edge"));
    assert_close(extent.1, width, &format!("line {line} right edge"));
}

fn assert_centered(extent: (f32, f32), width: f32, line: usize) {
    assert!(
        extent.0 > 1.0,
        "line {line} should not be start aligned: {extent:?}"
    );
    assert_close(
        extent.0,
        width - extent.1,
        &format!("line {line} free space"),
    );
}

#[test]
fn text_align_last_justify_center() {
    let width = 200;
    let layout = build_layout(&latin(), false, width, Alignment::Justify, Some(Alignment::Center));
    let extents = content_extents(&layout);
    let width = width as f32;

    assert_eq!(extents.len(), 3, "{extents:?}");
    assert_fills(extents[0], width, 0);
    assert_fills(extents[1], width, 1);
    assert_centered(extents[2], width, 2);
}

#[test]
fn text_align_last_justify_right() {
    let width = 200;
    let layout = build_layout(&latin(), false, width, Alignment::Justify, Some(Alignment::Right));
    let extents = content_extents(&layout);
    let width = width as f32;

    assert_eq!(extents.len(), 3, "{extents:?}");
    assert_fills(extents[0], width, 0);
    assert_fills(extents[1], width, 1);
    assert!(extents[2].0 > 1.0, "{extents:?}");
    assert_close(extents[2].1, width, "line 2 right edge");
}

#[test]
fn text_align_last_justify_justifies_last_line() {
    let width = 200;
    let layout = build_layout(&latin(), false, width, Alignment::Justify, Some(Alignment::Justify));
    let extents = content_extents(&layout);

    assert_eq!(extents.len(), 3, "{extents:?}");
    for (i, extent) in extents.into_iter().enumerate() {
        assert_fills(extent, width as f32, i);
    }
}

#[test]
fn text_align_last_none_is_start() {
    let width = 200;
    let default_layout = {
        let mut layout = broken_layout(&latin(), width, false);
        align(&mut layout, Alignment::Justify, AlignmentOptions::default());
        layout
    };
    let none_layout = build_layout(&latin(), false, width, Alignment::Justify, None);
    let start_layout = build_layout(&latin(), false, width, Alignment::Justify, Some(Alignment::Start));

    let extents = content_extents(&none_layout);
    let width = width as f32;
    assert_eq!(extents, content_extents(&default_layout));
    assert_eq!(extents, content_extents(&start_layout));
    assert_eq!(extents.len(), 3, "{extents:?}");
    assert_fills(extents[0], width, 0);
    assert_fills(extents[1], width, 1);
    assert_close(extents[2].0, 0.0, "line 2 left edge");
    assert!(extents[2].1 < width - 1.0, "{extents:?}");
}

#[test]
fn text_align_last_hard_break() {
    let width = 200;
    // "The quick brown fox jumps over the lazy dog\nand runs away from the hunter into the woods."
    let text = [
        shaped(189, 4, 7, BreakReason::Regular),
        shaped(71, 0, 1, BreakReason::Explicit),
        shaped(185, 4, 6, BreakReason::Regular),
        shaped(91, 0, 2, BreakReason::EndOfParagraph),
    ];
    let layout = build_layout(&text, false, width, Alignment::Justify, Some(Alignment::Center));
    let extents = content_extents(&layout);
    let break_reasons: Vec<_> = layout.lines.iter().map(|line| line.break_reason).collect();
    let width = width as f32;

    assert_eq!(
        break_reasons,
        [
            BreakReason::Regular,
            BreakReason::Explicit,
            BreakReason::Regular,
            BreakReason::EndOfParagraph
        ],
        "{extents:?}"
    );
    assert_fills(extents[0], width, 0);
    assert_centered(extents[1], width, 1);
    assert_fills(extents[2], width, 2);
    assert_centered(extents[3], width, 3);
}

#[test]
fn text_align_last_rtl() {
    let width = 200;
    let w = width as f32;

    // Right alignment of RTL text is start alignment, `None` included.
    for last_line_alignment in [None, Some(Alignment::Start), Some(Alignment::Right)] {
        let layout = build_layout(&arabic(), true, width, Alignment::Justify, last_line_alignment);
        let extents = content_extents(&layout);
        let last = extents.len() - 1;
        assert!(last >= 2, "{extents:?}");
        for (i, extent) in extents[..last].iter().enumerate() {
            assert_fills(*extent, w, i);
        }
        assert!(extents[last].0 > 1.0, "{extents:?}");
        assert_close(extents[last].1, w, "last line right edge");
    }

    let layout = build_layout(&arabic(), true, width, Alignment::Justify, Some(Alignment::Center));
    let extents = content_extents(&layout);
    let last = extents.len() - 1;
    for (i, extent) in extents[..last].iter().enumerate() {
        assert_fills(*extent, w, i);
    }
    assert_centered(extents[last], w, last);

    // End alignment of RTL text is left alignment.
    let layout = build_layout(&arabic(), true, width, Alignment::Justify, Some(Alignment::End));
    let extents = content_extents(&layout);
    let last = extents.len() - 1;
    for (i, extent) in extents[..last].iter().enumerate() {
        assert_fills(*extent, w, i);
    }
    assert_close(extents[last].0, 0.0, "last line left edge");
    assert!(extents[last].1 < w - 1.0, "{extents:?}");
}

#[test]
fn text_align_last_without_justify() {
    let width = 200;
    let layout = build_layout(&latin(), false, width, Alignment::Left, Some(Alignment::Right));
    let extents = content_extents(&layout);
    let width = width as f32;

    assert_eq!(extents.len(), 3, "{extents:?}");
    for (i, extent) in extents[..2].iter().enumerate() {
        assert_close(extent.0, 0.0, &format!("line {i} left edge"));
        assert!(extent.1 < width - 1.0, "{extents:?}");
    }
    assert!(extents[2].0 > 1.0, "{extents:?}");
    assert_close(extents[2].1, width, "line 2 right edge");
}

/// A line with no justification opportunity is start aligned: a line that isn't a last line
/// ignores `last_line_alignment`, and a last line that `last_line_alignment` asks to justify
/// falls back to start alignment.
#[test]
fn text_align_last_unjustifiable_line_is_start_aligned() {
    let width = 200;
    // "Incomprehensibilities antidisestablishment"
    let text = [
        shaped(151, 4, 0, BreakReason::Regular),
        shaped(161, 0, 0, BreakReason::EndOfParagraph),
    ];
    let layout = build_layout(&text, false, width, Alignment::Justify, Some(Alignment::Center));
    let extents = content_extents(&layout);
    let break_reasons: Vec<_> = layout.lines.iter().map(|line| line.break_reason).collect();
    let w = width as f32;

    assert_eq!(
        break_reasons,
        [BreakReason::Regular, BreakReason::EndOfParagraph],
        "{extents:?}"
    );
    assert_close(extents[0].0, 0.0, "line 0 left edge");
    assert!(extents[0].1 < w - 1.0, "{extents:?}");
    assert_centered(extents[1], w, 1);

    let layout = build_layout(&text, false, width, Alignment::Justify, Some(Alignment::Justify));
    let extents = content_extents(&layout);
    assert_eq!(extents.len(), 2, "{extents:?}");
    for (i, extent) in extents.into_iter().enumerate() {
        assert_close(extent.0, 0.0, &format!("line {i} left edge"));
        assert!(extent.1 < w - 1.0, "line {i}: {extent:?}");
    }
}
