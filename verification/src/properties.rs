//! What alignment promises, stated over the contracts of `align` and proved.

use vstd::prelude::*;

use crate::alignment::{
    aligned_amount, aligned_line, aligned_lines, aligned_offset_halves, left_offset,
    line_alignment, placement, start_placement, Alignment, AlignmentOptions, Placement,
};
use crate::data::{
    free_space, is_last_line, level_is_rtl, line_width, BreakReason, LineData, Ratio,
};

verus! {

/// `Start` and `End` resolved against the text direction: `Left` or `Right`.
pub open spec fn physical_alignment(alignment: Alignment, rtl: bool) -> Alignment {
    match alignment {
        Alignment::Start => if rtl { Alignment::Right } else { Alignment::Left },
        Alignment::End => if rtl { Alignment::Left } else { Alignment::Right },
        _ => alignment,
    }
}

/// `options` with its last line alignment resolved against the text direction.
pub open spec fn physical_options(options: AlignmentOptions, rtl: bool) -> AlignmentOptions {
    AlignmentOptions {
        align_when_overflowing: options.align_when_overflowing,
        last_line_alignment: match options.last_line_alignment {
            Some(last) => Some(physical_alignment(last, rtl)),
            None => None,
        },
    }
}

/// What justification adds to a line's advance: its amount per opportunity times the number of
/// opportunities.
pub open spec fn justification_spread(line: LineData) -> int {
    (line.num_justification_opportunities as int * line.justification.amount_per_opportunity.numerator)
        / (line.justification.amount_per_opportunity.denominator as int)
}

/// The width of a line's visible content: its advance less the hanging trailing whitespace,
/// plus what justification adds.
pub open spec fn content_advance(line: LineData) -> int {
    line.metrics.advance - line.metrics.hanging_advance + justification_spread(line)
}

/// In half units, the space between the left edge of the line box (after the indent, in
/// left-to-right text) and the left edge of the visible content of a line whose offset is held
/// over a denominator of 2.
pub open spec fn left_gap_halves(line: LineData, rtl: bool) -> int {
    if rtl {
        line.metrics.offset.numerator + 2 * line.metrics.hanging_advance
    } else {
        line.metrics.offset.numerator - 2 * line.indent
    }
}

/// In half units, the space between the right edge of the visible content and the right edge
/// of the line box (before the indent, in right-to-left text) of a line whose offset is held
/// over a denominator of 2.
pub open spec fn right_gap_halves(line: LineData, rtl: bool) -> int {
    if rtl {
        2 * (line_width(line) - line.indent) - line.metrics.offset.numerator - 2
            * line.metrics.hanging_advance - 2 * content_advance(line)
    } else {
        2 * line_width(line) - line.metrics.offset.numerator - 2 * content_advance(line)
    }
}

/// The offset and the justification that alignment writes fit their fields, so that the
/// aligned line holds them exactly: the offset over a denominator of 2, the amount per
/// opportunity over the number of opportunities when the line is justified, and zero otherwise.
pub proof fn lemma_aligned_values_fit(
    line: LineData,
    alignment: Alignment,
    options: AlignmentOptions,
    rtl: bool,
)
    ensures
        i64::MIN <= aligned_offset_halves(line, alignment, options, rtl) <= i64::MAX,
        aligned_line(line, alignment, options, rtl).metrics.offset.numerator
            == aligned_offset_halves(line, alignment, options, rtl),
        aligned_line(line, alignment, options, rtl).metrics.offset.denominator == 2,
        placement(line, alignment, options, rtl) is Justified ==> {
            let amount = aligned_line(line, alignment, options, rtl).justification.amount_per_opportunity;
            &&& amount.numerator == free_space(line)
            &&& amount.denominator == line.num_justification_opportunities
            &&& amount.denominator > 0
            &&& amount.numerator > 0
        },
        !(placement(line, alignment, options, rtl) is Justified) ==> aligned_line(
            line,
            alignment,
            options,
            rtl,
        ).justification.amount_per_opportunity == (Ratio { numerator: 0, denominator: 1 }),
{
}

/// How alignment places a line's visible content in its line box, once the line is aligned:
/// left aligned content leaves all the free space on the right, right aligned content all of it
/// on the left, centred content exactly half of it on each side, and justified content, spread
/// by exactly the free space, fills the line box.
pub proof fn lemma_aligned_content_position(
    line: LineData,
    alignment: Alignment,
    options: AlignmentOptions,
    rtl: bool,
)
    ensures
        ({
            let aligned = aligned_line(line, alignment, options, rtl);
            let space = free_space(line);
            match placement(line, alignment, options, rtl) {
                Placement::Left => left_gap_halves(aligned, rtl) == 0 && right_gap_halves(
                    aligned,
                    rtl,
                ) == 2 * space,
                Placement::Right => left_gap_halves(aligned, rtl) == 2 * space
                    && right_gap_halves(aligned, rtl) == 0,
                Placement::Center => left_gap_halves(aligned, rtl) == space && right_gap_halves(
                    aligned,
                    rtl,
                ) == space,
                Placement::Justified => left_gap_halves(aligned, rtl) == 0 && right_gap_halves(
                    aligned,
                    rtl,
                ) == 0 && justification_spread(aligned) == space,
            }
        }),
{
    lemma_aligned_values_fit(line, alignment, options, rtl);
    let aligned = aligned_line(line, alignment, options, rtl);
    let space = free_space(line);
    let n = line.num_justification_opportunities as int;
    assert(left_offset(aligned, rtl) == left_offset(line, rtl));
    if placement(line, alignment, options, rtl) is Justified {
        assert(n * space == space * n) by (nonlinear_arith);
        vstd::arithmetic::div_mod::lemma_div_multiples_vanish(space, n);
        assert(justification_spread(aligned) == space);
    } else {
        assert(justification_spread(aligned) == 0) by (nonlinear_arith)
            requires
                aligned.justification.amount_per_opportunity.numerator == 0,
                aligned.justification.amount_per_opportunity.denominator == 1,
                justification_spread(aligned) == (aligned.num_justification_opportunities as int
                    * aligned.justification.amount_per_opportunity.numerator) / (
                aligned.justification.amount_per_opportunity.denominator as int),
        ;
    }
}

/// `Start` is `Left` in left-to-right text and `Right` in right-to-left text, and `End` the
/// other way round, both as the alignment of a layout and as the alignment of its last lines.
pub proof fn lemma_start_and_end_follow_direction(
    line: LineData,
    alignment: Alignment,
    options: AlignmentOptions,
    rtl: bool,
)
    ensures
        aligned_line(line, alignment, options, rtl) == aligned_line(
            line,
            physical_alignment(alignment, rtl),
            physical_options(options, rtl),
            rtl,
        ),
{
}

/// Unless `align_when_overflowing` is set, a line without free space is start aligned.
pub proof fn lemma_overflowing_lines_are_start_aligned(
    line: LineData,
    alignment: Alignment,
    options: AlignmentOptions,
    rtl: bool,
)
    requires
        !options.align_when_overflowing,
        free_space(line) <= 0,
    ensures
        placement(line, alignment, options, rtl) == start_placement(rtl),
{
}

/// With no last line alignment (CSS `auto`), last lines are aligned like the other lines when
/// the alignment is not `Justify`.
pub proof fn lemma_auto_last_lines_follow_alignment(
    line: LineData,
    alignment: Alignment,
    align_when_overflowing: bool,
    rtl: bool,
)
    requires
        alignment != Alignment::Justify,
    ensures
        aligned_line(
            line,
            alignment,
            AlignmentOptions { align_when_overflowing, last_line_alignment: None },
            rtl,
        ) == aligned_line(
            line,
            alignment,
            AlignmentOptions { align_when_overflowing, last_line_alignment: Some(alignment) },
            rtl,
        ),
{
}

/// Under `Justify`, no last line alignment is the same as a start aligned last line: last
/// lines are start aligned.
pub proof fn lemma_auto_justify_starts_last_lines(
    line: LineData,
    align_when_overflowing: bool,
    rtl: bool,
)
    ensures
        is_last_line(line.break_reason) ==> placement(
            line,
            Alignment::Justify,
            AlignmentOptions { align_when_overflowing, last_line_alignment: None },
            rtl,
        ) == start_placement(rtl),
        aligned_line(
            line,
            Alignment::Justify,
            AlignmentOptions { align_when_overflowing, last_line_alignment: None },
            rtl,
        ) == aligned_line(
            line,
            Alignment::Justify,
            AlignmentOptions {
                align_when_overflowing,
                last_line_alignment: Some(Alignment::Start),
            },
            rtl,
        ),
{
}

/// A last line is aligned by the last line alignment when one is set, whatever the alignment
/// of the other lines.
pub proof fn lemma_last_lines_follow_last_line_alignment(
    line: LineData,
    alignment: Alignment,
    options: AlignmentOptions,
    rtl: bool,
)
    requires
        is_last_line(line.break_reason),
        options.last_line_alignment is Some,
    ensures
        aligned_line(line, alignment, options, rtl) == aligned_line(
            line,
            options.last_line_alignment->0,
            options,
            rtl,
        ),
{
}

/// A line that is not a last line is aligned the same whatever the last line alignment.
pub proof fn lemma_other_lines_ignore_last_line_alignment(
    line: LineData,
    alignment: Alignment,
    align_when_overflowing: bool,
    last1: Option<Alignment>,
    last2: Option<Alignment>,
    rtl: bool,
)
    requires
        !is_last_line(line.break_reason),
    ensures
        aligned_line(
            line,
            alignment,
            AlignmentOptions { align_when_overflowing, last_line_alignment: last1 },
            rtl,
        ) == aligned_line(
            line,
            alignment,
            AlignmentOptions { align_when_overflowing, last_line_alignment: last2 },
            rtl,
        ),
{
}

/// A line to be justified that has no justification opportunity is start aligned, whether or
/// not it is a last line.
pub proof fn lemma_unjustifiable_lines_are_start_aligned(
    line: LineData,
    alignment: Alignment,
    options: AlignmentOptions,
    rtl: bool,
)
    requires
        line_alignment(alignment, options, line.break_reason) == Alignment::Justify,
        line.num_justification_opportunities == 0,
    ensures
        placement(line, alignment, options, rtl) == start_placement(rtl),
{
}

/// A last line alignment of `Justify` justifies the last lines that have free space and a
/// justification opportunity, as `Justify` does the other lines.
pub proof fn lemma_justify_last_line_alignment_justifies(
    line: LineData,
    alignment: Alignment,
    align_when_overflowing: bool,
    rtl: bool,
)
    requires
        line.num_justification_opportunities > 0,
        free_space(line) > 0,
        is_last_line(line.break_reason) || alignment == Alignment::Justify,
    ensures
        placement(
            line,
            alignment,
            AlignmentOptions {
                align_when_overflowing,
                last_line_alignment: Some(Alignment::Justify),
            },
            rtl,
        ) == Placement::Justified,
{
}

/// Aligning a layout again gives what aligning it once with the last alignment and options
/// gives: alignment depends on nothing that it writes. Aligning twice alike changes nothing.
pub proof fn lemma_realign(
    lines: Seq<LineData>,
    alignment1: Alignment,
    options1: AlignmentOptions,
    alignment2: Alignment,
    options2: AlignmentOptions,
    rtl: bool,
)
    ensures
        aligned_lines(aligned_lines(lines, alignment1, options1, rtl), alignment2, options2, rtl)
            == aligned_lines(lines, alignment2, options2, rtl),
        aligned_lines(aligned_lines(lines, alignment1, options1, rtl), alignment1, options1, rtl)
            == aligned_lines(lines, alignment1, options1, rtl),
{
    let once = aligned_lines(lines, alignment1, options1, rtl);
    assert forall|i: int| 0 <= i < lines.len() implies aligned_line(
        #[trigger] once[i],
        alignment2,
        options2,
        rtl,
    ) == aligned_line(lines[i], alignment2, options2, rtl) by {
        let l = lines[i];
        let a = once[i];
        assert(free_space(a) == free_space(l));
        assert(placement(a, alignment2, options2, rtl) == placement(l, alignment2, options2, rtl));
    }
    assert(aligned_lines(once, alignment2, options2, rtl) =~= aligned_lines(
        lines,
        alignment2,
        options2,
        rtl,
    ));
    assert forall|i: int| 0 <= i < lines.len() implies aligned_line(
        #[trigger] once[i],
        alignment1,
        options1,
        rtl,
    ) == aligned_line(lines[i], alignment1, options1, rtl) by {
        let l = lines[i];
        let a = once[i];
        assert(free_space(a) == free_space(l));
        assert(placement(a, alignment1, options1, rtl) == placement(l, alignment1, options1, rtl));
    }
    assert(aligned_lines(once, alignment1, options1, rtl) =~= once);
}


/// Whether `applied` is the alignment that applies to `line`: for a last line (the paragraph's
/// last line, or a line that ends in a hard break) the last line alignment when one is set, and
/// for every other line the layout's alignment.
pub open spec fn applies(
    line: LineData,
    alignment: Alignment,
    options: AlignmentOptions,
    applied: Alignment,
) -> bool {
    let last = line.break_reason == BreakReason::EndOfParagraph || line.break_reason
        == BreakReason::Explicit;
    match options.last_line_alignment {
        Some(last_alignment) => if last {
            applied == last_alignment
        } else {
            applied == alignment
        },
        None => applied == alignment,
    }
}

/// The room a line leaves in its line box: its width less its indent and its content, the
/// hanging trailing whitespace not counted.
pub open spec fn room(line: LineData) -> int {
    (line.metrics.inline_max_coord - line.metrics.inline_min_coord) - line.indent
        - line.metrics.advance + line.metrics.hanging_advance
}

/// Where flush left content starts: after the indent in left-to-right text; in right-to-left
/// text, with the trailing whitespace hanging off the left edge.
pub open spec fn flush_left_offset(line: LineData, rtl: bool) -> int {
    if rtl { -line.metrics.hanging_advance } else { line.indent as int }
}

/// Whether an aligned line has offset `halves / 2` and no justification.
pub open spec fn placed_at_halves(aligned: LineData, halves: int) -> bool {
    &&& aligned.metrics.offset == (Ratio { numerator: halves as i64, denominator: 2 })
    &&& aligned.justification.amount_per_opportunity == (Ratio { numerator: 0, denominator: 1 })
}

proof fn lemma_no_spread(line: LineData)
    requires
        line.justification.amount_per_opportunity == (Ratio { numerator: 0, denominator: 1 }),
    ensures
        justification_spread(line) == 0,
        content_advance(line) == line.metrics.advance - line.metrics.hanging_advance,
{
    assert(line.num_justification_opportunities as int * 0 == 0) by (nonlinear_arith);
}

/// A line to which `Center` applies, and that has room or may be aligned when overflowing, is
/// centred: its offset is its flush left offset plus exactly half its room, it is not
/// justified, and it leaves exactly half its room on each side of its content.
pub proof fn lemma_centred_lines(
    line: LineData,
    alignment: Alignment,
    options: AlignmentOptions,
    rtl: bool,
)
    requires
        applies(line, alignment, options, Alignment::Center),
        options.align_when_overflowing || room(line) > 0,
    ensures
        placed_at_halves(
            aligned_line(line, alignment, options, rtl),
            2 * flush_left_offset(line, rtl) + room(line),
        ),
        left_gap_halves(aligned_line(line, alignment, options, rtl), rtl) == room(line),
        right_gap_halves(aligned_line(line, alignment, options, rtl), rtl) == room(line),
{
    lemma_aligned_values_fit(line, alignment, options, rtl);
    lemma_no_spread(aligned_line(line, alignment, options, rtl));
}

/// A line to which `Right` applies, or `End` in left-to-right text, or `Start` in right-to-left
/// text, and that has room or may be aligned when overflowing, is flush right: its offset is
/// its flush left offset plus its room, it is not justified, and it leaves no space on the
/// right of its content and all its room on the left.
pub proof fn lemma_flush_right_lines(
    line: LineData,
    alignment: Alignment,
    options: AlignmentOptions,
    rtl: bool,
)
    requires
        applies(line, alignment, options, Alignment::Right) || (!rtl && applies(
            line,
            alignment,
            options,
            Alignment::End,
        )) || (rtl && applies(line, alignment, options, Alignment::Start)),
        options.align_when_overflowing || room(line) > 0 || rtl,
    ensures
        placed_at_halves(
            aligned_line(line, alignment, options, rtl),
            2 * flush_left_offset(line, rtl) + 2 * room(line),
        ),
        left_gap_halves(aligned_line(line, alignment, options, rtl), rtl) == 2 * room(line),
        right_gap_halves(aligned_line(line, alignment, options, rtl), rtl) == 0,
{
    lemma_aligned_values_fit(line, alignment, options, rtl);
    lemma_no_spread(aligned_line(line, alignment, options, rtl));
}

/// A line to which `Left` applies, or `Start` in left-to-right text, or `End` in right-to-left
/// text, is flush left, whatever its number of justification opportunities or why it ends:
/// its offset is its flush left offset, it is not justified, and it leaves no space on the left
/// of its content and all its room on the right. (A right-to-left line without room is start
/// aligned instead unless it may be aligned when overflowing.)
pub proof fn lemma_flush_left_lines(
    line: LineData,
    alignment: Alignment,
    options: AlignmentOptions,
    rtl: bool,
)
    requires
        applies(line, alignment, options, Alignment::Left) || (!rtl && applies(
            line,
            alignment,
            options,
            Alignment::Start,
        )) || (rtl && applies(line, alignment, options, Alignment::End)),
        options.align_when_overflowing || room(line) > 0 || !rtl,
    ensures
        placed_at_halves(
            aligned_line(line, alignment, options, rtl),
            2 * flush_left_offset(line, rtl),
        ),
        left_gap_halves(aligned_line(line, alignment, options, rtl), rtl) == 0,
        right_gap_halves(aligned_line(line, alignment, options, rtl), rtl) == 2 * room(line),
{
    lemma_aligned_values_fit(line, alignment, options, rtl);
    lemma_no_spread(aligned_line(line, alignment, options, rtl));
}

/// Unless overflowing lines may be aligned, a line without room is start aligned whatever the
/// alignment: flush left in left-to-right text and flush right in right-to-left text, and not
/// justified.
pub proof fn lemma_overflowing_lines_start_at_the_start_edge(
    line: LineData,
    alignment: Alignment,
    options: AlignmentOptions,
    rtl: bool,
)
    requires
        !options.align_when_overflowing,
        room(line) <= 0,
    ensures
        placed_at_halves(
            aligned_line(line, alignment, options, rtl),
            2 * flush_left_offset(line, rtl) + if rtl { 2 * room(line) } else { 0 },
        ),
{
    lemma_aligned_values_fit(line, alignment, options, rtl);
}

/// A line to which `Justify` applies: a last line under automatic last line alignment, or a
/// line without justification opportunities, is start aligned; any other line with room starts
/// flush left and gives each opportunity exactly its room over the number of opportunities, so
/// that its content fills the line box; any other line without room stays flush left.
pub proof fn lemma_justified_lines(
    line: LineData,
    alignment: Alignment,
    options: AlignmentOptions,
    rtl: bool,
)
    requires
        applies(line, alignment, options, Alignment::Justify),
    ensures
        ({
            let aligned = aligned_line(line, alignment, options, rtl);
            let last = line.break_reason == BreakReason::EndOfParagraph || line.break_reason
                == BreakReason::Explicit;
            let n = line.num_justification_opportunities;
            if (last && options.last_line_alignment is None) || n == 0 || (
            !options.align_when_overflowing && room(line) <= 0) {
                placed_at_halves(
                    aligned,
                    2 * flush_left_offset(line, rtl) + if rtl { 2 * room(line) } else { 0 },
                )
            } else if room(line) > 0 {
                &&& aligned.metrics.offset == (Ratio {
                    numerator: (2 * flush_left_offset(line, rtl)) as i64,
                    denominator: 2,
                })
                &&& aligned.justification.amount_per_opportunity == (Ratio {
                    numerator: room(line) as i64,
                    denominator: n as u64,
                })
                &&& left_gap_halves(aligned, rtl) == 0
                &&& right_gap_halves(aligned, rtl) == 0
            } else {
                placed_at_halves(aligned, 2 * flush_left_offset(line, rtl))
            }
        }),
{
    lemma_aligned_values_fit(line, alignment, options, rtl);
    lemma_aligned_content_position(line, alignment, options, rtl);
}

/// Alignment writes only the offset and the justification of a line: everything else about the
/// line is kept.
pub proof fn lemma_alignment_keeps_the_rest_of_the_line(
    line: LineData,
    alignment: Alignment,
    options: AlignmentOptions,
    rtl: bool,
)
    ensures
        ({
            let aligned = aligned_line(line, alignment, options, rtl);
            &&& aligned.indent == line.indent
            &&& aligned.break_reason == line.break_reason
            &&& aligned.num_justification_opportunities == line.num_justification_opportunities
            &&& aligned.metrics.advance == line.metrics.advance
            &&& aligned.metrics.hanging_advance == line.metrics.hanging_advance
            &&& aligned.metrics.inline_min_coord == line.metrics.inline_min_coord
            &&& aligned.metrics.inline_max_coord == line.metrics.inline_max_coord
        }),
{
}

/// Aligning a layout aligns each of its lines in place: as many lines come out as went in, and
/// the line at each position is the line that was there, aligned.
pub proof fn lemma_lines_are_aligned_in_place(
    lines: Seq<LineData>,
    alignment: Alignment,
    options: AlignmentOptions,
    rtl: bool,
)
    ensures
        aligned_lines(lines, alignment, options, rtl).len() == lines.len(),
        forall|i: int|
            0 <= i < lines.len() ==> #[trigger] aligned_lines(lines, alignment, options, rtl)[i]
                == aligned_line(lines[i], alignment, options, rtl),
{
}

/// Paragraphs at bidi level 0 run left to right, and each level runs the other way from the
/// level below it: even levels are left to right and odd levels right to left.
pub proof fn lemma_odd_levels_run_right_to_left(level: u8)
    requires
        level < 255,
    ensures
        !level_is_rtl(0),
        level_is_rtl((level + 1) as u8) == !level_is_rtl(level),
{
}

} // verus!
