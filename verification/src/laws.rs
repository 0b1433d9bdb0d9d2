//! What holds of every rule, proved from the definitions of the layout.
use vstd::prelude::*;
use crate::geometry::Rect;
use crate::layout::{
    anchor,
    first_repeat,
    lead_blanks,
    printable_len,
    second_repeat,
    trail_blanks,
};
use crate::rule::Rule;
use crate::segment::rule_line;
use crate::symbols::{Alignment, Orientation, Placement, SymbolSet};

verus! {

/// Whether both paddings leave room on an axis of `axis` cells: the
/// leading one for the first filler run, the trailing one for the second.
pub open spec fn room(axis: u16, pad_1: u16, pad_2: u16) -> bool {
    pad_1 + 1 <= axis / 2 && pad_2 + 2 <= (axis + 1) / 2
}

/// The place of the center glyph in the line of a rule.
pub open spec fn center_index(place: Placement, axis: u16, pad_1: u16, pad_2: u16, extra_1: usize) -> nat {
    lead_blanks(place, pad_1, pad_2) + 1 + first_repeat(axis, pad_1, extra_1)
}

/// The length of a line: the blanks on both sides and the glyphs between
/// them.
pub proof fn line_length(
    set: SymbolSet,
    place: Placement,
    axis: u16,
    pad_1: u16,
    pad_2: u16,
    extra_1: usize,
    extra_2: usize,
)
    ensures
        rule_line(set, place, axis, pad_1, pad_2, extra_1, extra_2).len() == lead_blanks(
            place,
            pad_1,
            pad_2,
        ) + printable_len(axis, pad_1, pad_2, extra_1, extra_2) + trail_blanks(place, pad_1, pad_2),
        lead_blanks(place, pad_1, pad_2) + trail_blanks(place, pad_1, pad_2) == pad_1 + pad_2,
{
}

/// The center glyph of a line stands at `center_index`, the start glyph
/// right after the leading blanks and the end glyph right before the
/// trailing ones.
pub proof fn fixed_glyphs(
    set: SymbolSet,
    place: Placement,
    axis: u16,
    pad_1: u16,
    pad_2: u16,
    extra_1: usize,
    extra_2: usize,
)
    ensures
        ({
            let line = rule_line(set, place, axis, pad_1, pad_2, extra_1, extra_2);
            let lead = lead_blanks(place, pad_1, pad_2);
            &&& line[lead as int] == set.start
            &&& line[center_index(place, axis, pad_1, pad_2, extra_1) as int] == set.center
            &&& line[lead + printable_len(axis, pad_1, pad_2, extra_1, extra_2) - 1] == set.end
        }),
{
}

/// With no extra repeats, the glyphs from the start glyph to the end
/// glyph and the two paddings fill the axis exactly where both paddings
/// leave room; everywhere else they are more than the axis holds, since
/// the three fixed glyphs are always drawn.
pub proof fn length_fills_axis(axis: u16, pad_1: u16, pad_2: u16)
    ensures
        room(axis, pad_1, pad_2) ==> printable_len(axis, pad_1, pad_2, 0, 0) + pad_1 + pad_2
            == axis,
        !room(axis, pad_1, pad_2) ==> printable_len(axis, pad_1, pad_2, 0, 0) + pad_1 + pad_2
            > axis,
{
}

/// The margin of a rule along its own axis.
pub open spec fn margin_along(rule: Rule) -> u16 {
    match rule.orientation {
        Orientation::Horizontal => rule.area_margin.horizontal,
        Orientation::Vertical => rule.area_margin.vertical,
    }
}

/// The length of `area` along the axis of `rule`.
pub open spec fn length_along(rule: Rule, area: Rect) -> u16 {
    match rule.orientation {
        Orientation::Horizontal => area.width,
        Orientation::Vertical => area.height,
    }
}

/// A rule without extra repeats, in an area that holds its margin twice
/// each way, with paddings that leave room: its glyphs from start to end
/// number the length of the area along the rule, less the margin on both
/// ends and less both paddings, and its whole line is as long as the
/// rectangle it is drawn into. With a margin of one cell or more the
/// glyphs from start to end are therefore no more than the length of the
/// area less two and less both paddings.
pub proof fn length_within_area(rule: Rule, area: Rect)
    requires
        rule.extra_rep_1 == 0,
        rule.extra_rep_2 == 0,
        2 * rule.area_margin.horizontal <= area.width,
        2 * rule.area_margin.vertical <= area.height,
        room(rule.spec_axis(area), rule.pad_1(), rule.pad_2()),
    ensures
        rule.spec_axis(area) == length_along(rule, area) - 2 * margin_along(rule),
        printable_len(rule.spec_axis(area), rule.pad_1(), rule.pad_2(), 0, 0) == length_along(
            rule,
            area,
        ) - 2 * margin_along(rule) - rule.pad_1() - rule.pad_2(),
        rule.spec_line(area).len() == rule.spec_axis(area),
        margin_along(rule) >= 1 ==> printable_len(
            rule.spec_axis(area),
            rule.pad_1(),
            rule.pad_2(),
            0,
            0,
        ) <= length_along(rule, area) - 2 - rule.pad_1() - rule.pad_2(),
{
    length_fills_axis(rule.spec_axis(area), rule.pad_1(), rule.pad_2());
    line_length(
        rule.symbol_set,
        rule.along(),
        rule.spec_axis(area),
        rule.pad_1(),
        rule.pad_2(),
        0,
        0,
    );
}

/// With the same padding on both sides and the same extra repeats, the
/// first filler run is as long as the second or one glyph longer.
pub proof fn fillers_balanced(axis: u16, pad: u16, extra: usize)
    ensures
        first_repeat(axis, pad, extra) == second_repeat(axis, pad, extra) || first_repeat(
            axis,
            pad,
            extra,
        ) == second_repeat(axis, pad, extra) + 1,
{
}

/// Without padding and with the same extra repeats on both sides, the
/// center glyph stands at the midpoint of the glyphs from start to end,
/// or half a cell after it: twice its place in that run is the run's last
/// place or one more.
pub proof fn center_near_midpoint(place: Placement, axis: u16, extra: usize)
    ensures
        ({
            let in_run = center_index(place, axis, 0, 0, extra) - lead_blanks(place, 0, 0);
            let last = printable_len(axis, 0, 0, extra, extra) - 1;
            2 * in_run == last || 2 * in_run == last + 1
        }),
{
    fillers_balanced(axis, 0, extra);
}

/// A rule aligned to the left and the same rule aligned to the right are
/// anchored to mirrored columns: with the same padding `pad` on both
/// sides and no shift, in an area that ends within the grid and is wide
/// enough for the padding and three cells, the two anchors add up to
/// twice the area's first column and its width, less three.
pub proof fn anchors_mirrored(x: u16, width: u16, pad: u16)
    requires
        x + width <= u16::MAX,
        3 + pad <= x + width,
    ensures
        anchor(Placement::Start, x, (x + width) as u16, pad, pad, 0) + anchor(
            Placement::End,
            x,
            (x + width) as u16,
            pad,
            pad,
            0,
        ) == 2 * x + width - 3,
{
}

/// `anchors_mirrored` for the columns of a vertical rule: aligned to the
/// left and aligned to the right it is moved to columns that add up to
/// twice the area's first column and its width, less three.
pub proof fn columns_mirrored(rule: Rule, area: Rect)
    requires
        rule.orientation == Orientation::Vertical,
        rule.padding.left == rule.padding.right,
        rule.extra_rep_1 == 0,
        area.x + area.width <= u16::MAX,
        3 + rule.padding.left <= area.x + area.width,
    ensures
        ({
            let left = Rule { horizontal_alignment: Alignment::Left, ..rule };
            let right = Rule { horizontal_alignment: Alignment::Right, ..rule };
            left.spec_anchored(area).x + right.spec_anchored(area).x == 2 * area.x + area.width - 3
        }),
{
    anchors_mirrored(area.x, area.width, rule.padding.left);
}

} // verus!
