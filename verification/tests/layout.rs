use tui_rule::layout::{count_first, count_lead, count_second, count_trail, resolve_anchor};
use tui_rule::segment::{create_segment, push_run};
use tui_rule::{Alignment, Margin, Placement, Rect, Rule, SymbolSet, VerticalAlignment};

const PLUS: SymbolSet = SymbolSet { start: '<', rep_1: '-', center: '+', rep_2: '=', end: '>' };

fn text(glyphs: &[char]) -> String {
    glyphs.iter().collect()
}

#[test]
fn filler_counts_on_an_odd_axis() {
    assert_eq!(count_first(47, 1, 0), 21);
    assert_eq!(count_second(47, 1, 0), 21);
    assert_eq!(count_first(47, 0, 0), 22);
    assert_eq!(count_second(47, 0, 0), 22);
}

#[test]
fn filler_counts_on_an_even_axis() {
    assert_eq!(count_first(48, 0, 0), 23);
    assert_eq!(count_second(48, 0, 0), 22);
    assert_eq!(count_first(48, 3, 0), 20);
    assert_eq!(count_second(48, 3, 0), 19);
}

#[test]
fn filler_counts_on_a_short_axis() {
    for axis in 0u16..3 {
        assert_eq!(count_first(axis, 0, 0), 0);
        assert_eq!(count_second(axis, 0, 0), 0);
    }
    assert_eq!(count_first(3, 0, 0), 0);
    assert_eq!(count_second(3, 0, 0), 0);
    assert_eq!(count_first(4, 0, 0), 1);
    assert_eq!(count_second(4, 0, 0), 0);
    assert_eq!(count_first(5, 0, 0), 1);
    assert_eq!(count_second(5, 0, 0), 1);
}

#[test]
fn filler_counts_follow_floor_and_round() {
    for axis in 0u16..=1200 {
        for pad in [0u16, 1, 2, 5, 300, u16::MAX] {
            for extra in [0usize, 1, 9] {
                let half = (f32::from(axis) / 2.0) - 1.0;
                let first = (half.floor() as usize).saturating_sub(pad as usize) + extra;
                let second = (half.round() as usize).saturating_sub(pad as usize + 1) + extra;
                assert_eq!(count_first(axis, pad, extra), first);
                assert_eq!(count_second(axis, pad, extra), second);
            }
        }
    }
    let half = (f32::from(u16::MAX) / 2.0) - 1.0;
    assert_eq!(count_first(u16::MAX, 0, 0), half.floor() as usize);
    assert_eq!(count_second(u16::MAX, 0, 0), half.round() as usize - 1);
}

#[test]
fn padding_larger_than_the_axis_leaves_no_filler() {
    assert_eq!(count_first(10, 50, 0), 0);
    assert_eq!(count_second(10, 50, 0), 0);
    assert_eq!(count_first(10, u16::MAX, 2), 2);
    assert_eq!(count_second(10, u16::MAX, 3), 3);
}

#[test]
fn extra_repeats_stop_at_the_largest_count() {
    assert_eq!(count_first(10, 0, usize::MAX), usize::MAX);
    assert_eq!(count_second(10, 0, usize::MAX), usize::MAX);
    assert_eq!(count_first(10, 0, usize::MAX - 4), usize::MAX);
    assert_eq!(count_first(10, 0, usize::MAX - 5), usize::MAX - 1);
}

#[test]
fn fillers_differ_by_at_most_one() {
    for axis in 0u16..=600 {
        for pad in [0u16, 1, 2, 10, 299, 300, 301] {
            for extra in [0usize, 4, usize::MAX - 2, usize::MAX] {
                let first = count_first(axis, pad, extra);
                let second = count_second(axis, pad, extra);
                assert!(first == second || first == second + 1);
            }
        }
    }
}

#[test]
fn blanks_follow_the_alignment() {
    assert_eq!(count_lead(Placement::Start, 2, 5), 0);
    assert_eq!(count_trail(Placement::Start, 2, 5), 7);
    assert_eq!(count_lead(Placement::Middle, 2, 5), 2);
    assert_eq!(count_trail(Placement::Middle, 2, 5), 5);
    assert_eq!(count_lead(Placement::End, 2, 5), 7);
    assert_eq!(count_trail(Placement::End, 2, 5), 0);
    assert_eq!(count_lead(Placement::End, u16::MAX, u16::MAX), 131070);
    assert_eq!(count_trail(Placement::Start, u16::MAX, u16::MAX), 131070);
}

#[test]
fn anchor_at_the_start() {
    assert_eq!(resolve_anchor(Placement::Start, 5, 24, 0, 0, 0), 5);
    assert_eq!(resolve_anchor(Placement::Start, 5, 24, 2, 1, 0), 6);
    assert_eq!(resolve_anchor(Placement::Start, 0, 19, 1, 3, 0), 0);
    assert_eq!(resolve_anchor(Placement::Start, 0, 19, 1, 1, 0), 0);
    assert_eq!(resolve_anchor(Placement::Start, u16::MAX, u16::MAX, 5, 2, 0), u16::MAX);
    assert_eq!(resolve_anchor(Placement::Start, 65000, u16::MAX, 1000, 600, 0), 65400);
    assert_eq!(resolve_anchor(Placement::Start, 65000, u16::MAX, 1000, 400, 0), u16::MAX);
    assert_eq!(resolve_anchor(Placement::Start, u16::MAX, u16::MAX, u16::MAX, u16::MAX, 0), u16::MAX);
    assert_eq!(resolve_anchor(Placement::Start, 3, 9, 2, 6, 0), 0);
}

#[test]
fn anchor_in_the_middle() {
    assert_eq!(resolve_anchor(Placement::Middle, 0, 19, 0, 0, 0), 8);
    assert_eq!(resolve_anchor(Placement::Middle, 0, 20, 0, 0, 0), 9);
    assert_eq!(resolve_anchor(Placement::Middle, 0, 19, 2, 3, 0), 7);
    assert_eq!(resolve_anchor(Placement::Middle, 0, 19, 2, 30, 0), 2);
    assert_eq!(resolve_anchor(Placement::Middle, 0, 1, 0, 0, 0), 0);
    assert_eq!(resolve_anchor(Placement::Middle, 0, 0, 0, u16::MAX, 0), 0);
    assert_eq!(resolve_anchor(Placement::Middle, 0, u16::MAX, u16::MAX, 0, 0), u16::MAX);
}

#[test]
fn anchor_at_the_end() {
    assert_eq!(resolve_anchor(Placement::End, 0, 19, 0, 0, 0), 16);
    assert_eq!(resolve_anchor(Placement::End, 0, 19, 1, 2, 0), 15);
    assert_eq!(resolve_anchor(Placement::End, 0, 2, 0, 0, 0), 0);
    assert_eq!(resolve_anchor(Placement::End, 0, 2, 4, 0, 0), 4);
    assert_eq!(resolve_anchor(Placement::End, 0, u16::MAX, 9, 0, 0), u16::MAX);
}

#[test]
fn anchor_moves_back_by_the_shift() {
    assert_eq!(resolve_anchor(Placement::Middle, 0, 19, 0, 0, 3), 5);
    assert_eq!(resolve_anchor(Placement::Middle, 0, 19, 0, 0, 8), 0);
    assert_eq!(resolve_anchor(Placement::Middle, 0, 19, 0, 0, 9), 0);
    assert_eq!(resolve_anchor(Placement::End, 0, u16::MAX, 0, 0, 65536), 0);
    assert_eq!(resolve_anchor(Placement::End, 0, u16::MAX, 0, 0, usize::MAX), 0);
}

#[test]
fn left_and_right_anchors_mirror_each_other() {
    for x in [0u16, 1, 7, 100] {
        for width in [3u16, 4, 49, 200] {
            for pad in [0u16, 1, 2] {
                if 3 + pad > x + width {
                    continue;
                }
                let far = x + width;
                let left = resolve_anchor(Placement::Start, x, far, pad, pad, 0);
                let right = resolve_anchor(Placement::End, x, far, pad, pad, 0);
                assert_eq!(u32::from(left) + u32::from(right), 2 * u32::from(x) + u32::from(width) - 3);
            }
        }
    }
    let left = resolve_anchor(Placement::Start, 65000, 65500, 600, 600, 0);
    let right = resolve_anchor(Placement::End, 65000, 65500, 600, 600, 0);
    assert_eq!(left, 65000);
    assert_eq!(right, 65497);
    assert_eq!(u32::from(left) + u32::from(right), 2 * 65000 + 500 - 3);
    let area = Rect::new(0, 0, 49, 19);
    let left = Rule::new_vertical().horizontal_alignment(Alignment::Left).draw_area(area);
    let right = Rule::new_vertical().horizontal_alignment(Alignment::Right).draw_area(area);
    assert_eq!(left.x, 1);
    assert_eq!(right.x, 47);
    assert_eq!(left.x - 1 + right.x - 1, 49 - 3);
}

#[test]
fn run_is_appended() {
    let mut line = vec!['a'];
    push_run(&mut line, 'x', 3);
    assert_eq!(text(&line), "axxx");
    push_run(&mut line, 'y', 0);
    assert_eq!(text(&line), "axxx");
}

#[test]
fn segment_in_the_middle() {
    let line = create_segment(&PLUS, Placement::Middle, 47, 1, 1, 0, 0);
    assert_eq!(text(&line), " <---------------------+=====================> ");
}

#[test]
fn segment_at_the_start_and_at_the_end() {
    let line = create_segment(&PLUS, Placement::Start, 12, 1, 2, 0, 0);
    assert_eq!(text(&line), "<----+==>   ");
    let line = create_segment(&PLUS, Placement::End, 12, 1, 2, 0, 0);
    assert_eq!(text(&line), "   <----+==>");
}

#[test]
fn segment_with_extra_repeats() {
    let line = create_segment(&PLUS, Placement::Middle, 8, 0, 0, 2, 1);
    assert_eq!(text(&line), "<-----+===>");
}

#[test]
fn segment_on_an_empty_axis_keeps_its_fixed_glyphs() {
    let line = create_segment(&PLUS, Placement::Middle, 0, 0, 0, 0, 0);
    assert_eq!(text(&line), "<+>");
    let line = create_segment(&PLUS, Placement::Middle, 0, 2, 1, 0, 0);
    assert_eq!(text(&line), "  <+> ");
}

#[test]
fn line_fills_the_axis_where_the_paddings_leave_room() {
    for axis in 0u16..=300 {
        for pad_1 in 0u16..4 {
            for pad_2 in 0u16..4 {
                let run = 3 + count_first(axis, pad_1, 0) + count_second(axis, pad_2, 0);
                let all = run + usize::from(pad_1) + usize::from(pad_2);
                let room = pad_1 + 1 <= axis / 2 && pad_2 + 2 <= (axis + 1) / 2;
                if room {
                    assert_eq!(all, usize::from(axis));
                } else {
                    assert!(all > usize::from(axis));
                }
                let line = create_segment(&PLUS, Placement::Middle, axis, pad_1, pad_2, 0, 0);
                assert_eq!(line.len(), all);
            }
        }
    }
}

#[test]
fn center_glyph_stands_at_the_midpoint() {
    for axis in 0u16..=301 {
        let line = create_segment(&PLUS, Placement::Middle, axis, 0, 0, 0, 0);
        let at = line.iter().position(|c| *c == '+').unwrap();
        let last = line.len() - 1;
        assert!(2 * at == last || 2 * at == last + 1);
        assert_eq!(line[0], '<');
        assert_eq!(line[last], '>');
    }
}

#[test]
fn draw_area_of_a_horizontal_rule() {
    let area = Rect::new(0, 0, 49, 19);
    assert_eq!(Rule::new().draw_area(area), Rect::new(1, 9, 47, 17));
    let top = Rule::new().vertical_alignment(VerticalAlignment::Top);
    assert_eq!(top.draw_area(area), Rect::new(1, 1, 47, 17));
    let bottom = Rule::new().vertical_alignment(VerticalAlignment::Bottom);
    assert_eq!(bottom.draw_area(area), Rect::new(1, 17, 47, 17));
    let padded = Rule::new().top_padding(3).bottom_padding(1);
    assert_eq!(padded.draw_area(area), Rect::new(1, 11, 47, 17));
    let shifted = Rule::new().extra_rep_1(2);
    assert_eq!(shifted.draw_area(area), Rect::new(1, 7, 47, 17));
}

#[test]
fn draw_area_of_a_vertical_rule() {
    let area = Rect::new(0, 0, 49, 19);
    assert_eq!(Rule::new_vertical().draw_area(area), Rect::new(24, 1, 47, 17));
    let left = Rule::new_vertical().horizontal_alignment(Alignment::Left);
    assert_eq!(left.draw_area(area), Rect::new(1, 1, 47, 17));
    let right = Rule::new_vertical().horizontal_alignment(Alignment::Right);
    assert_eq!(right.draw_area(area), Rect::new(47, 1, 47, 17));
    let padded = Rule::new_vertical().horizontal_alignment(Alignment::Right).left_padding(2).right_padding(5);
    assert_eq!(padded.draw_area(area), Rect::new(44, 1, 47, 17));
}

#[test]
fn draw_area_near_the_end_of_the_grid() {
    let top = Rule::new()
        .vertical_alignment(VerticalAlignment::Top)
        .top_padding(1000)
        .bottom_padding(600);
    assert_eq!(top.draw_area(Rect::new(0, 65000, 10, 100)), Rect::new(1, 65401, 8, 98));
    let left = Rule::new_vertical()
        .horizontal_alignment(Alignment::Left)
        .left_padding(1000)
        .right_padding(600);
    assert_eq!(left.draw_area(Rect::new(65000, 0, 100, 10)), Rect::new(65401, 1, 98, 8));
}

#[test]
fn draw_area_with_a_margin_that_does_not_fit() {
    let rule = Rule::new().area_margin(Margin::new(5, 0));
    assert_eq!(rule.draw_area(Rect::new(3, 4, 9, 6)), Rect::new(0, 0, 0, 0));
    let rule = Rule::new().area_margin(Margin::new(0, 4));
    assert_eq!(rule.draw_area(Rect::new(3, 4, 9, 6)), Rect::new(0, 0, 0, 0));
    let rule = Rule::new().area_margin(Margin::new(4, 3));
    assert_eq!(rule.draw_area(Rect::new(3, 0, 9, 6)), Rect::new(7, 5, 1, 0));
}

#[test]
fn draw_area_with_a_margin_beyond_half_the_grid() {
    let rule = Rule::new().area_margin(Margin::new(40000, 0));
    assert_eq!(rule.draw_area(Rect::new(0, 0, u16::MAX, 10)), Rect::new(40000, 4, 0, 10));
    assert_eq!(rule.draw_area(Rect::new(0, 0, u16::MAX - 1, 10)), Rect::new(0, 0, 0, 0));
    let rule = Rule::new().area_margin(Margin::new(1, 1));
    assert_eq!(
        rule.draw_area(Rect::new(u16::MAX, u16::MAX, 10, 10)),
        Rect::new(u16::MAX, 32767, 8, 8)
    );
}

#[test]
fn rectangle_holds_its_own_cells_only() {
    let area = Rect::new(2, 3, 4, 5);
    assert!(area.contains(2, 3));
    assert!(area.contains(5, 7));
    assert!(!area.contains(6, 7));
    assert!(!area.contains(5, 8));
    assert!(!area.contains(1, 3));
    assert!(!area.contains(2, 2));
    assert!(!Rect::new(0, 0, 0, 0).contains(0, 0));
    let edge = Rect::new(u16::MAX - 1, 0, 10, 1);
    assert!(edge.contains(u16::MAX - 1, 0));
    assert!(!edge.contains(u16::MAX, 0));
}

#[test]
fn line_of_a_rule() {
    let area = Rect::new(0, 0, 20, 9);
    let rule = Rule::from_set(PLUS).horizontal_padding(1);
    assert_eq!(text(&rule.line(area)), " <-------+======> ");
    let left = Rule::from_set(PLUS).horizontal_padding(1).horizontal_alignment(Alignment::Left);
    assert_eq!(text(&left.line(area)), "<-------+======>  ");
    let upright = Rule::from_set(PLUS).vertical().top_padding(1);
    assert_eq!(text(&upright.line(area)), " <-+==>");
    let high = Rule::from_set(PLUS)
        .vertical()
        .top_padding(1)
        .vertical_alignment(VerticalAlignment::Top);
    assert_eq!(text(&high.line(area)), "<-+==> ");
}
