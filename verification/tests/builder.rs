use ratatui::style::Color;
use tui_rule::{
    Alignment, Bg, Margin, Orientation, Padding, Placement, Rule, SymbolSet, VerticalAlignment,
};

fn line_set() -> SymbolSet {
    SymbolSet::uniform('─')
}

fn rainbow() -> colorgrad::LinearGradient {
    colorgrad::GradientBuilder::new()
        .html_colors(&["#ff0000", "#00ff00", "#0000ff"])
        .build::<colorgrad::LinearGradient>()
        .unwrap()
}

#[test]
fn new_rule_has_the_defaults() {
    let rule = Rule::new();
    assert!(rule.gradient.is_none());
    assert_eq!(rule.symbol_set, line_set());
    assert_eq!(rule.orientation, Orientation::Horizontal);
    assert_eq!(rule.padding, Padding::new(0, 0, 0, 0));
    assert_eq!(rule.vertical_alignment, VerticalAlignment::Center);
    assert_eq!(rule.horizontal_alignment, Alignment::Center);
    assert_eq!(rule.extra_rep_1, 0);
    assert_eq!(rule.extra_rep_2, 0);
    assert!(matches!(rule.bg, Bg::Unset));
    assert_eq!(rule.area_margin, Margin::new(1, 1));
    let other = Rule::default();
    assert_eq!(other.symbol_set, line_set());
    assert_eq!(other.area_margin, Margin::new(1, 1));
    assert_eq!(other.orientation, Orientation::Horizontal);
}

#[test]
fn uniform_set_repeats_one_glyph() {
    let set = SymbolSet::uniform('x');
    assert_eq!(set, SymbolSet { start: 'x', end: 'x', rep_1: 'x', rep_2: 'x', center: 'x' });
}

#[test]
fn new_vertical_rule_is_vertical() {
    let rule = Rule::new_vertical();
    assert_eq!(rule.orientation, Orientation::Vertical);
    assert_eq!(rule.symbol_set, line_set());
    assert_eq!(rule.horizontal().orientation, Orientation::Horizontal);
    assert_eq!(Rule::new().vertical().orientation, Orientation::Vertical);
    assert_eq!(Rule::new().orientation(Orientation::Vertical).orientation, Orientation::Vertical);
}

#[test]
fn glyphs_are_set_one_by_one() {
    let rule = Rule::new().start('a').end('b').rep_1('c').rep_2('d').center('e');
    assert_eq!(
        rule.symbol_set,
        SymbolSet { start: 'a', end: 'b', rep_1: 'c', rep_2: 'd', center: 'e' }
    );
    let rule = rule.main_symbol('m');
    assert_eq!(
        rule.symbol_set,
        SymbolSet { start: 'a', end: 'b', rep_1: 'm', rep_2: 'm', center: 'e' }
    );
}

#[test]
fn glyphs_are_taken_from_a_set() {
    let set = SymbolSet { start: '+', end: '*', rep_1: '-', rep_2: '=', center: '|' };
    assert_eq!(Rule::from_set(set).symbol_set, set);
    assert_eq!(Rule::new().start('x').with_set(set).symbol_set, set);
    assert_eq!(Rule::from_set(set).orientation, Orientation::Horizontal);
}

#[test]
fn paddings_are_set_by_side_and_by_pair() {
    let rule = Rule::new().left_padding(1).right_padding(2).top_padding(3).bottom_padding(4);
    assert_eq!(rule.padding, Padding::new(1, 2, 3, 4));
    let rule = rule.horizontal_padding(9);
    assert_eq!(rule.padding, Padding::new(9, 9, 3, 4));
    let rule = rule.vertical_padding(7);
    assert_eq!(rule.padding, Padding::new(9, 9, 7, 7));
    let rule = rule.padding(Padding::new(u16::MAX, 0, 5, 6));
    assert_eq!(rule.padding, Padding::new(u16::MAX, 0, 5, 6));
}

#[test]
fn extra_repeats_are_set_alone_and_together() {
    let rule = Rule::new().extra_rep_1(3);
    assert_eq!((rule.extra_rep_1, rule.extra_rep_2), (3, 0));
    let rule = rule.extra_rep_2(4);
    assert_eq!((rule.extra_rep_1, rule.extra_rep_2), (3, 4));
    let rule = rule.extra_rep(8, 9);
    assert_eq!((rule.extra_rep_1, rule.extra_rep_2), (8, 9));
}

#[test]
fn alignments_and_margin_are_set() {
    let rule = Rule::new()
        .vertical_alignment(VerticalAlignment::Bottom)
        .horizontal_alignment(Alignment::Left)
        .area_margin(Margin::new(2, 0));
    assert_eq!(rule.vertical_alignment, VerticalAlignment::Bottom);
    assert_eq!(rule.horizontal_alignment, Alignment::Left);
    assert_eq!(rule.area_margin, Margin::new(2, 0));
    assert_eq!(rule.symbol_set, line_set());
}

#[test]
fn alignments_as_placements() {
    assert_eq!(VerticalAlignment::Top.placement(), Placement::Start);
    assert_eq!(VerticalAlignment::Center.placement(), Placement::Middle);
    assert_eq!(VerticalAlignment::Bottom.placement(), Placement::End);
    assert_eq!(Alignment::Left.placement(), Placement::Start);
    assert_eq!(Alignment::Center.placement(), Placement::Middle);
    assert_eq!(Alignment::Right.placement(), Placement::End);
}

#[test]
fn backgrounds_are_set() {
    assert!(matches!(Rule::new().bg_solid(Color::Cyan).bg, Bg::Solid(Color::Cyan)));
    assert!(matches!(Rule::new().bg_same_gradient().bg, Bg::Gradient));
    assert!(matches!(Rule::new().bg_gradient(rainbow()).bg, Bg::GradientCustom(_)));
    assert!(matches!(Rule::new().bg_solid(Color::Cyan).bg(Bg::Unset).bg, Bg::Unset));
    assert!(matches!(Bg::custom(rainbow()), Bg::GradientCustom(_)));
}

#[test]
fn gradient_is_attached() {
    let rule = Rule::new_with_gradient(rainbow());
    assert!(rule.gradient.is_some());
    assert_eq!(rule.symbol_set, line_set());
    let rule = Rule::new_vertical().left_padding(3).with_gradient(rainbow());
    assert!(rule.gradient.is_some());
    assert_eq!(rule.orientation, Orientation::Vertical);
    assert_eq!(rule.padding, Padding::new(3, 0, 0, 0));
}
