//! Making a rule and changing its settings, one call after another.
use vstd::prelude::*;
use crate::color::{Bg, GradientSource};
use crate::geometry::{Margin, Padding};
use crate::rule::Rule;
use crate::symbols::{Alignment, Orientation, SymbolSet, VerticalAlignment};

verus! {

impl Rule {
    /// A horizontal rule that reads `─────────────`, without gradient or
    /// padding, centered on both axes.
    pub fn new() -> (rule: Rule)
        ensures
            rule == Rule::initial(),
    {
        Rule {
            gradient: None,
            symbol_set: SymbolSet { start: '─', end: '─', rep_1: '─', rep_2: '─', center: '─' },
            orientation: Orientation::Horizontal,
            padding: Padding { left: 0, right: 0, top: 0, bottom: 0 },
            vertical_alignment: VerticalAlignment::Center,
            horizontal_alignment: Alignment::Center,
            extra_rep_1: 0,
            extra_rep_2: 0,
            bg: Bg::Unset,
            area_margin: Margin { horizontal: 1, vertical: 1 },
        }
    }

    /// A new vertical rule.
    pub fn new_vertical() -> (rule: Rule)
        ensures
            rule == (Rule { orientation: Orientation::Vertical, ..Rule::initial() }),
    {
        Rule::new().vertical()
    }

    /// A new rule with the glyphs of `set`.
    pub fn from_set(set: SymbolSet) -> (rule: Rule)
        ensures
            rule == (Rule { symbol_set: set, ..Rule::initial() }),
    {
        Rule::new().with_set(set)
    }

    /// A new rule that takes its colours from `gradient`.
    pub fn new_with_gradient<G: colorgrad::Gradient + 'static>(gradient: G) -> (rule: Rule)
        ensures
            rule.gradient is Some,
            rule == (Rule { gradient: rule.gradient, ..Rule::initial() }),
    {
        Rule::new().with_gradient(gradient)
    }

    /// Takes the colours of the glyphs from `gradient`.
    pub fn with_gradient<G: colorgrad::Gradient + 'static>(self, gradient: G) -> (rule: Rule)
        ensures
            rule.gradient is Some,
            rule == (Rule { gradient: rule.gradient, ..self }),
    {
        Rule { gradient: Some(GradientSource::boxed(gradient)), ..self }
    }

    /// Takes the colours behind the glyphs from `g`.
    pub fn bg_gradient<G: colorgrad::Gradient + 'static>(self, g: G) -> (rule: Rule)
        ensures
            rule.bg is GradientCustom,
            rule == (Rule { bg: rule.bg, ..self }),
    {
        Rule { bg: Bg::custom(g), ..self }
    }

    /// Sets the margin by which the area is shrunk before the rule is drawn.
    pub fn area_margin(self, margin: Margin) -> (rule: Rule)
        ensures
            rule == (Rule { area_margin: margin, ..self }),
    {
        Rule { area_margin: margin, ..self }
    }

    /// Puts one colour behind every cell.
    pub fn bg_solid(self, c: ratatui::style::Color) -> (rule: Rule)
        ensures
            rule == (Rule { bg: Bg::Solid(c), ..self }),
    {
        Rule { bg: Bg::Solid(c), ..self }
    }

    /// Puts behind each cell the colour of its foreground.
    pub fn bg_same_gradient(self) -> (rule: Rule)
        ensures
            rule == (Rule { bg: Bg::Gradient, ..self }),
    {
        Rule { bg: Bg::Gradient, ..self }
    }

    /// Lengthens the first filler run by `rep` glyphs. The anchor moves back by as much.
    pub fn extra_rep_1(self, rep: usize) -> (rule: Rule)
        ensures
            rule == (Rule { extra_rep_1: rep, ..self }),
    {
        Rule { extra_rep_1: rep, ..self }
    }

    /// Lengthens the second filler run by `rep` glyphs.
    pub fn extra_rep_2(self, rep: usize) -> (rule: Rule)
        ensures
            rule == (Rule { extra_rep_2: rep, ..self }),
    {
        Rule { extra_rep_2: rep, ..self }
    }

    /// Lengthens both filler runs.
    pub fn extra_rep(self, rep_1: usize, rep_2: usize) -> (rule: Rule)
        ensures
            rule == (Rule { extra_rep_1: rep_1, extra_rep_2: rep_2, ..self }),
    {
        Rule { extra_rep_1: rep_1, extra_rep_2: rep_2, ..self }
    }

    /// Sets the background.
    pub fn bg(self, bg: Bg) -> (rule: Rule)
        ensures
            rule == (Rule { bg: bg, ..self }),
    {
        Rule { bg: bg, ..self }
    }

    /// Sets the left and the right padding.
    pub fn horizontal_padding(self, padding: u16) -> (rule: Rule)
        ensures
            rule == (Rule { padding: Padding { left: padding, right: padding, ..self.padding }, ..self }),
    {
        Rule { padding: Padding { left: padding, right: padding, ..self.padding }, ..self }
    }

    /// Sets the top and the bottom padding.
    pub fn vertical_padding(self, padding: u16) -> (rule: Rule)
        ensures
            rule == (Rule { padding: Padding { top: padding, bottom: padding, ..self.padding }, ..self }),
    {
        Rule { padding: Padding { top: padding, bottom: padding, ..self.padding }, ..self }
    }

    /// Sets the right padding.
    pub fn right_padding(self, padding: u16) -> (rule: Rule)
        ensures
            rule == (Rule { padding: Padding { right: padding, ..self.padding }, ..self }),
    {
        Rule { padding: Padding { right: padding, ..self.padding }, ..self }
    }

    /// Sets the left padding.
    pub fn left_padding(self, padding: u16) -> (rule: Rule)
        ensures
            rule == (Rule { padding: Padding { left: padding, ..self.padding }, ..self }),
    {
        Rule { padding: Padding { left: padding, ..self.padding }, ..self }
    }

    /// Sets the top padding.
    pub fn top_padding(self, padding: u16) -> (rule: Rule)
        ensures
            rule == (Rule { padding: Padding { top: padding, ..self.padding }, ..self }),
    {
        Rule { padding: Padding { top: padding, ..self.padding }, ..self }
    }

    /// Sets the bottom padding.
    pub fn bottom_padding(self, padding: u16) -> (rule: Rule)
        ensures
            rule == (Rule { padding: Padding { bottom: padding, ..self.padding }, ..self }),
    {
        Rule { padding: Padding { bottom: padding, ..self.padding }, ..self }
    }

    /// Takes all five glyphs from `set`.
    pub fn with_set(self, set: SymbolSet) -> (rule: Rule)
        ensures
            rule == (Rule { symbol_set: set, ..self }),
    {
        Rule { symbol_set: set, ..self }
    }

    /// Makes the rule horizontal, which it is at first.
    pub fn horizontal(self) -> (rule: Rule)
        ensures
            rule == (Rule { orientation: Orientation::Horizontal, ..self }),
    {
        Rule { orientation: Orientation::Horizontal, ..self }
    }

    /// Makes the rule vertical.
    pub fn vertical(self) -> (rule: Rule)
        ensures
            rule == (Rule { orientation: Orientation::Vertical, ..self }),
    {
        Rule { orientation: Orientation::Vertical, ..self }
    }

    /// Sets the filler after the center glyph: `+=====+-----+` for `'-'`.
    pub fn rep_2(self, symb: char) -> (rule: Rule)
        ensures
            rule == (Rule { symbol_set: SymbolSet { rep_2: symb, ..self.symbol_set }, ..self }),
    {
        Rule { symbol_set: SymbolSet { rep_2: symb, ..self.symbol_set }, ..self }
    }

    /// Sets the filler before the center glyph: `+-----+=====+` for `'-'`.
    pub fn rep_1(self, symb: char) -> (rule: Rule)
        ensures
            rule == (Rule { symbol_set: SymbolSet { rep_1: symb, ..self.symbol_set }, ..self }),
    {
        Rule { symbol_set: SymbolSet { rep_1: symb, ..self.symbol_set }, ..self }
    }

    /// Sets the first glyph: `%=====+=====+` for `'%'`.
    pub fn start(self, symb: char) -> (rule: Rule)
        ensures
            rule == (Rule { symbol_set: SymbolSet { start: symb, ..self.symbol_set }, ..self }),
    {
        Rule { symbol_set: SymbolSet { start: symb, ..self.symbol_set }, ..self }
    }

    /// Sets the last glyph: `+=====+=====%` for `'%'`.
    pub fn end(self, symb: char) -> (rule: Rule)
        ensures
            rule == (Rule { symbol_set: SymbolSet { end: symb, ..self.symbol_set }, ..self }),
    {
        Rule { symbol_set: SymbolSet { end: symb, ..self.symbol_set }, ..self }
    }

    /// Sets the center glyph: `+=====%=====+` for `'%'`.
    pub fn center(self, symb: char) -> (rule: Rule)
        ensures
            rule == (Rule { symbol_set: SymbolSet { center: symb, ..self.symbol_set }, ..self }),
    {
        Rule { symbol_set: SymbolSet { center: symb, ..self.symbol_set }, ..self }
    }

    /// Sets both fillers.
    pub fn main_symbol(self, symb: char) -> (rule: Rule)
        ensures
            rule == (Rule { symbol_set: SymbolSet { rep_1: symb, rep_2: symb, ..self.symbol_set }, ..self }),
    {
        Rule { symbol_set: SymbolSet { rep_1: symb, rep_2: symb, ..self.symbol_set }, ..self }
    }

    /// Sets the padding of all four sides.
    pub fn padding(self, padding: Padding) -> (rule: Rule)
        ensures
            rule == (Rule { padding: padding, ..self }),
    {
        Rule { padding: padding, ..self }
    }

    /// Sets the axis along which the rule runs.
    pub fn orientation(self, orientation: Orientation) -> (rule: Rule)
        ensures
            rule == (Rule { orientation: orientation, ..self }),
    {
        Rule { orientation: orientation, ..self }
    }

    /// Sets where the rule sits between top and bottom; in the middle at first.
    pub fn vertical_alignment(self, alignment: VerticalAlignment) -> (rule: Rule)
        ensures
            rule == (Rule { vertical_alignment: alignment, ..self }),
    {
        Rule { vertical_alignment: alignment, ..self }
    }

    /// Sets where the rule sits between left and right; in the middle at first.
    pub fn horizontal_alignment(self, alignment: Alignment) -> (rule: Rule)
        ensures
            rule == (Rule { horizontal_alignment: alignment, ..self }),
    {
        Rule { horizontal_alignment: alignment, ..self }
    }
}

impl Default for Rule {
    fn default() -> (rule: Rule)
        ensures
            rule == Rule::initial(),
    {
        Rule::new()
    }
}

} // verus!
