//! The glyphs of a rule and the ways to lay it out.
use vstd::prelude::*;

verus! {

/// The five glyphs of one rule style.
///
/// With `start: '+'`, `rep_1: '─'`, `center: '+'`, `rep_2: '─'` and
/// `end: '+'` a rule reads `+───+───+`.
#[derive(Clone, Copy, Debug, PartialEq, Eq, Structural, Hash)]
pub struct SymbolSet {
    pub start: char,
    pub end: char,
    pub rep_1: char,
    pub rep_2: char,
    pub center: char,
}

/// The axis along which a rule runs.
#[derive(Clone, Copy, Debug, PartialEq, Eq, Structural, Hash)]
pub enum Orientation {
    Vertical,
    Horizontal,
}

/// Where a rule sits between the top and the bottom of its area.
#[derive(Clone, Copy, Debug, PartialEq, Eq, Structural, Hash)]
pub enum VerticalAlignment {
    Top,
    Center,
    Bottom,
}

/// Where a rule sits between the left and the right of its area.
#[derive(Clone, Copy, Debug, PartialEq, Eq, Structural, Hash)]
pub enum Alignment {
    Left,
    Center,
    Right,
}

/// A position along one axis, whichever axis it is: at its start, in its
/// middle or at its end.
#[derive(Clone, Copy, Debug, PartialEq, Eq, Structural, Hash)]
pub enum Placement {
    Start,
    Middle,
    End,
}

impl SymbolSet {
    /// The set whose five glyphs are all `symbol`.
    pub fn uniform(symbol: char) -> (set: SymbolSet)
        ensures
            set == (SymbolSet {
                start: symbol,
                end: symbol,
                rep_1: symbol,
                rep_2: symbol,
                center: symbol,
            }),
    {
        SymbolSet { start: symbol, end: symbol, rep_1: symbol, rep_2: symbol, center: symbol }
    }
}

impl VerticalAlignment {
    pub open spec fn spec_placement(self) -> Placement {
        match self {
            VerticalAlignment::Top => Placement::Start,
            VerticalAlignment::Center => Placement::Middle,
            VerticalAlignment::Bottom => Placement::End,
        }
    }

    /// The same position, without the axis.
    pub fn placement(self) -> (p: Placement)
        ensures
            p == self.spec_placement(),
    {
        match self {
            VerticalAlignment::Top => Placement::Start,
            VerticalAlignment::Center => Placement::Middle,
            VerticalAlignment::Bottom => Placement::End,
        }
    }
}

impl Alignment {
    pub open spec fn spec_placement(self) -> Placement {
        match self {
            Alignment::Left => Placement::Start,
            Alignment::Center => Placement::Middle,
            Alignment::Right => Placement::End,
        }
    }

    /// The same position, without the axis.
    pub fn placement(self) -> (p: Placement)
        ensures
            p == self.spec_placement(),
    {
        match self {
            Alignment::Left => Placement::Start,
            Alignment::Center => Placement::Middle,
            Alignment::Right => Placement::End,
        }
    }
}

} // verus!
