//! Rectangles, margins and paddings on the unsigned 16-bit terminal grid.
use vstd::prelude::*;

verus! {

/// A rectangle of terminal cells: its top-left corner and its size.
#[derive(Clone, Copy, Debug, PartialEq, Eq, Structural, Hash)]
pub struct Rect {
    pub x: u16,
    pub y: u16,
    pub width: u16,
    pub height: u16,
}

/// An inset taken from both sides of a rectangle on each axis.
#[derive(Clone, Copy, Debug, PartialEq, Eq, Structural, Hash)]
pub struct Margin {
    pub horizontal: u16,
    pub vertical: u16,
}

/// Space kept free on each side of the glyph run.
#[derive(Clone, Copy, Debug, PartialEq, Eq, Structural, Hash)]
pub struct Padding {
    pub left: u16,
    pub right: u16,
    pub top: u16,
    pub bottom: u16,
}

/// `v` brought into the range of `u16`: below zero it is 0, above the
/// largest `u16` it is that largest value.
pub open spec fn clamp16(v: int) -> u16 {
    if v < 0 {
        0u16
    } else if v > u16::MAX {
        u16::MAX
    } else {
        v as u16
    }
}

impl Margin {
    pub fn new(horizontal: u16, vertical: u16) -> (m: Margin)
        ensures
            m.horizontal == horizontal,
            m.vertical == vertical,
    {
        Margin { horizontal, vertical }
    }
}

impl Padding {
    pub fn new(left: u16, right: u16, top: u16, bottom: u16) -> (p: Padding)
        ensures
            p.left == left,
            p.right == right,
            p.top == top,
            p.bottom == bottom,
    {
        Padding { left, right, top, bottom }
    }
}

impl Rect {
    /// The rectangle with no cells at the origin.
    pub open spec fn zero() -> Rect {
        Rect { x: 0, y: 0, width: 0, height: 0 }
    }

    /// The first column to the right of the rectangle, held at `u16::MAX`.
    pub open spec fn spec_right(self) -> u16 {
        clamp16(self.x + self.width)
    }

    /// The first row below the rectangle, held at `u16::MAX`.
    pub open spec fn spec_bottom(self) -> u16 {
        clamp16(self.y + self.height)
    }

    /// Whether the cell in column `x` of row `y` lies in the rectangle.
    pub open spec fn spec_contains(self, x: u16, y: u16) -> bool {
        &&& self.x <= x < self.spec_right()
        &&& self.y <= y < self.spec_bottom()
    }

    /// The rectangle shrunk by `margin` on all four sides. Each margin is
    /// doubled and held at `u16::MAX`; when a doubled margin exceeds the
    /// width or the height, the result is the empty rectangle at the origin.
    pub open spec fn spec_inner(self, margin: Margin) -> Rect {
        let across = clamp16(2 * margin.horizontal);
        let down = clamp16(2 * margin.vertical);
        if self.width < across || self.height < down {
            Rect::zero()
        } else {
            Rect {
                x: clamp16(self.x + margin.horizontal),
                y: clamp16(self.y + margin.vertical),
                width: (self.width - across) as u16,
                height: (self.height - down) as u16,
            }
        }
    }

    pub fn new(x: u16, y: u16, width: u16, height: u16) -> (r: Rect)
        ensures
            r == (Rect { x, y, width, height }),
    {
        Rect { x, y, width, height }
    }

    /// `ratatui::layout::Rect::right`: the sum of `x` and `width`, which that
    /// function adds with saturation.
    #[verifier::external_body]
    pub(crate) fn right(self) -> (r: u16)
        ensures
            r == self.spec_right(),
    {
        ratatui::layout::Rect { x: self.x, y: self.y, width: self.width, height: self.height }
            .right()
    }

    /// `ratatui::layout::Rect::bottom`: the sum of `y` and `height`, which
    /// that function adds with saturation.
    #[verifier::external_body]
    pub(crate) fn bottom(self) -> (r: u16)
        ensures
            r == self.spec_bottom(),
    {
        ratatui::layout::Rect { x: self.x, y: self.y, width: self.width, height: self.height }
            .bottom()
    }

    /// `ratatui::layout::Rect::inner`: it doubles both margins with
    /// saturation, gives the zero rectangle when a doubled margin exceeds
    /// the width or the height, and otherwise moves the corner inwards
    /// (adding with saturation) and takes the doubled margins off the size.
    #[verifier::external_body]
    pub(crate) fn inner(self, margin: Margin) -> (r: Rect)
        ensures
            r == self.spec_inner(margin),
    {
        let outer =
            ratatui::layout::Rect { x: self.x, y: self.y, width: self.width, height: self.height };
        let m = ratatui::layout::Margin { horizontal: margin.horizontal, vertical: margin.vertical };
        let got = outer.inner(m);
        Rect { x: got.x, y: got.y, width: got.width, height: got.height }
    }

    /// Whether the cell in column `x` of row `y` lies in the rectangle.
    pub fn contains(self, x: u16, y: u16) -> (inside: bool)
        ensures
            inside == self.spec_contains(x, y),
    {
        self.x <= x && x < self.right() && self.y <= y && y < self.bottom()
    }
}

} // verus!
