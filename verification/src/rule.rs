//! The rule itself: its settings, and how it is drawn.
use vstd::prelude::*;
use ratatui::buffer::{Buffer, Cell};
use crate::canvas::{buffer_area, buffer_content, kept_outside, paint, painted};
use crate::color::{
    colored,
    colored_by_some,
    colorize,
    gradient_cells,
    plain,
    uncolored,
    Bg,
    GradientSource,
    Rgb,
    StyledCell,
};
use crate::geometry::{Margin, Padding, Rect};
use crate::layout::{anchor, resolve_anchor};
use crate::segment::{create_segment, rule_line};
use crate::symbols::{Alignment, Orientation, Placement, SymbolSet, VerticalAlignment};

verus! {

/// A decorative divider line.
///
/// It can run horizontally or vertically, be aligned on both axes, keep a
/// padding on each side, have glyphs of its own at its start, center and
/// end, and take its colours from a gradient.
pub struct Rule {
    pub gradient: Option<GradientSource>,
    pub symbol_set: SymbolSet,
    pub orientation: Orientation,
    pub padding: Padding,
    pub vertical_alignment: VerticalAlignment,
    pub horizontal_alignment: Alignment,
    pub extra_rep_1: usize,
    pub extra_rep_2: usize,
    pub bg: Bg,
    pub area_margin: Margin,
}

impl Rule {
    /// The rule that `new` gives: horizontal, centered on both axes, all of
    /// `─`, without padding or colour, one cell inside its area.
    pub open spec fn initial() -> Rule {
        Rule {
            gradient: None,
            symbol_set: SymbolSet { start: '─', end: '─', rep_1: '─', rep_2: '─', center: '─' },
            orientation: Orientation::Horizontal,
            padding: Padding { left: 0, right: 0, top: 0, bottom: 0 },
            vertical_alignment: VerticalAlignment::Center,
            horizontal_alignment: Alignment::Center,
            extra_rep_1: 0,
            extra_rep_2: 0,
            bg: Bg::Unset,
            area_margin: Margin { horizontal: 1, vertical: 1 },
        }
    }

    /// The padding before the glyph run: the left one for a horizontal
    /// rule, the top one for a vertical rule.
    pub open spec fn pad_1(&self) -> u16 {
        match self.orientation {
            Orientation::Horizontal => self.padding.left,
            Orientation::Vertical => self.padding.top,
        }
    }

    /// The padding after the glyph run: the right one for a horizontal
    /// rule, the bottom one for a vertical rule.
    pub open spec fn pad_2(&self) -> u16 {
        match self.orientation {
            Orientation::Horizontal => self.padding.right,
            Orientation::Vertical => self.padding.bottom,
        }
    }

    /// The alignment along the rule's own axis.
    pub open spec fn along(&self) -> Placement {
        match self.orientation {
            Orientation::Horizontal => self.horizontal_alignment.spec_placement(),
            Orientation::Vertical => self.vertical_alignment.spec_placement(),
        }
    }

    /// `area` moved to the anchor: a horizontal rule to its row, a vertical
    /// rule to its column. The size stays.
    pub open spec fn spec_anchored(&self, area: Rect) -> Rect {
        match self.orientation {
            Orientation::Horizontal => Rect {
                y: anchor(
                    self.vertical_alignment.spec_placement(),
                    area.y,
                    area.spec_bottom(),
                    self.padding.top,
                    self.padding.bottom,
                    self.extra_rep_1,
                ),
                ..area
            },
            Orientation::Vertical => Rect {
                x: anchor(
                    self.horizontal_alignment.spec_placement(),
                    area.x,
                    area.spec_right(),
                    self.padding.left,
                    self.padding.right,
                    self.extra_rep_1,
                ),
                ..area
            },
        }
    }

    /// The rectangle whose corner is the first cell of the rule: `area`
    /// moved to the anchor, then shrunk by the margin.
    pub open spec fn spec_draw_area(&self, area: Rect) -> Rect {
        self.spec_anchored(area).spec_inner(self.area_margin)
    }

    /// The number of cells along the rule's axis in the rectangle it is
    /// drawn into.
    pub open spec fn spec_axis(&self, area: Rect) -> u16 {
        match self.orientation {
            Orientation::Horizontal => self.spec_draw_area(area).width,
            Orientation::Vertical => self.spec_draw_area(area).height,
        }
    }

    /// The glyphs of the rule when it is drawn into `area`.
    pub open spec fn spec_line(&self, area: Rect) -> Seq<char> {
        rule_line(
            self.symbol_set,
            self.along(),
            self.spec_axis(area),
            self.pad_1(),
            self.pad_2(),
            self.extra_rep_1,
            self.extra_rep_2,
        )
    }

    /// The cells of the rule when it is drawn into `area` and its gradient
    /// gives the samples `fg`, the gradient of its background the samples
    /// `own`. Without a gradient the cells have no colour.
    pub open spec fn spec_cells(&self, area: Rect, fg: Seq<Rgb>, own: Seq<Rgb>) -> Seq<StyledCell> {
        if self.gradient is Some {
            colored(self.spec_line(area), fg, self.bg, own)
        } else {
            plain(self.spec_line(area))
        }
    }

    /// Whether `cells` are the cells of the rule in `area` for some samples
    /// of its gradients. Without a gradient there is one such line of
    /// cells, the one without colour.
    pub open spec fn shows(&self, area: Rect, cells: Seq<StyledCell>) -> bool {
        if self.gradient is Some {
            colored_by_some(self.spec_line(area), self.bg, cells)
        } else {
            cells == plain(self.spec_line(area))
        }
    }

    /// Whether a buffer over `grid` that held `before` holds `after` once
    /// the rule was drawn into `area`: `after` is `before` with the cells of
    /// the rule painted from the corner of its rectangle on, for some
    /// samples of its gradients.
    pub open spec fn draws(&self, area: Rect, grid: Rect, before: Seq<Cell>, after: Seq<Cell>) -> bool {
        exists|cells: Seq<StyledCell>|
            self.shows(area, cells) && after == #[trigger] painted(
                before,
                grid,
                self.orientation,
                self.spec_draw_area(area).x,
                self.spec_draw_area(area).y,
                cells,
            )
    }

    /// The rectangle whose corner is the first cell of the rule.
    pub fn draw_area(&self, area: Rect) -> (inner: Rect)
        ensures
            inner == self.spec_draw_area(area),
    {
        let moved = match self.orientation {
            Orientation::Horizontal => Rect {
                x: area.x,
                y: resolve_anchor(
                    self.vertical_alignment.placement(),
                    area.y,
                    area.bottom(),
                    self.padding.top,
                    self.padding.bottom,
                    self.extra_rep_1,
                ),
                width: area.width,
                height: area.height,
            },
            Orientation::Vertical => Rect {
                x: resolve_anchor(
                    self.horizontal_alignment.placement(),
                    area.x,
                    area.right(),
                    self.padding.left,
                    self.padding.right,
                    self.extra_rep_1,
                ),
                y: area.y,
                width: area.width,
                height: area.height,
            },
        };
        moved.inner(self.area_margin)
    }

    /// The glyphs of the rule when it is drawn into `area`, blanks
    /// included.
    pub fn line(&self, area: Rect) -> (glyphs: Vec<char>)
        ensures
            glyphs@ == self.spec_line(area),
    {
        let inner = self.draw_area(area);
        match self.orientation {
            Orientation::Horizontal => create_segment(
                &self.symbol_set,
                self.horizontal_alignment.placement(),
                inner.width,
                self.padding.left,
                self.padding.right,
                self.extra_rep_1,
                self.extra_rep_2,
            ),
            Orientation::Vertical => create_segment(
                &self.symbol_set,
                self.vertical_alignment.placement(),
                inner.height,
                self.padding.top,
                self.padding.bottom,
                self.extra_rep_1,
                self.extra_rep_2,
            ),
        }
    }

    /// The number of samples that each gradient is asked for: one for each
    /// glyph of the line, blanks included.
    pub fn sample_count(&self, area: Rect) -> (count: usize)
        ensures
            count == self.spec_line(area).len(),
    {
        self.line(area).len()
    }

    /// The cells of the rule in `area` for given samples: `fg` of its
    /// gradient, `own` of the gradient of its background.
    pub fn cells_with(&self, area: Rect, fg: &Vec<Rgb>, own: &Vec<Rgb>) -> (cells: Vec<StyledCell>)
        ensures
            cells@ == self.spec_cells(area, fg@, own@),
    {
        let glyphs = self.line(area);
        match &self.gradient {
            Some(_) => colorize(&glyphs, fg, &self.bg, own),
            None => uncolored(&glyphs),
        }
    }

    /// The cells of the rule in `area`. Each gradient is asked for
    /// `sample_count` samples.
    pub fn cells(&self, area: Rect) -> (cells: Vec<StyledCell>)
        ensures
            self.shows(area, cells@),
    {
        let glyphs = self.line(area);
        match &self.gradient {
            Some(gradient) => gradient_cells(&glyphs, gradient, &self.bg),
            None => uncolored(&glyphs),
        }
    }

    /// Draws the rule into `buf` with given samples of its gradients.
    pub fn render_with(&self, area: Rect, fg: &Vec<Rgb>, own: &Vec<Rgb>, buf: &mut Buffer)
        ensures
            buffer_area(*final(buf)) == buffer_area(*old(buf)),
            buffer_content(*final(buf)).len() == buffer_content(*old(buf)).len(),
            buffer_content(*final(buf)) == painted(
                buffer_content(*old(buf)),
                buffer_area(*old(buf)),
                self.orientation,
                self.spec_draw_area(area).x,
                self.spec_draw_area(area).y,
                self.spec_cells(area, fg@, own@),
            ),
            kept_outside(
                buffer_content(*old(buf)),
                buffer_content(*final(buf)),
                buffer_area(*old(buf)),
                self.orientation,
                self.spec_draw_area(area).x,
                self.spec_draw_area(area).y,
            ),
    {
        let inner = self.draw_area(area);
        let cells = self.cells_with(area, fg, own);
        paint(buf, self.orientation, inner.x, inner.y, &cells);
    }

    /// Draws the rule into `buf`: a horizontal rule as one run to the right
    /// of the corner of its rectangle, a vertical rule cell by cell below
    /// it. Nothing is written outside the buffer's area, which stays as it
    /// is, as does the number of cells.
    pub fn render_ref(&self, area: Rect, buf: &mut Buffer)
        ensures
            buffer_area(*final(buf)) == buffer_area(*old(buf)),
            buffer_content(*final(buf)).len() == buffer_content(*old(buf)).len(),
            self.draws(
                area,
                buffer_area(*old(buf)),
                buffer_content(*old(buf)),
                buffer_content(*final(buf)),
            ),
            kept_outside(
                buffer_content(*old(buf)),
                buffer_content(*final(buf)),
                buffer_area(*old(buf)),
                self.orientation,
                self.spec_draw_area(area).x,
                self.spec_draw_area(area).y,
            ),
    {
        let inner = self.draw_area(area);
        let cells = self.cells(area);
        paint(buf, self.orientation, inner.x, inner.y, &cells);
    }

    /// Draws the rule into `buf`, as `render_ref` does.
    pub fn render(self, area: Rect, buf: &mut Buffer)
        ensures
            buffer_area(*final(buf)) == buffer_area(*old(buf)),
            buffer_content(*final(buf)).len() == buffer_content(*old(buf)).len(),
            self.draws(
                area,
                buffer_area(*old(buf)),
                buffer_content(*old(buf)),
                buffer_content(*final(buf)),
            ),
            kept_outside(
                buffer_content(*old(buf)),
                buffer_content(*final(buf)),
                buffer_area(*old(buf)),
                self.orientation,
                self.spec_draw_area(area).x,
                self.spec_draw_area(area).y,
            ),
    {
        self.render_ref(area, buf);
    }
}

} // verus!
