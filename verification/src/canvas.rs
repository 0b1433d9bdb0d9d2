//! Painting styled cells into a `ratatui` buffer.
//!
//! The buffer is a type of `ratatui` and opaque here. What it holds is
//! spoken of through `buffer_area` and `buffer_content`; what `ratatui`
//! makes of a write is spoken of through `line_set` and `span_set`.
use vstd::prelude::*;
use ratatui::buffer::{Buffer, Cell};
use ratatui::style::{Color, Style};
use ratatui::text::{Line, Span};
use crate::color::{Ground, StyledCell};
use crate::geometry::Rect;
use crate::symbols::Orientation;

verus! {

/// `ratatui::buffer::Buffer`: a grid of cells over a rectangle.
#[verifier::external_type_specification]
#[verifier::external_body]
pub struct ExBuffer(ratatui::buffer::Buffer);

/// `ratatui::buffer::Cell`: one cell of a buffer, with its symbol and its
/// style. Cells are only compared here, never looked into.
#[verifier::external_type_specification]
#[verifier::external_body]
pub struct ExCell(ratatui::buffer::Cell);

/// The part of the grid that a buffer covers: its field `area`.
pub uninterp spec fn buffer_area(buf: Buffer) -> Rect;

/// The cells of a buffer, row after row: its field `content`.
pub uninterp spec fn buffer_content(buf: Buffer) -> Seq<Cell>;

/// The cells of a buffer over `area` that held `content`, after
/// `Buffer::set_line` has written `line`, one span for each cell of it,
/// from column `x` of row `y` on, over at most `max_width` columns.
pub uninterp spec fn line_set(
    content: Seq<Cell>,
    area: Rect,
    x: u16,
    y: u16,
    line: Seq<StyledCell>,
    max_width: u16,
) -> Seq<Cell>;

/// The cells of a buffer over `area` that held `content`, after
/// `Buffer::set_span` has written `cell` as a span of its own at column
/// `x` of row `y`, over at most `max_width` columns.
pub uninterp spec fn span_set(
    content: Seq<Cell>,
    area: Rect,
    x: u16,
    y: u16,
    cell: StyledCell,
    max_width: u16,
) -> Seq<Cell>;

/// Whether a buffer over `area` with `cells` cells has one cell for each
/// position of its area.
pub open spec fn fits(area: Rect, cells: nat) -> bool {
    cells == area.width * area.height
}

/// The cell at column `col` of row `row` in a buffer over `area` that holds
/// `content`.
pub open spec fn cell_at(
    content: Seq<Cell>,
    area: Rect,
    col: u16,
    row: u16,
) -> Cell {
    content[(row - area.y) * area.width + (col - area.x)]
}

/// Whether `after` holds what `before` held in every cell of `area` that is
/// not in row `y` at column `x` or to the right of it.
pub open spec fn kept_but_row(
    before: Seq<Cell>,
    after: Seq<Cell>,
    area: Rect,
    x: u16,
    y: u16,
) -> bool {
    forall|col: u16, row: u16|
        area.spec_contains(col, row) && !(row == y && col >= x) ==> #[trigger] cell_at(
            after,
            area,
            col,
            row,
        ) == cell_at(before, area, col, row)
}

/// Whether `after` holds what `before` held in every cell of `area` but the
/// one at column `x` of row `y`.
pub open spec fn kept_but_cell(
    before: Seq<Cell>,
    after: Seq<Cell>,
    area: Rect,
    x: u16,
    y: u16,
) -> bool {
    forall|col: u16, row: u16|
        area.spec_contains(col, row) && !(row == y && col == x) ==> #[trigger] cell_at(
            after,
            area,
            col,
            row,
        ) == cell_at(before, area, col, row)
}

/// Whether `after` holds what `before` held in every cell of `area` that is
/// not in column `x` at row `y` or below it.
pub open spec fn kept_but_column(
    before: Seq<Cell>,
    after: Seq<Cell>,
    area: Rect,
    x: u16,
    y: u16,
) -> bool {
    forall|col: u16, row: u16|
        area.spec_contains(col, row) && !(col == x && row >= y) ==> #[trigger] cell_at(
            after,
            area,
            col,
            row,
        ) == cell_at(before, area, col, row)
}

/// Whether `after` holds what `before` held wherever a rule that starts at
/// column `x` of row `y` does not reach: for a horizontal rule outside its
/// row from `x` on, for a vertical rule outside its column from `y` on.
pub open spec fn kept_outside(
    before: Seq<Cell>,
    after: Seq<Cell>,
    area: Rect,
    orientation: Orientation,
    x: u16,
    y: u16,
) -> bool {
    match orientation {
        Orientation::Horizontal => kept_but_row(before, after, area, x, y),
        Orientation::Vertical => kept_but_column(before, after, area, x, y),
    }
}

/// `Buffer::area`, as a rectangle of this library.
#[verifier::external_body]
pub(crate) fn area_of(buf: &Buffer) -> (area: Rect)
    ensures
        area == buffer_area(*buf),
{
    let area = buf.area();
    Rect { x: area.x, y: area.y, width: area.width, height: area.height }
}

/// The length of the slice that `Buffer::content` gives.
#[verifier::external_body]
pub(crate) fn cell_count(buf: &Buffer) -> (count: usize)
    ensures
        count == buffer_content(*buf).len(),
{
    buf.content().len()
}

/// `Buffer::set_line` on a line that has one span for each cell, the
/// glyph as its text and the colours as its style.
///
/// That function indexes the buffer at the position of each glyph it
/// writes, which fails outside the area or where the buffer holds fewer
/// cells than its area has positions; it stops by itself at the right
/// edge. It changes cells in place, and only in row `y` from column `x`
/// on: the area, the number of cells and every other cell stay.
#[verifier::external_body]
pub(crate) fn set_line(
    buf: &mut Buffer,
    x: u16,
    y: u16,
    line: &Vec<StyledCell>,
    max_width: u16,
)
    requires
        fits(buffer_area(*old(buf)), buffer_content(*old(buf)).len()),
        buffer_area(*old(buf)).spec_contains(x, y),
    ensures
        buffer_area(*final(buf)) == buffer_area(*old(buf)),
        buffer_content(*final(buf)).len() == buffer_content(*old(buf)).len(),
        buffer_content(*final(buf)) == line_set(
            buffer_content(*old(buf)),
            buffer_area(*old(buf)),
            x,
            y,
            line@,
            max_width,
        ),
        kept_but_row(
            buffer_content(*old(buf)),
            buffer_content(*final(buf)),
            buffer_area(*old(buf)),
            x,
            y,
        ),
{
    let spans: Vec<Span> = line.iter().map(|c| {
        let fg = c.fg.map(|v| Color::Rgb(v.r, v.g, v.b));
        let bg = match c.bg {
            Ground::Unset => None,
            Ground::Solid(v) => Some(v),
            Ground::Sample(v) => Some(Color::Rgb(v.r, v.g, v.b)),
        };
        Span::styled(c.symbol.to_string(), Style { fg, bg, ..Style::new() })
    }).collect();
    buf.set_line(x, y, &Line::from(spans), max_width);
}

/// `Buffer::set_span` on a span that has the glyph as its text and the
/// colours as its style.
///
/// That function indexes the buffer at the position it writes to, which
/// fails outside the area or where the buffer holds fewer cells than its
/// area has positions. It changes cells in place, and only in row `y`
/// from column `x` on: the area, the number of cells and every other
/// cell stay. Within one column it changes the cell at `x` alone, if
/// any: a glyph that is wider is not written.
#[verifier::external_body]
pub(crate) fn set_span(buf: &mut Buffer, x: u16, y: u16, cell: &StyledCell, max_width: u16)
    requires
        fits(buffer_area(*old(buf)), buffer_content(*old(buf)).len()),
        buffer_area(*old(buf)).spec_contains(x, y),
    ensures
        buffer_area(*final(buf)) == buffer_area(*old(buf)),
        buffer_content(*final(buf)).len() == buffer_content(*old(buf)).len(),
        buffer_content(*final(buf)) == span_set(
            buffer_content(*old(buf)),
            buffer_area(*old(buf)),
            x,
            y,
            *cell,
            max_width,
        ),
        kept_but_row(
            buffer_content(*old(buf)),
            buffer_content(*final(buf)),
            buffer_area(*old(buf)),
            x,
            y,
        ),
        max_width <= 1 ==> kept_but_cell(
            buffer_content(*old(buf)),
            buffer_content(*final(buf)),
            buffer_area(*old(buf)),
            x,
            y,
        ),
{
    let fg = cell.fg.map(|v| Color::Rgb(v.r, v.g, v.b));
    let bg = match cell.bg {
        Ground::Unset => None,
        Ground::Solid(v) => Some(v),
        Ground::Sample(v) => Some(Color::Rgb(v.r, v.g, v.b)),
    };
    let style = Style { fg, bg, ..Style::new() };
    buf.set_span(x, y, &Span::styled(cell.symbol.to_string(), style), max_width);
}

/// The widest run that a line of `cells` cells may take: one more than
/// its cells, held at `u16::MAX`.
pub open spec fn run_width(cells: nat) -> u16 {
    if cells + 1 > u16::MAX {
        u16::MAX
    } else {
        (cells + 1) as u16
    }
}

/// The content after `line` was written as one run from column `x` of
/// row `y` on. Nothing is written where the run would start outside
/// `area`.
pub open spec fn row_painted(
    content: Seq<Cell>,
    area: Rect,
    x: u16,
    y: u16,
    line: Seq<StyledCell>,
) -> Seq<Cell> {
    if area.spec_contains(x, y) {
        line_set(content, area, x, y, line, run_width(line.len()))
    } else {
        content
    }
}

/// The content after the first `count` cells of `line` were written one
/// below the other from row `y` of column `x` on, each over one column. A
/// cell whose position lies outside `area` is left out.
pub open spec fn column_painted(
    content: Seq<Cell>,
    area: Rect,
    x: u16,
    y: u16,
    line: Seq<StyledCell>,
    count: nat,
) -> Seq<Cell>
    decreases count,
{
    if count == 0 {
        content
    } else {
        let above = column_painted(content, area, x, y, line, (count - 1) as nat);
        let row = y + count - 1;
        if row <= u16::MAX && area.spec_contains(x, row as u16) {
            span_set(above, area, x, row as u16, line[count - 1], 1)
        } else {
            above
        }
    }
}

/// The content after `line` was painted from the cell at column `x` of
/// row `y` on: to the right for a horizontal rule, downwards for a
/// vertical one. A buffer that does not hold one cell for each position
/// of its area is left as it is.
pub open spec fn painted(
    content: Seq<Cell>,
    area: Rect,
    orientation: Orientation,
    x: u16,
    y: u16,
    line: Seq<StyledCell>,
) -> Seq<Cell> {
    if !fits(area, content.len()) {
        content
    } else {
        match orientation {
            Orientation::Horizontal => row_painted(content, area, x, y, line),
            Orientation::Vertical => column_painted(content, area, x, y, line, line.len()),
        }
    }
}

/// Paints `line` into `buf` from the cell at column `x` of row `y` on:
/// see `painted`. Nothing is written outside the buffer's area, and
/// inside it nothing where the rule does not reach; the buffer keeps its
/// area and the number of its cells.
pub fn paint(
    buf: &mut Buffer,
    orientation: Orientation,
    x: u16,
    y: u16,
    line: &Vec<StyledCell>,
)
    ensures
        buffer_area(*final(buf)) == buffer_area(*old(buf)),
        buffer_content(*final(buf)).len() == buffer_content(*old(buf)).len(),
        buffer_content(*final(buf)) == painted(
            buffer_content(*old(buf)),
            buffer_area(*old(buf)),
            orientation,
            x,
            y,
            line@,
        ),
        kept_outside(
            buffer_content(*old(buf)),
            buffer_content(*final(buf)),
            buffer_area(*old(buf)),
            orientation,
            x,
            y,
        ),
{
    let area = area_of(buf);
    let held: usize = cell_count(buf);
    assert(area.width * area.height <= 0xfffe_0001) by (nonlinear_arith)
        requires
            area.width <= 0xffff,
            area.height <= 0xffff,
    ;
    let wanted: u32 = area.width as u32 * area.height as u32;
    if held as u64 != wanted as u64 {
        return ;
    }
    match orientation {
        Orientation::Horizontal => {
            if area.contains(x, y) {
                let width: u16 = if line.len() >= 0xffff {
                    0xffff
                } else {
                    (line.len() + 1) as u16
                };
                set_line(buf, x, y, line, width);
            }
        },
        Orientation::Vertical => {
            let ghost before = buffer_content(*buf);
            let mut i: usize = 0;
            while i < line.len()
                invariant
                    i <= line.len(),
                    buffer_area(*buf) == area,
                    fits(area, buffer_content(*buf).len()),
                    buffer_content(*buf).len() == before.len(),
                    buffer_content(*buf) == column_painted(before, area, x, y, line@, i as nat),
                    kept_but_column(before, buffer_content(*buf), area, x, y),
                decreases line.len() - i,
            {
                if i <= (0xffff - y) as usize {
                    let row: u16 = y + i as u16;
                    if area.contains(x, row) {
                        set_span(buf, x, row, &line[i], 1);
                    }
                }
                i = i + 1;
            }
        },
    }
}

} // verus!
