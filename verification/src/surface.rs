//! The grid of cells that the renderer draws on.
//!
//! The grid is a `tui::buffer::Buffer`. Verified code never looks inside one:
//! it speaks of what a buffer holds through [`surface_cells`] and
//! [`surface_area`], and changes it through the two drawing functions below.

use vstd::prelude::*;
use crate::geometry::Rect;
use crate::style::{Style, MODIFIER_MASK};

verus! {

/// `tui::buffer::Buffer`, the grid itself.
#[verifier::external_type_specification]
#[verifier::external_body]
pub struct ExBuffer(tui::buffer::Buffer);

/// The grid that text is drawn on.
pub type Surface = tui::buffer::Buffer;

/// What one cell of the grid shows.
pub struct Cell {
    pub symbol: Seq<char>,
    pub fg: tui::style::Color,
    pub bg: tui::style::Color,
    /// The modifier bits that are switched on.
    pub modifier: u16,
}

/// The cells of a buffer, row after row.
pub uninterp spec fn surface_cells(surface: tui::buffer::Buffer) -> Seq<Cell>;

/// The rectangle of the screen that a buffer covers.
pub uninterp spec fn surface_area(surface: tui::buffer::Buffer) -> Rect;

/// What a write of text makes of one cell.
pub enum Written {
    /// The cell is left as it was.
    Kept,
    /// The cell shows a grapheme of the text, in the style written over
    /// the style that it had.
    Symbol(Seq<char>),
    /// The cell is hidden behind a wide grapheme on its left and set back
    /// to the given cell, in which nothing is shown.
    Cleared(Cell),
}

/// What `Buffer::set_stringn` makes of cell `i` of a buffer over `area`
/// when it writes `text` from column `x` of row `y` on into no more than
/// `width` columns. Where the graphemes of a text come to stand depends
/// on the text and the place, not on what the cells hold or on the style.
pub uninterp spec fn written_at(
    area: Rect,
    x: u16,
    y: u16,
    text: Seq<char>,
    width: usize,
    i: int,
) -> Written;

/// A cell after a write of text in `style` has made `written` of it.
pub open spec fn written_cell(cell: Cell, written: Written, style: Style) -> Cell {
    match written {
        Written::Kept => cell,
        Written::Symbol(symbol) => restyled(Cell { symbol, ..cell }, style),
        Written::Cleared(blank) => blank,
    }
}

/// The cells of a buffer over `area` after `Buffer::set_stringn` has
/// written `text` in `style`, starting at column `x` of row `y` and taking
/// up no more than `width` columns.
pub open spec fn string_written(
    cells: Seq<Cell>,
    area: Rect,
    x: u16,
    y: u16,
    text: Seq<char>,
    width: usize,
    style: Style,
) -> Seq<Cell> {
    Seq::new(
        cells.len(),
        |i: int| written_cell(cells[i], written_at(area, x, y, text, width, i), style),
    )
}

/// The column of the screen that cell `i` of a buffer over `area` stands in.
pub open spec fn cell_column(area: Rect, i: int) -> int {
    area.x + i % (area.width as int)
}

/// The row of the screen that cell `i` of a buffer over `area` stands in.
pub open spec fn cell_row(area: Rect, i: int) -> int {
    area.y + i / (area.width as int)
}

/// Whether `after` holds in every cell outside `rect` what `before` holds
/// there.
pub open spec fn same_outside(area: Rect, rect: Rect, before: Seq<Cell>, after: Seq<Cell>) -> bool {
    &&& after.len() == before.len()
    &&& forall|i: int|
        0 <= i < before.len() && !rect.contains(cell_column(area, i), cell_row(area, i))
            ==> #[trigger] after[i] == before[i]
}

/// A cell after `style` has been applied to it.
pub open spec fn restyled(cell: Cell, style: Style) -> Cell {
    Cell {
        symbol: cell.symbol,
        fg: match style.fg {
            Some(c) => c,
            None => cell.fg,
        },
        bg: match style.bg {
            Some(c) => c,
            None => cell.bg,
        },
        modifier: (cell.modifier | (style.add_modifier & MODIFIER_MASK)) & !(style.sub_modifier
            & MODIFIER_MASK),
    }
}

/// The cells of a buffer over `area` after `style` has been applied to
/// every cell of `rect`.
pub open spec fn style_applied(cells: Seq<Cell>, area: Rect, rect: Rect, style: Style) -> Seq<
    Cell,
> {
    Seq::new(
        cells.len(),
        |i: int|
            if rect.contains(cell_column(area, i), cell_row(area, i)) {
                restyled(cells[i], style)
            } else {
                cells[i]
            },
    )
}

/// A buffer holds one cell for each position of its area, and every position
/// and every index of a cell fits in sixteen bits.
pub open spec fn surface_wf(surface: tui::buffer::Buffer) -> bool {
    let area = surface_area(surface);
    &&& area.right() <= u16::MAX
    &&& area.bottom() <= u16::MAX
    &&& area.width * area.height <= u16::MAX
    &&& surface_cells(surface).len() == area.width * area.height
}

/// Calls `Buffer::area`: the rectangle that the buffer covers.
#[verifier::external_body]
pub(crate) fn area_of(surface: &tui::buffer::Buffer) -> (r: Rect)
    ensures
        r == surface_area(*surface),
{
    let a = surface.area();
    Rect { x: a.x, y: a.y, width: a.width, height: a.height }
}

/// Calls `Buffer::content` for its length: the number of cells held.
#[verifier::external_body]
pub(crate) fn cell_count(surface: &tui::buffer::Buffer) -> (r: usize)
    ensures
        r == surface_cells(*surface).len(),
{
    surface.content().len()
}

/// Calls `Buffer::set_stringn`, which writes the graphemes of `text` into
/// row `y` from column `x` on, each with `style` applied to its cell, and
/// stops before the grapheme that would reach beyond `width` columns or
/// beyond the row. The area stays and no cell is added or removed. Cells of
/// other rows, cells left of `x` and cells from `x + width` on are left as
/// they were. The first cell of each grapheme written takes the grapheme
/// as its symbol and has `style` applied, and the cells that a wide
/// grapheme hides are set back to show nothing; which cells these are is
/// [`written_at`].
#[verifier::external_body]
pub(crate) fn set_stringn(
    surface: &mut tui::buffer::Buffer,
    x: u16,
    y: u16,
    text: &str,
    width: usize,
    style: Style,
)
    requires
        surface_wf(*old(surface)),
        surface_area(*old(surface)).contains(x as int, y as int),
    ensures
        surface_area(*final(surface)) == surface_area(*old(surface)),
        surface_cells(*final(surface)).len() == surface_cells(*old(surface)).len(),
        surface_cells(*final(surface)) == string_written(
            surface_cells(*old(surface)),
            surface_area(*old(surface)),
            x,
            y,
            text@,
            width,
            style,
        ),
        forall|i: int|
            0 <= i < surface_cells(*old(surface)).len() && !(cell_row(
                surface_area(*old(surface)),
                i,
            ) == y && x <= cell_column(surface_area(*old(surface)), i) < x + width)
                ==> #[trigger] surface_cells(*final(surface))[i] == surface_cells(*old(surface))[i],
        forall|i: int|
            0 <= i < surface_cells(*old(surface)).len() ==> #[trigger] surface_cells(
                *final(surface),
            )[i] == written_cell(
                surface_cells(*old(surface))[i],
                written_at(surface_area(*old(surface)), x, y, text@, width, i),
                style,
            ),
{
    let style = tui::style::Style {
        fg: style.fg,
        bg: style.bg,
        add_modifier: tui::style::Modifier::from_bits_truncate(style.add_modifier),
        sub_modifier: tui::style::Modifier::from_bits_truncate(style.sub_modifier),
    };
    surface.set_stringn(x, y, text, width, style);
}

/// Calls `Buffer::set_style`, which applies `style` to every cell of `rect`
/// and leaves the symbols and all other cells as they were.
#[verifier::external_body]
pub(crate) fn set_style(surface: &mut tui::buffer::Buffer, rect: Rect, style: Style)
    requires
        surface_wf(*old(surface)),
        surface_area(*old(surface)).encloses(rect),
    ensures
        surface_area(*final(surface)) == surface_area(*old(surface)),
        surface_cells(*final(surface)) == style_applied(
            surface_cells(*old(surface)),
            surface_area(*old(surface)),
            rect,
            style,
        ),
{
    let style = tui::style::Style {
        fg: style.fg,
        bg: style.bg,
        add_modifier: tui::style::Modifier::from_bits_truncate(style.add_modifier),
        sub_modifier: tui::style::Modifier::from_bits_truncate(style.sub_modifier),
    };
    let rect = tui::layout::Rect { x: rect.x, y: rect.y, width: rect.width, height: rect.height };
    surface.set_style(rect, style);
}

/// Whether `surface` is well formed and `viewport` lies within it.
pub fn fits(surface: &Surface, viewport: Rect) -> (r: bool)
    ensures
        r == (surface_wf(*surface) && surface_area(*surface).encloses(viewport)),
{
    let area = area_of(surface);
    let n: usize = cell_count(surface);
    let right: u32 = area.x as u32 + area.width as u32;
    let bottom: u32 = area.y as u32 + area.height as u32;
    assert(area.width * area.height <= 0xffff * 0xffff) by (nonlinear_arith)
        requires
            area.width <= 0xffff,
            area.height <= 0xffff,
    ;
    let count: u32 = area.width as u32 * area.height as u32;
    right <= 0xffff && bottom <= 0xffff && count <= 0xffff && n == count as usize && area.x
        <= viewport.x && viewport.x as u32 + viewport.width as u32 <= right && area.y <= viewport.y
        && viewport.y as u32 + viewport.height as u32 <= bottom
}

/// The part of `viewport` that `surface` holds, where the surface is well
/// formed and the viewport starts within it: the viewport cut short at the
/// right and at the bottom edge of the surface.
pub open spec fn held_part(surface: tui::buffer::Buffer, viewport: Rect) -> Option<Rect> {
    let area = surface_area(surface);
    if surface_wf(surface) && area.x <= viewport.x <= area.right() && area.y <= viewport.y
        <= area.bottom() {
        Some(
            Rect {
                x: viewport.x,
                y: viewport.y,
                width: if viewport.right() <= area.right() {
                    viewport.width
                } else {
                    (area.right() - viewport.x) as u16
                },
                height: if viewport.bottom() <= area.bottom() {
                    viewport.height
                } else {
                    (area.bottom() - viewport.y) as u16
                },
            },
        )
    } else {
        None
    }
}

/// Cuts `viewport` down to what `surface` holds of it: see [`held_part`].
pub fn clip(surface: &Surface, viewport: Rect) -> (r: Option<Rect>)
    ensures
        r == held_part(*surface, viewport),
        match r {
            Some(part) => surface_wf(*surface) && surface_area(*surface).encloses(part),
            None => true,
        },
{
    let area = area_of(surface);
    if !fits(surface, Rect { x: area.x, y: area.y, width: 0, height: 0 }) {
        return None;
    }
    let right: u16 = area.x + area.width;
    let bottom: u16 = area.y + area.height;
    if viewport.x < area.x || viewport.x > right || viewport.y < area.y || viewport.y > bottom {
        return None;
    }
    let width: u16 = if viewport.width <= right - viewport.x {
        viewport.width
    } else {
        right - viewport.x
    };
    let height: u16 = if viewport.height <= bottom - viewport.y {
        viewport.height
    } else {
        bottom - viewport.y
    };
    Some(Rect { x: viewport.x, y: viewport.y, width, height })
}

} // verus!
