//! What drawing makes of each cell, whatever the cell held before.
//!
//! Every write lays something over a cell: a symbol, colours, modifier bits
//! switched on or off. What a whole pass lays over a cell is again of that
//! kind, and laying it over the cell a second time changes nothing.

use vstd::prelude::*;
use crate::geometry::{Position, Rect};
use crate::grapheme::{FormattedGrapheme, Grapheme};
use crate::pass::{pass_after, pass_end, PassState, Step};
use crate::renderer::{whitespace_kind, GraphemeStyle, Settings};
use crate::style::{Style, MODIFIER_MASK};
use crate::surface::{
    cell_column, cell_row, restyled, string_written, style_applied, written_at, written_cell, Cell,
    Written,
};
use crate::trailing_whitespace::{next_run, Run};

verus! {

/// What has been laid over a cell.
pub struct Change {
    /// The symbol that the cell was given, if any.
    pub symbol: Option<Seq<char>>,
    /// The colours that the cell was given, if any.
    pub fg: Option<tui::style::Color>,
    pub bg: Option<tui::style::Color>,
    /// The modifier bits that were switched on.
    pub set: u16,
    /// The modifier bits that were switched off.
    pub clear: u16,
}

impl Change {
    /// Nothing laid over a cell.
    pub open spec fn none() -> Change {
        Change { symbol: None, fg: None, bg: None, set: 0, clear: 0 }
    }

    /// No bit is switched both on and off.
    pub open spec fn settled(self) -> bool {
        self.set & self.clear == 0
    }

    /// The cell with the change laid over it.
    pub open spec fn applied(self, cell: Cell) -> Cell {
        Cell {
            symbol: match self.symbol {
                Some(s) => s,
                None => cell.symbol,
            },
            fg: match self.fg {
                Some(c) => c,
                None => cell.fg,
            },
            bg: match self.bg {
                Some(c) => c,
                None => cell.bg,
            },
            modifier: (cell.modifier & !self.clear) | self.set,
        }
    }

    /// This change with `later` laid over it.
    pub open spec fn followed_by(self, later: Change) -> Change {
        let set = (self.set & !later.clear) | later.set;
        Change {
            symbol: if later.symbol.is_some() {
                later.symbol
            } else {
                self.symbol
            },
            fg: if later.fg.is_some() {
                later.fg
            } else {
                self.fg
            },
            bg: if later.bg.is_some() {
                later.bg
            } else {
                self.bg
            },
            set,
            clear: (self.clear | later.clear) & !set,
        }
    }

    /// What applying a style lays over a cell.
    pub open spec fn of_style(style: Style) -> Change {
        Change {
            symbol: None,
            fg: style.fg,
            bg: style.bg,
            set: (style.add_modifier & MODIFIER_MASK) & !(style.sub_modifier & MODIFIER_MASK),
            clear: style.sub_modifier & MODIFIER_MASK,
        }
    }

    /// What setting a cell to `cell` lays over it.
    pub open spec fn of_cell(cell: Cell) -> Change {
        Change {
            symbol: Some(cell.symbol),
            fg: Some(cell.fg),
            bg: Some(cell.bg),
            set: cell.modifier,
            clear: !cell.modifier,
        }
    }

    /// What a write of text in `style` lays over a cell of which it makes
    /// `written`.
    pub open spec fn of_written(written: Written, style: Style) -> Change {
        match written {
            Written::Kept => Change::none(),
            Written::Symbol(symbol) => Change { symbol: Some(symbol), ..Change::of_style(style) },
            Written::Cleared(blank) => Change::of_cell(blank),
        }
    }
}

/// Laying one change over a cell and then another is laying the two, one
/// over the other, over the cell.
pub proof fn lemma_followed_by(cell: Cell, first: Change, later: Change)
    ensures
        later.applied(first.applied(cell)) == first.followed_by(later).applied(cell),
{
    let m = cell.modifier;
    let s1 = first.set;
    let c1 = first.clear;
    let s2 = later.set;
    let c2 = later.clear;
    assert(((((m & !c1) | s1) & !c2) | s2) == ((m & !((c1 | c2) & !((s1 & !c2) | s2))) | ((s1 & !c2)
        | s2))) by (bit_vector);
}

/// One change laid over another switches no bit both on and off.
pub proof fn lemma_followed_by_settled(first: Change, later: Change)
    ensures
        first.followed_by(later).settled(),
{
    let s1 = first.set;
    let c1 = first.clear;
    let s2 = later.set;
    let c2 = later.clear;
    assert((((s1 & !c2) | s2) & ((c1 | c2) & !((s1 & !c2) | s2))) == 0u16) by (bit_vector);
}

/// A change laid over a cell twice is the change laid over it once.
pub proof fn lemma_applied_twice(cell: Cell, change: Change)
    requires
        change.settled(),
    ensures
        change.applied(change.applied(cell)) == change.applied(cell),
{
    let m = cell.modifier;
    let s = change.set;
    let c = change.clear;
    assert(((((m & !c) | s) & !c) | s) == ((m & !c) | s)) by (bit_vector)
        requires
            s & c == 0u16,
    ;
}

/// What a write makes of a cell is a change laid over it.
pub proof fn lemma_written_is_change(cell: Cell, written: Written, style: Style)
    ensures
        written_cell(cell, written, style) == Change::of_written(written, style).applied(cell),
        restyled(cell, style) == Change::of_style(style).applied(cell),
{
    let m = cell.modifier;
    let a = style.add_modifier;
    let s = style.sub_modifier;
    let k = MODIFIER_MASK;
    assert(((m | (a & k)) & !(s & k)) == ((m & !(s & k)) | ((a & k) & !(s & k)))) by (bit_vector);
    assert(((m & !0u16) | 0u16) == m) by (bit_vector);
    match written {
        Written::Cleared(blank) => {
            let b = blank.modifier;
            assert(((m & !(!b)) | b) == b) by (bit_vector);
        },
        _ => {},
    }
}

/// Nothing laid over any of `n` cells.
pub open spec fn no_changes(n: nat) -> Seq<Change> {
    Seq::new(n, |i: int| Change::none())
}

/// The cells with the changes laid over them, each over its cell.
pub open spec fn apply_all(changes: Seq<Change>, cells: Seq<Cell>) -> Seq<Cell> {
    Seq::new(cells.len(), |i: int| changes[i].applied(cells[i]))
}

/// The changes after a write of text.
pub open spec fn written_changes(
    changes: Seq<Change>,
    area: Rect,
    x: u16,
    y: u16,
    text: Seq<char>,
    width: usize,
    style: Style,
) -> Seq<Change> {
    Seq::new(
        changes.len(),
        |i: int| changes[i].followed_by(Change::of_written(written_at(area, x, y, text, width, i), style)),
    )
}

/// The changes after a style was applied to the cells of `rect`.
pub open spec fn styled_changes(changes: Seq<Change>, area: Rect, rect: Rect, style: Style) -> Seq<
    Change,
> {
    Seq::new(
        changes.len(),
        |i: int|
            if rect.contains(cell_column(area, i), cell_row(area, i)) {
                changes[i].followed_by(Change::of_style(style))
            } else {
                changes[i]
            },
    )
}

/// Writing text onto cells that changes were laid over lays the changes
/// of the write over those changes.
pub proof fn lemma_written_changes(
    changes: Seq<Change>,
    cells: Seq<Cell>,
    area: Rect,
    x: u16,
    y: u16,
    text: Seq<char>,
    width: usize,
    style: Style,
)
    requires
        changes.len() == cells.len(),
    ensures
        string_written(apply_all(changes, cells), area, x, y, text, width, style) == apply_all(
            written_changes(changes, area, x, y, text, width, style),
            cells,
        ),
{
    let left = string_written(apply_all(changes, cells), area, x, y, text, width, style);
    let right = apply_all(written_changes(changes, area, x, y, text, width, style), cells);
    assert forall|i: int| 0 <= i < cells.len() implies left[i] == right[i] by {
        let written = written_at(area, x, y, text, width, i);
        lemma_written_is_change(changes[i].applied(cells[i]), written, style);
        lemma_followed_by(cells[i], changes[i], Change::of_written(written, style));
    }
    assert(left =~= right);
}

/// Applying a style to cells that changes were laid over lays the style
/// over those changes.
pub proof fn lemma_styled_changes(
    changes: Seq<Change>,
    cells: Seq<Cell>,
    area: Rect,
    rect: Rect,
    style: Style,
)
    requires
        changes.len() == cells.len(),
    ensures
        style_applied(apply_all(changes, cells), area, rect, style) == apply_all(
            styled_changes(changes, area, rect, style),
            cells,
        ),
{
    let left = style_applied(apply_all(changes, cells), area, rect, style);
    let right = apply_all(styled_changes(changes, area, rect, style), cells);
    assert forall|i: int| 0 <= i < cells.len() implies left[i] == right[i] by {
        lemma_written_is_change(changes[i].applied(cells[i]), Written::Kept, style);
        lemma_followed_by(cells[i], changes[i], Change::of_style(style));
    }
    assert(left =~= right);
}

/// The changes after a grapheme was drawn: what `Settings::grapheme_drawn`
/// does to cells, done to the changes laid over them.
pub open spec fn grapheme_changes(
    r: Settings,
    changes: Seq<Change>,
    run: Option<Run>,
    grapheme: Grapheme,
    grapheme_style: GraphemeStyle,
    is_virtual: bool,
    position: Position,
) -> Seq<Change> {
    let style = r.composed_style(grapheme, grapheme_style);
    let y = (r.viewport.y + position.row) as u16;
    if r.in_view(position.col) {
        let col = (position.col - r.col_offset) as usize;
        let kind = whitespace_kind(grapheme);
        let written = written_changes(
            changes,
            r.area,
            (r.viewport.x + col) as u16,
            y,
            r.glyph(grapheme, is_virtual),
            (r.viewport.width - col) as usize,
            style,
        );
        if (r.track_trailing && kind is Newline) || r.at_right_edge(position.col) {
            match next_run(r.track_trailing, r.trailing_whitespace, run, col, kind) {
                Some(run) => written_changes(
                    written,
                    r.area,
                    (r.viewport.x + run.from) as u16,
                    y,
                    run.glyphs,
                    (r.viewport.width - run.from) as usize,
                    r.trailing_whitespace_style,
                ),
                None => written,
            }
        } else {
            written
        }
    } else if position.col < r.col_offset && r.col_offset - position.col < grapheme.columns() {
        let visible = grapheme.columns() - (r.col_offset - position.col);
        let width = if visible < r.viewport.width {
            visible as u16
        } else {
            r.viewport.width
        };
        styled_changes(changes, r.area, Rect { x: r.viewport.x, y, width, height: 1 }, style)
    } else {
        changes
    }
}

/// The changes after the guides of the indent levels from `from` up to,
/// but without, `to` were drawn into row `row`.
pub open spec fn guides_changes(r: Settings, changes: Seq<Change>, row: u16, from: int, to: int) -> Seq<
    Change,
>
    decreases to - from,
{
    if from >= to {
        changes
    } else {
        written_changes(
            guides_changes(r, changes, row, from, to - 1),
            r.area,
            (r.viewport.x + ((to - 1) * r.indent_width - r.col_offset)) as u16,
            (r.viewport.y + row) as u16,
            r.indent_guide_char,
            (r.viewport.width - ((to - 1) * r.indent_width - r.col_offset)) as usize,
            r.indent_guide_style,
        )
    }
}

/// The changes after the indent guides of a row were drawn.
pub open spec fn indent_guides_changes(
    r: Settings,
    changes: Seq<Change>,
    indent_level: usize,
    row: u16,
) -> Seq<Change> {
    if r.draw_indent_guides {
        guides_changes(r, changes, row, r.starting_indent as int, r.guide_end(indent_level))
    } else {
        changes
    }
}

/// Drawing a grapheme onto cells that changes were laid over lays what
/// the drawing does over those changes.
pub proof fn lemma_grapheme_changes(
    r: Settings,
    changes: Seq<Change>,
    cells: Seq<Cell>,
    run: Option<Run>,
    grapheme: Grapheme,
    grapheme_style: GraphemeStyle,
    is_virtual: bool,
    position: Position,
)
    requires
        changes.len() == cells.len(),
    ensures
        grapheme_changes(r, changes, run, grapheme, grapheme_style, is_virtual, position).len()
            == changes.len(),
        r.grapheme_drawn(
            apply_all(changes, cells),
            run,
            grapheme,
            grapheme_style,
            is_virtual,
            position,
        ) == apply_all(
            grapheme_changes(r, changes, run, grapheme, grapheme_style, is_virtual, position),
            cells,
        ),
{
    let style = r.composed_style(grapheme, grapheme_style);
    let y = (r.viewport.y + position.row) as u16;
    if r.in_view(position.col) {
        let col = (position.col - r.col_offset) as usize;
        let kind = whitespace_kind(grapheme);
        let x = (r.viewport.x + col) as u16;
        let glyph = r.glyph(grapheme, is_virtual);
        let left = (r.viewport.width - col) as usize;
        lemma_written_changes(changes, cells, r.area, x, y, glyph, left, style);
        let written = written_changes(changes, r.area, x, y, glyph, left, style);
        if (r.track_trailing && kind is Newline) || r.at_right_edge(position.col) {
            match next_run(r.track_trailing, r.trailing_whitespace, run, col, kind) {
                Some(run) => {
                    lemma_written_changes(
                        written,
                        cells,
                        r.area,
                        (r.viewport.x + run.from) as u16,
                        y,
                        run.glyphs,
                        (r.viewport.width - run.from) as usize,
                        r.trailing_whitespace_style,
                    );
                },
                None => {},
            }
        }
    } else if position.col < r.col_offset && r.col_offset - position.col < grapheme.columns() {
        let visible = grapheme.columns() - (r.col_offset - position.col);
        let width = if visible < r.viewport.width {
            visible as u16
        } else {
            r.viewport.width
        };
        lemma_styled_changes(
            changes,
            cells,
            r.area,
            Rect { x: r.viewport.x, y, width, height: 1 },
            style,
        );
    }
}

/// Drawing indent guides onto cells that changes were laid over lays what
/// the drawing does over those changes.
pub proof fn lemma_guides_changes(
    r: Settings,
    changes: Seq<Change>,
    cells: Seq<Cell>,
    row: u16,
    from: int,
    to: int,
)
    requires
        changes.len() == cells.len(),
    ensures
        guides_changes(r, changes, row, from, to).len() == changes.len(),
        r.guides_drawn(apply_all(changes, cells), row, from, to) == apply_all(
            guides_changes(r, changes, row, from, to),
            cells,
        ),
    decreases to - from,
{
    if from < to {
        lemma_guides_changes(r, changes, cells, row, from, to - 1);
        lemma_written_changes(
            guides_changes(r, changes, row, from, to - 1),
            cells,
            r.area,
            (r.viewport.x + ((to - 1) * r.indent_width - r.col_offset)) as u16,
            (r.viewport.y + row) as u16,
            r.indent_guide_char,
            (r.viewport.width - ((to - 1) * r.indent_width - r.col_offset)) as usize,
            r.indent_guide_style,
        );
    }
}

/// The changes after one more grapheme of a pass in state `s`: what
/// `stepped` does to the cells, done to the changes laid over them.
pub open spec fn step_changes(r: Settings, s: PassState, g: FormattedGrapheme, changes: Seq<Change>) -> Seq<
    Change,
> {
    if s.done {
        changes
    } else {
        match s.cursor.decide(g) {
            Step::Draw { finished, opened, start_char_idx, style, pos } => grapheme_changes(
                r,
                match finished {
                    Some(row) => indent_guides_changes(
                        r,
                        changes,
                        s.cursor.last_line_indent_level,
                        row.visual_line,
                    ),
                    None => changes,
                },
                s.run,
                g.grapheme,
                style,
                g.virtual_text(),
                pos,
            ),
            _ => changes,
        }
    }
}

/// What a pass has laid over each cell after the first `k` graphemes.
pub open spec fn changes_after(
    r: Settings,
    soft_wrap: bool,
    graphemes: Seq<FormattedGrapheme>,
    start: PassState,
    k: int,
) -> Seq<Change>
    decreases k,
{
    if k <= 0 || k > graphemes.len() {
        no_changes(start.cells.len())
    } else {
        step_changes(
            r,
            pass_after(r, soft_wrap, graphemes, start, k - 1),
            graphemes[k - 1],
            changes_after(r, soft_wrap, graphemes, start, k - 1),
        )
    }
}

/// What a whole pass lays over each cell.
pub open spec fn changes_of_pass(
    r: Settings,
    soft_wrap: bool,
    graphemes: Seq<FormattedGrapheme>,
    start: PassState,
) -> Seq<Change> {
    let s = pass_after(r, soft_wrap, graphemes, start, graphemes.len() as int);
    indent_guides_changes(
        r,
        changes_after(r, soft_wrap, graphemes, start, graphemes.len() as int),
        s.cursor.last_line_indent_level,
        s.cursor.last_line_pos.visual_line,
    )
}

/// Whether two states of a pass differ in their cells at most.
pub open spec fn same_but_cells(a: PassState, b: PassState) -> bool {
    a == (PassState { cells: a.cells, ..b })
}

/// The cells that a pass starts on have no part in what it decides: two
/// passes that start alike but for their cells go on alike but for their
/// cells.
pub proof fn lemma_cells_decide_nothing(
    r: Settings,
    soft_wrap: bool,
    graphemes: Seq<FormattedGrapheme>,
    a: PassState,
    b: PassState,
    k: int,
)
    requires
        same_but_cells(a, b),
        a.cells.len() == b.cells.len(),
    ensures
        same_but_cells(
            pass_after(r, soft_wrap, graphemes, a, k),
            pass_after(r, soft_wrap, graphemes, b, k),
        ),
        changes_after(r, soft_wrap, graphemes, a, k) == changes_after(r, soft_wrap, graphemes, b, k),
    decreases k,
{
    if 0 < k <= graphemes.len() {
        lemma_cells_decide_nothing(r, soft_wrap, graphemes, a, b, k - 1);
    }
}

/// The cells after the first `k` graphemes of a pass are the cells that
/// the pass started on with its changes laid over them.
pub proof fn lemma_pass_lays_changes(
    r: Settings,
    soft_wrap: bool,
    graphemes: Seq<FormattedGrapheme>,
    start: PassState,
    k: int,
)
    ensures
        changes_after(r, soft_wrap, graphemes, start, k).len() == start.cells.len(),
        pass_after(r, soft_wrap, graphemes, start, k).cells == apply_all(
            changes_after(r, soft_wrap, graphemes, start, k),
            start.cells,
        ),
    decreases k,
{
    if 0 < k <= graphemes.len() {
        lemma_pass_lays_changes(r, soft_wrap, graphemes, start, k - 1);
        let s = pass_after(r, soft_wrap, graphemes, start, k - 1);
        let g = graphemes[k - 1];
        let changes = changes_after(r, soft_wrap, graphemes, start, k - 1);
        if !s.done {
            match s.cursor.decide(g) {
                Step::Draw { finished, opened, start_char_idx, style, pos } => {
                    let before = match finished {
                        Some(row) => {
                            if r.draw_indent_guides {
                                lemma_guides_changes(
                                    r,
                                    changes,
                                    start.cells,
                                    row.visual_line,
                                    r.starting_indent as int,
                                    r.guide_end(s.cursor.last_line_indent_level),
                                );
                            }
                            indent_guides_changes(
                                r,
                                changes,
                                s.cursor.last_line_indent_level,
                                row.visual_line,
                            )
                        },
                        None => changes,
                    };
                    lemma_grapheme_changes(
                        r,
                        before,
                        start.cells,
                        s.run,
                        g.grapheme,
                        style,
                        g.virtual_text(),
                        pos,
                    );
                },
                _ => {},
            }
        }
    } else {
        assert(apply_all(no_changes(start.cells.len()), start.cells) =~= start.cells) by {
            assert forall|i: int| 0 <= i < start.cells.len() implies (#[trigger] apply_all(
                no_changes(start.cells.len()),
                start.cells,
            )[i]) == start.cells[i] by {
                lemma_written_is_change(start.cells[i], Written::Kept, Style::empty());
            }
        }
    }
}

/// Whether no change of a list switches a bit both on and off.
pub open spec fn all_settled(changes: Seq<Change>) -> bool {
    forall|i: int| 0 <= i < changes.len() ==> (#[trigger] changes[i]).settled()
}

/// Changes stay settled when a write is laid over them.
pub proof fn lemma_written_settled(
    changes: Seq<Change>,
    area: Rect,
    x: u16,
    y: u16,
    text: Seq<char>,
    width: usize,
    style: Style,
)
    ensures
        all_settled(written_changes(changes, area, x, y, text, width, style)),
{
    let after = written_changes(changes, area, x, y, text, width, style);
    assert forall|i: int| 0 <= i < after.len() implies (#[trigger] after[i]).settled() by {
        lemma_followed_by_settled(
            changes[i],
            Change::of_written(written_at(area, x, y, text, width, i), style),
        );
    }
}

/// Changes stay settled when a grapheme is drawn over them.
pub proof fn lemma_grapheme_settled(
    r: Settings,
    changes: Seq<Change>,
    run: Option<Run>,
    grapheme: Grapheme,
    grapheme_style: GraphemeStyle,
    is_virtual: bool,
    position: Position,
)
    requires
        all_settled(changes),
    ensures
        all_settled(
            grapheme_changes(r, changes, run, grapheme, grapheme_style, is_virtual, position),
        ),
{
    let style = r.composed_style(grapheme, grapheme_style);
    let y = (r.viewport.y + position.row) as u16;
    if r.in_view(position.col) {
        let col = (position.col - r.col_offset) as usize;
        let kind = whitespace_kind(grapheme);
        let x = (r.viewport.x + col) as u16;
        let glyph = r.glyph(grapheme, is_virtual);
        let left = (r.viewport.width - col) as usize;
        lemma_written_settled(changes, r.area, x, y, glyph, left, style);
        let written = written_changes(changes, r.area, x, y, glyph, left, style);
        if (r.track_trailing && kind is Newline) || r.at_right_edge(position.col) {
            match next_run(r.track_trailing, r.trailing_whitespace, run, col, kind) {
                Some(run) => {
                    lemma_written_settled(
                        written,
                        r.area,
                        (r.viewport.x + run.from) as u16,
                        y,
                        run.glyphs,
                        (r.viewport.width - run.from) as usize,
                        r.trailing_whitespace_style,
                    );
                },
                None => {},
            }
        }
    } else if position.col < r.col_offset && r.col_offset - position.col < grapheme.columns() {
        let visible = grapheme.columns() - (r.col_offset - position.col);
        let width = if visible < r.viewport.width {
            visible as u16
        } else {
            r.viewport.width
        };
        let rect = Rect { x: r.viewport.x, y, width, height: 1 };
        let after = styled_changes(changes, r.area, rect, style);
        assert forall|i: int| 0 <= i < after.len() implies (#[trigger] after[i]).settled() by {
            lemma_followed_by_settled(changes[i], Change::of_style(style));
        }
    }
}

/// Changes stay settled when indent guides are drawn over them.
pub proof fn lemma_guides_settled(r: Settings, changes: Seq<Change>, row: u16, from: int, to: int)
    requires
        all_settled(changes),
    ensures
        all_settled(guides_changes(r, changes, row, from, to)),
    decreases to - from,
{
    if from < to {
        lemma_written_settled(
            guides_changes(r, changes, row, from, to - 1),
            r.area,
            (r.viewport.x + ((to - 1) * r.indent_width - r.col_offset)) as u16,
            (r.viewport.y + row) as u16,
            r.indent_guide_char,
            (r.viewport.width - ((to - 1) * r.indent_width - r.col_offset)) as usize,
            r.indent_guide_style,
        );
    }
}

/// What a pass has laid over the cells is settled.
pub proof fn lemma_pass_changes_settled(
    r: Settings,
    soft_wrap: bool,
    graphemes: Seq<FormattedGrapheme>,
    start: PassState,
    k: int,
)
    ensures
        all_settled(changes_after(r, soft_wrap, graphemes, start, k)),
    decreases k,
{
    if 0 < k <= graphemes.len() {
        lemma_pass_changes_settled(r, soft_wrap, graphemes, start, k - 1);
        let s = pass_after(r, soft_wrap, graphemes, start, k - 1);
        let g = graphemes[k - 1];
        let changes = changes_after(r, soft_wrap, graphemes, start, k - 1);
        if !s.done {
            match s.cursor.decide(g) {
                Step::Draw { finished, opened, start_char_idx, style, pos } => {
                    let before = match finished {
                        Some(row) => {
                            lemma_guides_settled(
                                r,
                                changes,
                                row.visual_line,
                                r.starting_indent as int,
                                r.guide_end(s.cursor.last_line_indent_level),
                            );
                            indent_guides_changes(
                                r,
                                changes,
                                s.cursor.last_line_indent_level,
                                row.visual_line,
                            )
                        },
                        None => changes,
                    };
                    lemma_grapheme_settled(
                        r,
                        before,
                        s.run,
                        g.grapheme,
                        style,
                        g.virtual_text(),
                        pos,
                    );
                },
                _ => {},
            }
        }
    } else {
        assert(0u16 & 0u16 == 0u16) by (bit_vector);
        assert(Change::none().settled());
    }
}

/// The cells in which a pass ends are the cells that it started on with
/// the changes of the pass laid over them, and those changes do not
/// depend on the cells.
pub proof fn lemma_pass_end_lays_changes(
    r: Settings,
    soft_wrap: bool,
    graphemes: Seq<FormattedGrapheme>,
    end_pos: Position,
    start: PassState,
)
    ensures
        changes_of_pass(r, soft_wrap, graphemes, start).len() == start.cells.len(),
        all_settled(changes_of_pass(r, soft_wrap, graphemes, start)),
        pass_end(r, soft_wrap, graphemes, end_pos, start).cells == apply_all(
            changes_of_pass(r, soft_wrap, graphemes, start),
            start.cells,
        ),
{
    let n = graphemes.len() as int;
    let s = pass_after(r, soft_wrap, graphemes, start, n);
    let changes = changes_after(r, soft_wrap, graphemes, start, n);
    lemma_pass_lays_changes(r, soft_wrap, graphemes, start, n);
    lemma_pass_changes_settled(r, soft_wrap, graphemes, start, n);
    lemma_guides_changes(
        r,
        changes,
        start.cells,
        s.cursor.last_line_pos.visual_line,
        r.starting_indent as int,
        r.guide_end(s.cursor.last_line_indent_level),
    );
    lemma_guides_settled(
        r,
        changes,
        s.cursor.last_line_pos.visual_line,
        r.starting_indent as int,
        r.guide_end(s.cursor.last_line_indent_level),
    );
}

/// Drawing the same text again over what a pass has drawn changes
/// nothing: a second pass with the same settings, over the same graphemes
/// and from the same start but for the cells, which are those that the
/// first pass ended in, ends in those cells again.
pub proof fn lemma_redrawing_changes_nothing(
    r: Settings,
    soft_wrap: bool,
    graphemes: Seq<FormattedGrapheme>,
    end_pos: Position,
    start: PassState,
)
    ensures
        ({
            let first = pass_end(r, soft_wrap, graphemes, end_pos, start);
            pass_end(
                r,
                soft_wrap,
                graphemes,
                end_pos,
                PassState { cells: first.cells, ..start },
            ).cells == first.cells
        }),
{
    let n = graphemes.len() as int;
    let first = pass_end(r, soft_wrap, graphemes, end_pos, start);
    let again = PassState { cells: first.cells, ..start };
    lemma_pass_end_lays_changes(r, soft_wrap, graphemes, end_pos, start);
    lemma_pass_end_lays_changes(r, soft_wrap, graphemes, end_pos, again);
    lemma_cells_decide_nothing(r, soft_wrap, graphemes, again, start, n);
    let changes = changes_of_pass(r, soft_wrap, graphemes, start);
    assert(changes_of_pass(r, soft_wrap, graphemes, again) == changes);
    let second = pass_end(r, soft_wrap, graphemes, end_pos, again);
    assert forall|i: int| 0 <= i < first.cells.len() implies second.cells[i] == first.cells[i] by {
        lemma_applied_twice(start.cells[i], changes[i]);
    }
    assert(second.cells =~= first.cells);
}

} // verus!
