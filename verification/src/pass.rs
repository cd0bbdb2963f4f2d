//! The pass over the laid-out graphemes, one step to a grapheme.
//!
//! A [`Pass`] keeps the two streams of highlight spans in step with the
//! character offset and knows the row that is being drawn. For each
//! grapheme it decides what is to be done: nothing for a grapheme above the
//! viewport, the end of the pass for the first one below it, and for every
//! other which row to finish and which to open before the grapheme is drawn
//! at its place in its style.

use vstd::prelude::*;
use crate::decoration::{render_backgrounds, render_foregrounds, LineDecoration};
use crate::geometry::{LinePos, Position, TextFormat};
use crate::grapheme::{FormattedGrapheme, Grapheme, GraphemeSource};
use crate::highlight::{spans, HighlightEvent, Span, StyleIter, StyleIterKind, StyleSpan, Theme};
use crate::renderer::{GraphemeStyle, Settings, TextRenderer};
use crate::style::Style;
use crate::surface::{same_outside, Cell};
use crate::text::rope_chars;
use crate::trailing_whitespace::Run;
use crate::translate::{all_translated, translate_positions, TranslatedPosition};

verus! {

/// What a pass decides for one grapheme.
#[derive(Clone, Copy, Debug, PartialEq, Eq)]
pub enum Step {
    /// The grapheme lies above the viewport: nothing is drawn for it.
    Skip,
    /// The grapheme lies below the viewport: the pass is over.
    Stop,
    /// The grapheme is drawn.
    Draw {
        /// The row to finish first, with its indent guides and the
        /// decorations' foregrounds: the row before, where the grapheme
        /// starts a row below the top one.
        finished: Option<LinePos>,
        /// The row to open then, with the decorations' backgrounds, where
        /// the grapheme starts a row.
        opened: Option<LinePos>,
        /// The character offset at which the grapheme starts, which is
        /// where a row that it finishes ends.
        start_char_idx: usize,
        /// The two layers of style to draw in.
        style: GraphemeStyle,
        /// The row of the viewport and the column of the text to draw at.
        pos: Position,
    },
}

/// The span that stands for the rest of the text once a stream has ended:
/// the empty style, up to an offset that no text reaches.
pub open spec fn rest_of_text() -> Span {
    Span { style: Style::empty(), end: usize::MAX as int }
}

/// The next span of a stream and the spans after it.
pub open spec fn next_span(rest: Seq<Span>) -> (Span, Seq<Span>) {
    if rest.len() > 0 {
        (rest[0], rest.drop_first())
    } else {
        (rest_of_text(), rest)
    }
}

/// The row before any is drawn.
pub open spec fn no_line() -> LinePos {
    LinePos {
        first_visual_line: false,
        doc_line: usize::MAX,
        visual_line: u16::MAX,
        start_char_idx: usize::MAX,
    }
}

/// A pass as contracts speak of it.
pub struct Cursor {
    /// The number of characters of the document taken in.
    pub char_pos: int,
    /// The first character offset for which a position is reported.
    pub first_visible_char_idx: int,
    /// The span of syntax highlights in use, and those to come.
    pub syntax: Span,
    pub syntax_rest: Seq<Span>,
    /// The span of overlay highlights in use, and those to come.
    pub overlay: Span,
    pub overlay_rest: Seq<Span>,
    /// The row that is being drawn.
    pub last_line_pos: LinePos,
    /// Whether the row has shown nothing but whitespace so far.
    pub is_in_indent_area: bool,
    /// The column at which the text of the row, or of the last row that
    /// had any, starts.
    pub last_line_indent_level: usize,
    /// The visual row that the top row of the viewport shows.
    pub row_off: int,
    pub viewport_height: u16,
    /// The style of inserted text.
    pub text_style: Style,
    pub theme: Theme,
}

impl Cursor {
    /// The pass with each stream moved on to its next span where the span
    /// in use ends at or before the character offset.
    pub open spec fn in_step(self) -> Cursor {
        let syntax = if self.char_pos >= self.syntax.end {
            next_span(self.syntax_rest)
        } else {
            (self.syntax, self.syntax_rest)
        };
        let overlay = if self.char_pos >= self.overlay.end {
            next_span(self.overlay_rest)
        } else {
            (self.overlay, self.overlay_rest)
        };
        Cursor {
            syntax: syntax.0,
            syntax_rest: syntax.1,
            overlay: overlay.0,
            overlay_rest: overlay.1,
            ..self
        }
    }

    /// Whether a grapheme lies above the viewport.
    pub open spec fn above(self, g: FormattedGrapheme) -> bool {
        g.visual_pos.row < self.row_off
    }

    /// Whether a grapheme lies below the viewport.
    pub open spec fn below(self, g: FormattedGrapheme) -> bool {
        g.visual_pos.row - self.row_off >= self.viewport_height
    }

    /// Whether a grapheme in the viewport starts a row.
    pub open spec fn starts_row(self, g: FormattedGrapheme) -> bool {
        g.visual_pos.row - self.row_off != self.last_line_pos.visual_line
    }

    /// The row that a grapheme opens: the first row of its document line
    /// if the row before belongs to another line.
    pub open spec fn row_of(self, g: FormattedGrapheme) -> LinePos {
        LinePos {
            first_visual_line: g.doc_line != self.last_line_pos.doc_line,
            doc_line: g.doc_line,
            visual_line: (g.visual_pos.row - self.row_off) as u16,
            start_char_idx: self.char_pos as usize,
        }
    }

    /// The two layers of style for a grapheme. Inserted text is shown in
    /// the text style, under its own highlight if it has one, and takes
    /// part in neither stream. Text of the document is shown in the styles
    /// of the two spans in use.
    pub open spec fn style_for(self, g: FormattedGrapheme) -> GraphemeStyle {
        match g.source {
            GraphemeSource::VirtualText { highlight } => GraphemeStyle {
                syntax_style: match highlight {
                    Some(h) => self.text_style.patched(self.theme.highlight_style(h)),
                    None => self.text_style,
                },
                overlay_style: Style::empty(),
            },
            GraphemeSource::Document { .. } => GraphemeStyle {
                syntax_style: self.syntax.style,
                overlay_style: self.overlay.style,
            },
        }
    }

    /// What is to be done for a grapheme.
    pub open spec fn decide(self, g: FormattedGrapheme) -> Step {
        if self.above(g) {
            Step::Skip
        } else if self.below(g) {
            Step::Stop
        } else {
            Step::Draw {
                finished: if self.starts_row(g) && g.visual_pos.row > self.row_off {
                    Some(self.last_line_pos)
                } else {
                    None
                },
                opened: if self.starts_row(g) {
                    Some(self.row_of(g))
                } else {
                    None
                },
                start_char_idx: self.char_pos as usize,
                style: self.in_step().style_for(g),
                pos: Position {
                    row: (g.visual_pos.row - self.row_off) as usize,
                    col: g.visual_pos.col,
                },
            }
        }
    }

    /// The pass after a grapheme. Above the viewport the spans and the
    /// character offset move on, and the first character after the
    /// grapheme is the first for which a position is reported. Below the viewport nothing moves. In the
    /// viewport the spans and the character offset move on, and where the
    /// grapheme starts a row, that row is the one being drawn and, below
    /// the top row, the indent area starts again.
    pub open spec fn after(self, g: FormattedGrapheme) -> Cursor {
        if self.above(g) {
            Cursor {
                char_pos: self.char_pos + g.chars(),
                first_visible_char_idx: self.char_pos + g.chars(),
                ..self.in_step()
            }
        } else if self.below(g) {
            self
        } else {
            Cursor {
                char_pos: self.char_pos + g.chars(),
                last_line_pos: if self.starts_row(g) {
                    self.row_of(g)
                } else {
                    self.last_line_pos
                },
                is_in_indent_area: self.is_in_indent_area || (self.starts_row(g)
                    && g.visual_pos.row > self.row_off),
                ..self.in_step()
            }
        }
    }
}

/// The pass at the start of a text whose first grapheme is at character
/// offset `start_char_idx`: each stream at its first span, and no row
/// drawn.
pub open spec fn cursor_at_start(
    text_style: Style,
    chars: Seq<char>,
    start_char_idx: usize,
    row_off: usize,
    viewport_height: u16,
    syntax_highlights: Seq<HighlightEvent>,
    overlay_highlights: Seq<HighlightEvent>,
    theme: Theme,
) -> Cursor {
    let syntax = next_span(
        spans(
            syntax_highlights,
            Seq::empty(),
            text_style,
            StyleIterKind::BaseHighlights,
            chars,
            theme,
        ),
    );
    let overlay = next_span(
        spans(
            overlay_highlights,
            Seq::empty(),
            Style::empty(),
            StyleIterKind::Overlay,
            chars,
            theme,
        ),
    );
    Cursor {
        char_pos: start_char_idx as int,
        first_visible_char_idx: start_char_idx as int,
        syntax: syntax.0,
        syntax_rest: syntax.1,
        overlay: overlay.0,
        overlay_rest: overlay.1,
        last_line_pos: no_line(),
        is_in_indent_area: true,
        last_line_indent_level: 0,
        row_off: row_off as int,
        viewport_height,
        text_style,
        theme,
    }
}

/// The state of a pass.
pub struct Pass<'a> {
    pub char_pos: usize,
    pub first_visible_char_idx: usize,
    pub syntax_styles: StyleIter<'a>,
    pub overlay_styles: StyleIter<'a>,
    pub syntax_style_span: StyleSpan,
    pub overlay_style_span: StyleSpan,
    pub last_line_pos: LinePos,
    pub is_in_indent_area: bool,
    pub last_line_indent_level: usize,
    pub row_off: usize,
    pub viewport_height: u16,
    pub text_style: Style,
    pub theme: &'a Theme,
}

impl<'a> View for Pass<'a> {
    type V = Cursor;

    open spec fn view(&self) -> Cursor {
        Cursor {
            char_pos: self.char_pos as int,
            first_visible_char_idx: self.first_visible_char_idx as int,
            syntax: self.syntax_style_span@,
            syntax_rest: self.syntax_styles.remaining(),
            overlay: self.overlay_style_span@,
            overlay_rest: self.overlay_styles.remaining(),
            last_line_pos: self.last_line_pos,
            is_in_indent_area: self.is_in_indent_area,
            last_line_indent_level: self.last_line_indent_level,
            row_off: self.row_off as int,
            viewport_height: self.viewport_height,
            text_style: self.text_style,
            theme: *self.theme,
        }
    }
}

/// Takes the next span of a stream, or the span that stands for the rest
/// of the text where the stream has ended.
fn take_span(styles: &mut StyleIter) -> (r: StyleSpan)
    ensures
        (r@, final(styles).remaining()) == next_span(old(styles).remaining()),
{
    let ghost rest = styles.remaining();
    match styles.next() {
        Some(span) => {
            assert(rest[0] == span@);
            assert(styles.remaining() =~= rest.drop_first());
            span
        },
        None => StyleSpan { style: Style::new(), end: usize::MAX },
    }
}

impl<'a> Pass<'a> {
    /// No row has an indent before one is drawn.
    pub open spec fn wf(&self) -> bool {
        self.last_line_pos.visual_line < self.viewport_height || self.last_line_indent_level == 0
    }

    /// A pass at the start of a text.
    pub fn new(
        text_style: Style,
        text: ropey::RopeSlice<'a>,
        start_char_idx: usize,
        row_off: usize,
        viewport_height: u16,
        syntax_highlights: &'a [HighlightEvent],
        overlay_highlights: &'a [HighlightEvent],
        theme: &'a Theme,
    ) -> (r: Pass<'a>)
        ensures
            r.wf(),
            r@ == cursor_at_start(
                text_style,
                rope_chars(text),
                start_char_idx,
                row_off,
                viewport_height,
                syntax_highlights@,
                overlay_highlights@,
                *theme,
            ),
    {
        let mut syntax_styles = StyleIter::new(
            text_style,
            syntax_highlights,
            StyleIterKind::BaseHighlights,
            text,
            theme,
        );
        let mut overlay_styles = StyleIter::new(
            Style::new(),
            overlay_highlights,
            StyleIterKind::Overlay,
            text,
            theme,
        );
        let syntax_style_span = take_span(&mut syntax_styles);
        let overlay_style_span = take_span(&mut overlay_styles);
        Pass {
            char_pos: start_char_idx,
            first_visible_char_idx: start_char_idx,
            syntax_styles,
            overlay_styles,
            syntax_style_span,
            overlay_style_span,
            last_line_pos: LinePos {
                first_visual_line: false,
                doc_line: usize::MAX,
                visual_line: u16::MAX,
                start_char_idx: usize::MAX,
            },
            is_in_indent_area: true,
            last_line_indent_level: 0,
            row_off,
            viewport_height,
            text_style,
            theme,
        }
    }

    /// Moves each stream on to its next span where the span in use ends at
    /// or before the character offset.
    fn move_spans(&mut self)
        ensures
            final(self)@ == old(self)@.in_step(),
    {
        if self.char_pos >= self.syntax_style_span.end {
            self.syntax_style_span = take_span(&mut self.syntax_styles);
        }
        if self.char_pos >= self.overlay_style_span.end {
            self.overlay_style_span = take_span(&mut self.overlay_styles);
        }
    }

    /// Takes one grapheme in and says what is to be done for it.
    pub fn advance(&mut self, g: &FormattedGrapheme) -> (step: Step)
        requires
            old(self).char_pos + g.chars() < usize::MAX,
        ensures
            old(self).wf() ==> final(self).wf(),
            step == old(self)@.decide(*g),
            final(self)@ == old(self)@.after(*g),
    {
        if g.visual_pos.row < self.row_off {
            self.move_spans();
            self.char_pos = self.char_pos + g.doc_chars();
            self.first_visible_char_idx = self.char_pos;
            return Step::Skip;
        }
        let row: usize = g.visual_pos.row - self.row_off;
        if row >= self.viewport_height as usize {
            return Step::Stop;
        }
        let start_char_idx: usize = self.char_pos;
        let mut finished = None;
        let mut opened = None;
        if row as u16 != self.last_line_pos.visual_line {
            if row > 0 {
                finished = Some(self.last_line_pos);
                self.is_in_indent_area = true;
            }
            self.last_line_pos =
            LinePos {
                first_visual_line: g.doc_line != self.last_line_pos.doc_line,
                doc_line: g.doc_line,
                visual_line: row as u16,
                start_char_idx,
            };
            opened = Some(self.last_line_pos);
        }
        self.move_spans();
        self.char_pos = self.char_pos + g.doc_chars();
        let style = match g.source {
            GraphemeSource::VirtualText { highlight } => {
                let mut style = self.text_style;
                if let Some(h) = highlight {
                    style = style.patch(self.theme.highlight(h.0));
                }
                GraphemeStyle { syntax_style: style, overlay_style: Style::new() }
            },
            GraphemeSource::Document { .. } => GraphemeStyle {
                syntax_style: self.syntax_style_span.style,
                overlay_style: self.overlay_style_span.style,
            },
        };
        Step::Draw {
            finished,
            opened,
            start_char_idx,
            style,
            pos: Position { row, col: g.visual_pos.col },
        }
    }
}

/// A pass together with what it has drawn and reported so far.
pub struct PassState {
    pub cursor: Cursor,
    /// The tracked run of trailing whitespace.
    pub run: Option<Run>,
    /// The requests for positions, answered as far as the pass has come.
    pub translated: Seq<TranslatedPosition>,
    /// The cells of the surface, had no decoration drawn on it.
    pub cells: Seq<Cell>,
    /// Whether the pass has come to a row below the viewport.
    pub done: bool,
}

/// The state after one more grapheme. Once the pass is done nothing
/// changes. A grapheme above the viewport moves the pass on and draws
/// nothing, and at the first one below the viewport the pass is done. For
/// a grapheme in the viewport, the row that it finishes gets its indent
/// guides, the requests for characters up to it are answered with its
/// place, and the grapheme is drawn there, which may set the indent of
/// its row.
pub open spec fn stepped(r: Settings, soft_wrap: bool, s: PassState, g: FormattedGrapheme) -> PassState {
    if s.done {
        s
    } else {
        match s.cursor.decide(g) {
            Step::Skip => PassState { cursor: s.cursor.after(g), ..s },
            Step::Stop => PassState { done: true, ..s },
            Step::Draw { finished, opened, start_char_idx, style, pos } => {
                let c = s.cursor.after(g);
                let whitespace = g.grapheme.whitespace();
                PassState {
                    cursor: Cursor {
                        is_in_indent_area: c.is_in_indent_area && whitespace,
                        last_line_indent_level: if c.is_in_indent_area && !whitespace {
                            pos.col
                        } else {
                            c.last_line_indent_level
                        },
                        ..c
                    },
                    run: r.run_after_grapheme(s.run, g.grapheme, pos),
                    translated: all_translated(
                        s.translated,
                        c.char_pos,
                        c.first_visible_char_idx,
                        soft_wrap,
                        r.col_offset,
                        r.viewport.width,
                        pos,
                    ),
                    cells: r.grapheme_drawn(
                        match finished {
                            Some(row) => r.indent_guides_drawn(
                                s.cells,
                                s.cursor.last_line_indent_level,
                                row.visual_line,
                            ),
                            None => s.cells,
                        },
                        s.run,
                        g.grapheme,
                        style,
                        g.virtual_text(),
                        pos,
                    ),
                    done: false,
                }
            },
        }
    }
}

/// The state after the first `k` of the graphemes.
pub open spec fn pass_after(
    r: Settings,
    soft_wrap: bool,
    graphemes: Seq<FormattedGrapheme>,
    start: PassState,
    k: int,
) -> PassState
    decreases k,
{
    if k <= 0 || k > graphemes.len() {
        start
    } else {
        stepped(r, soft_wrap, pass_after(r, soft_wrap, graphemes, start, k - 1), graphemes[k - 1])
    }
}

/// The state in which a pass ends. Where the text has ended at `end_pos`
/// within or below the viewport, a request for the character offset right
/// after the text is answered with the position left of `end_pos`. Then
/// the last row gets its indent guides.
pub open spec fn finished(r: Settings, soft_wrap: bool, end_pos: Option<Position>, s: PassState) -> PassState {
    let translated = match end_pos {
        Some(end) if end.row >= s.cursor.row_off && end.col > 0 => all_translated(
            s.translated,
            s.cursor.char_pos + 1,
            s.cursor.first_visible_char_idx,
            soft_wrap,
            r.col_offset,
            r.viewport.width,
            Position { row: (end.row - s.cursor.row_off) as usize, col: (end.col - 1) as usize },
        ),
        _ => s.translated,
    };
    PassState {
        translated,
        cells: r.indent_guides_drawn(
            s.cells,
            s.cursor.last_line_indent_level,
            s.cursor.last_line_pos.visual_line,
        ),
        ..s
    }
}

/// The state in which a pass over all of the graphemes ends. The end of
/// the text is seen to unless the pass was done before.
pub open spec fn pass_end(
    r: Settings,
    soft_wrap: bool,
    graphemes: Seq<FormattedGrapheme>,
    end_pos: Position,
    start: PassState,
) -> PassState {
    let s = pass_after(r, soft_wrap, graphemes, start, graphemes.len() as int);
    finished(
        r,
        soft_wrap,
        if s.done {
            None
        } else {
            Some(end_pos)
        },
        s,
    )
}

/// Once a pass is done, further graphemes change nothing.
pub proof fn lemma_done_stays(
    r: Settings,
    soft_wrap: bool,
    graphemes: Seq<FormattedGrapheme>,
    start: PassState,
    k: int,
    n: int,
)
    requires
        0 <= k <= n <= graphemes.len(),
        pass_after(r, soft_wrap, graphemes, start, k).done,
    ensures
        pass_after(r, soft_wrap, graphemes, start, n) == pass_after(r, soft_wrap, graphemes, start, k),
    decreases n,
{
    if k < n {
        lemma_done_stays(r, soft_wrap, graphemes, start, k, n - 1);
    }
}

/// A pass is fixed by what it is given: with the same settings, the same
/// graphemes and the same start, grid included, two passes end in the
/// same state, grid included.
pub proof fn lemma_same_input_same_grid(
    r1: Settings,
    r2: Settings,
    soft_wrap1: bool,
    soft_wrap2: bool,
    graphemes1: Seq<FormattedGrapheme>,
    graphemes2: Seq<FormattedGrapheme>,
    end_pos1: Position,
    end_pos2: Position,
    start1: PassState,
    start2: PassState,
)
    requires
        r1 == r2,
        soft_wrap1 == soft_wrap2,
        graphemes1 == graphemes2,
        end_pos1 == end_pos2,
        start1 == start2,
    ensures
        pass_end(r1, soft_wrap1, graphemes1, end_pos1, start1).cells == pass_end(
            r2,
            soft_wrap2,
            graphemes2,
            end_pos2,
            start2,
        ).cells,
        pass_end(r1, soft_wrap1, graphemes1, end_pos1, start1) == pass_end(
            r2,
            soft_wrap2,
            graphemes2,
            end_pos2,
            start2,
        ),
{
}

/// The number of characters of the document that the first `n` graphemes
/// stand for.
pub open spec fn chars_through(graphemes: Seq<FormattedGrapheme>, n: int) -> int
    decreases n,
{
    if n <= 0 || n > graphemes.len() {
        0
    } else {
        chars_through(graphemes, n - 1) + graphemes[n - 1].chars()
    }
}

/// Counting through more graphemes never gives less.
pub proof fn lemma_chars_through_grows(graphemes: Seq<FormattedGrapheme>, m: int, n: int)
    requires
        0 <= m <= n <= graphemes.len(),
    ensures
        0 <= chars_through(graphemes, m) <= chars_through(graphemes, n),
    decreases n,
{
    if m < n {
        lemma_chars_through_grows(graphemes, m, n - 1);
    } else if m > 0 {
        lemma_chars_through_grows(graphemes, m - 1, n - 1);
    }
}

/// The character offset never goes back in the course of a pass.
pub proof fn lemma_char_pos_grows(
    r: Settings,
    soft_wrap: bool,
    graphemes: Seq<FormattedGrapheme>,
    start: PassState,
    j: int,
    k: int,
)
    requires
        0 <= j <= k <= graphemes.len(),
    ensures
        pass_after(r, soft_wrap, graphemes, start, j).cursor.char_pos <= pass_after(
            r,
            soft_wrap,
            graphemes,
            start,
            k,
        ).cursor.char_pos,
    decreases k,
{
    if j < k {
        lemma_char_pos_grows(r, soft_wrap, graphemes, start, j, k - 1);
    }
}

/// The character offset stays within what the graphemes taken so far
/// stand for, and a row that was opened starts at or before it.
pub proof fn lemma_row_starts_behind(
    r: Settings,
    soft_wrap: bool,
    graphemes: Seq<FormattedGrapheme>,
    start: PassState,
    k: int,
)
    requires
        0 <= k <= graphemes.len(),
        0 <= start.cursor.char_pos,
        start.cursor.char_pos + chars_through(graphemes, graphemes.len() as int) <= usize::MAX,
        start.cursor.last_line_pos == no_line(),
    ensures
        start.cursor.char_pos <= pass_after(r, soft_wrap, graphemes, start, k).cursor.char_pos
            <= start.cursor.char_pos + chars_through(graphemes, k),
        ({
            let c = pass_after(r, soft_wrap, graphemes, start, k).cursor;
            c.last_line_pos == no_line() || c.last_line_pos.start_char_idx <= c.char_pos
        }),
    decreases k,
{
    if k > 0 {
        lemma_row_starts_behind(r, soft_wrap, graphemes, start, k - 1);
        lemma_chars_through_grows(graphemes, k, graphemes.len() as int);
        lemma_chars_through_grows(graphemes, k - 1, k);
    }
}

/// The rows of a pass start at rising character offsets: a row that is
/// opened later in the pass does not start before one opened earlier.
pub proof fn lemma_rows_start_in_order(
    r: Settings,
    soft_wrap: bool,
    graphemes: Seq<FormattedGrapheme>,
    start: PassState,
    j: int,
    k: int,
)
    requires
        0 <= j <= k <= graphemes.len(),
        0 <= start.cursor.char_pos,
        start.cursor.char_pos + chars_through(graphemes, graphemes.len() as int) <= usize::MAX,
        start.cursor.last_line_pos == no_line(),
        pass_after(r, soft_wrap, graphemes, start, j).cursor.last_line_pos != no_line(),
    ensures
        pass_after(r, soft_wrap, graphemes, start, k).cursor.last_line_pos != no_line(),
        pass_after(r, soft_wrap, graphemes, start, j).cursor.last_line_pos.start_char_idx
            <= pass_after(r, soft_wrap, graphemes, start, k).cursor.last_line_pos.start_char_idx,
    decreases k,
{
    if j < k {
        lemma_rows_start_in_order(r, soft_wrap, graphemes, start, j, k - 1);
        lemma_row_starts_behind(r, soft_wrap, graphemes, start, k - 1);
        lemma_chars_through_grows(graphemes, k - 1, graphemes.len() as int);
        let before = pass_after(r, soft_wrap, graphemes, start, k - 1).cursor;
        assert(0 <= before.char_pos <= usize::MAX);
        assert(before.char_pos as usize == before.char_pos);
    }
}

/// A pass neither adds nor drops a request.
pub proof fn lemma_requests_stay(
    r: Settings,
    soft_wrap: bool,
    graphemes: Seq<FormattedGrapheme>,
    start: PassState,
    k: int,
)
    ensures
        pass_after(r, soft_wrap, graphemes, start, k).translated.len() == start.translated.len(),
    decreases k,
{
    if 0 < k <= graphemes.len() {
        lemma_requests_stay(r, soft_wrap, graphemes, start, k - 1);
    }
}

/// A request that was answered keeps its answer in the further course of
/// the pass.
pub proof fn lemma_answer_stays(
    r: Settings,
    soft_wrap: bool,
    graphemes: Seq<FormattedGrapheme>,
    start: PassState,
    j: int,
    k: int,
    i: int,
)
    requires
        0 <= j <= k <= graphemes.len(),
        0 <= i < start.translated.len(),
        pass_after(r, soft_wrap, graphemes, start, j).translated[i].reached,
    ensures
        pass_after(r, soft_wrap, graphemes, start, j).translated.len() == start.translated.len(),
        pass_after(r, soft_wrap, graphemes, start, k).translated.len() == start.translated.len(),
        pass_after(r, soft_wrap, graphemes, start, k).translated[i] == pass_after(
            r,
            soft_wrap,
            graphemes,
            start,
            j,
        ).translated[i],
    decreases k,
{
    lemma_requests_stay(r, soft_wrap, graphemes, start, j);
    lemma_requests_stay(r, soft_wrap, graphemes, start, k);
    if j < k {
        lemma_answer_stays(r, soft_wrap, graphemes, start, j, k - 1, i);
        lemma_requests_stay(r, soft_wrap, graphemes, start, k - 1);
    }
}

/// A request that was answered in the course of a pass has the same
/// answer when the pass ends: no request is answered twice.
pub proof fn lemma_answered_once(
    r: Settings,
    soft_wrap: bool,
    graphemes: Seq<FormattedGrapheme>,
    end_pos: Position,
    start: PassState,
    j: int,
    i: int,
)
    requires
        0 <= j <= graphemes.len(),
        0 <= i < start.translated.len(),
        pass_after(r, soft_wrap, graphemes, start, j).translated[i].reached,
    ensures
        pass_end(r, soft_wrap, graphemes, end_pos, start).translated.len()
            == start.translated.len(),
        pass_end(r, soft_wrap, graphemes, end_pos, start).translated[i] == pass_after(
            r,
            soft_wrap,
            graphemes,
            start,
            j,
        ).translated[i],
{
    lemma_answer_stays(r, soft_wrap, graphemes, start, j, graphemes.len() as int, i);
}

/// A copy of a grapheme.
fn copy_of(grapheme: &Grapheme) -> (r: Grapheme)
    ensures
        r == *grapheme,
{
    match grapheme {
        Grapheme::Newline => Grapheme::Newline,
        Grapheme::Tab { width } => Grapheme::Tab { width: *width },
        Grapheme::Other { g } => Grapheme::Other { g: g.clone() },
    }
}

impl<'a> Pass<'a> {
    /// The pass as a state, with what the renderer tracks and holds and
    /// with the requests.
    pub open spec fn state(
        &self,
        renderer: &TextRenderer,
        translated: Seq<TranslatedPosition>,
    ) -> PassState {
        PassState {
            cursor: self@,
            run: renderer.run(),
            translated,
            cells: renderer.cells(),
            done: false,
        }
    }

    /// Takes one grapheme in and does what is to be done for it: finishes
    /// the row before and opens a new one where the grapheme starts a row,
    /// answers the requests and draws the grapheme. Returns whether the
    /// pass goes on.
    ///
    /// The state afterwards is that of [`stepped`]; the cells are, where
    /// no decoration is given that may have drawn on them, and then every
    /// cell outside the viewport is as it was.
    pub fn step(
        &mut self,
        renderer: &mut TextRenderer,
        g: &FormattedGrapheme,
        text_fmt: &TextFormat,
        line_decorations: &mut [Box<dyn LineDecoration + '_>],
        translated_positions: &mut [TranslatedPosition],
    ) -> (more: bool)
        requires
            old(self).wf(),
            old(renderer).wf(),
            old(self).viewport_height == old(renderer).viewport.height,
            old(self).char_pos + g.chars() < usize::MAX,
        ensures
            final(self).wf(),
            final(self).viewport_height == old(self).viewport_height,
            *final(final(renderer).surface) == *final(old(renderer).surface),
            final(renderer).wf(),
            final(renderer).settings() == old(renderer).settings(),
            final(line_decorations)@.len() == old(line_decorations)@.len(),
            ({
                let next = stepped(
                    old(renderer).settings(),
                    text_fmt.soft_wrap,
                    old(self).state(old(renderer), old(translated_positions)@),
                    *g,
                );
                &&& more == !next.done
                &&& final(self)@ == next.cursor
                &&& final(renderer).run() == next.run
                &&& final(translated_positions)@ == next.translated
                &&& old(line_decorations)@.len() == 0 ==> final(renderer).cells() == next.cells
            }),
            old(line_decorations)@.len() == 0 ==> same_outside(
                old(renderer).settings().area,
                old(renderer).viewport,
                old(renderer).cells(),
                final(renderer).cells(),
            ),
    {
        let indent_level: usize = self.last_line_indent_level;
        match self.advance(g) {
            Step::Skip => true,
            Step::Stop => false,
            Step::Draw { finished, opened, start_char_idx, style, pos } => {
                if let Some(row) = finished {
                    renderer.draw_indent_guides(indent_level, row.visual_line);
                    render_foregrounds(renderer, line_decorations, row, start_char_idx);
                }
                if let Some(row) = opened {
                    render_backgrounds(renderer, line_decorations, row);
                }
                translate_positions(
                    self.char_pos,
                    self.first_visible_char_idx,
                    translated_positions,
                    text_fmt,
                    &*renderer,
                    pos,
                );
                renderer.draw_grapheme(
                    copy_of(&g.grapheme),
                    style,
                    g.is_virtual(),
                    &mut self.last_line_indent_level,
                    &mut self.is_in_indent_area,
                    pos,
                );
                true
            },
        }
    }

    /// Ends the pass: sees to the end of the text, where it has ended at
    /// `end_pos`, and finishes the last row with its indent guides and the
    /// decorations' foregrounds.
    ///
    /// The state afterwards is that of [`finished`]; the cells are, where
    /// no decoration is given that may have drawn on them, and then every
    /// cell outside the viewport is as it was.
    pub fn finish(
        &self,
        renderer: &mut TextRenderer,
        end_pos: Option<Position>,
        text_fmt: &TextFormat,
        line_decorations: &mut [Box<dyn LineDecoration + '_>],
        translated_positions: &mut [TranslatedPosition],
    )
        requires
            self.wf(),
            old(renderer).wf(),
            self.viewport_height == old(renderer).viewport.height,
            self.char_pos < usize::MAX,
        ensures
            *final(final(renderer).surface) == *final(old(renderer).surface),
            final(renderer).wf(),
            final(renderer).settings() == old(renderer).settings(),
            final(line_decorations)@.len() == old(line_decorations)@.len(),
            ({
                let end = finished(
                    old(renderer).settings(),
                    text_fmt.soft_wrap,
                    end_pos,
                    self.state(old(renderer), old(translated_positions)@),
                );
                &&& final(renderer).run() == end.run
                &&& final(translated_positions)@ == end.translated
                &&& old(line_decorations)@.len() == 0 ==> final(renderer).cells() == end.cells
            }),
            old(line_decorations)@.len() == 0 ==> same_outside(
                old(renderer).settings().area,
                old(renderer).viewport,
                old(renderer).cells(),
                final(renderer).cells(),
            ),
    {
        if let Some(end) = end_pos {
            if end.row >= self.row_off && end.col > 0 {
                translate_positions(
                    self.char_pos + 1,
                    self.first_visible_char_idx,
                    translated_positions,
                    text_fmt,
                    &*renderer,
                    Position { row: end.row - self.row_off, col: end.col - 1 },
                );
            }
        }
        renderer.draw_indent_guides(self.last_line_indent_level, self.last_line_pos.visual_line);
        render_foregrounds(renderer, line_decorations, self.last_line_pos, self.char_pos);
    }
}

} // verus!
