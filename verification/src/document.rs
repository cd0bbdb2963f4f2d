//! Drawing a document's text into a viewport.
//!
//! The text comes laid out, as a list of graphemes with their places. One
//! [`Pass`] over them draws those that the viewport shows, each in the
//! style of the highlight spans that cover its character offset, between
//! the decorations of its row.

use vstd::prelude::*;
use crate::decoration::LineDecoration;
use crate::geometry::{Position, Rect, TextFormat, ViewPosition};
use crate::grapheme::FormattedGrapheme;
use crate::highlight::{HighlightEvent, Theme};
use crate::pass::{
    chars_through, cursor_at_start, lemma_chars_through_grows, lemma_done_stays, pass_after,
    pass_end, stepped, Pass, PassState,
};
use crate::renderer::{settings_for, DocumentSettings, TextRenderer};
use crate::style::Style;
use crate::surface::{
    fits, same_outside, surface_area, surface_cells, surface_wf, Cell, Surface,
};
use crate::text::rope_chars;
use crate::trailing_whitespace::Run;
use crate::translate::TranslatedPosition;

verus! {

/// The graphemes of a stretch of text as they were laid out, from a point
/// at or before the view's anchor on.
#[derive(Clone, Debug, PartialEq, Eq)]
pub struct TextLayout {
    pub graphemes: Vec<FormattedGrapheme>,
    /// The visual position right after the last grapheme.
    pub end_pos: Position,
    /// The character offset of the first grapheme.
    pub start_char_idx: usize,
    /// The visual row of the view's anchor.
    pub anchor_row: usize,
}

impl TextLayout {
    /// The visual row that the top row of the viewport shows.
    pub open spec fn row_off(&self, offset: ViewPosition) -> int {
        self.anchor_row + offset.vertical_offset
    }

    /// Whether the top row and every character offset of the layout,
    /// and the offset after the last, can be counted.
    pub open spec fn countable(&self, offset: ViewPosition) -> bool {
        &&& self.row_off(offset) <= usize::MAX
        &&& self.start_char_idx + chars_through(self.graphemes@, self.graphemes@.len() as int)
            < usize::MAX
    }

    /// Checks [`TextLayout::countable`].
    pub fn is_countable(&self, offset: ViewPosition) -> (r: bool)
        ensures
            r == self.countable(offset),
    {
        if self.anchor_row > usize::MAX - offset.vertical_offset {
            return false;
        }
        let n: usize = self.graphemes.len();
        let mut total: usize = self.start_char_idx;
        let mut i: usize = 0;
        while i < n
            invariant
                i <= n,
                n == self.graphemes@.len(),
                total == self.start_char_idx + chars_through(self.graphemes@, i as int),
            decreases n - i,
        {
            let add: usize = self.graphemes[i].doc_chars();
            if add > usize::MAX - total {
                proof {
                    lemma_chars_through_grows(self.graphemes@, i + 1, n as int);
                }
                return false;
            }
            total = total + add;
            i += 1;
        }
        total < usize::MAX
    }
}

/// The state in which a pass over `layout` starts.
pub open spec fn pass_start(
    text_style: Style,
    viewport_height: u16,
    chars: Seq<char>,
    layout: TextLayout,
    offset: ViewPosition,
    syntax_highlights: Seq<HighlightEvent>,
    overlay_highlights: Seq<HighlightEvent>,
    theme: Theme,
    run: Option<Run>,
    translated: Seq<TranslatedPosition>,
    cells: Seq<Cell>,
) -> PassState {
    PassState {
        cursor: cursor_at_start(
            text_style,
            chars,
            layout.start_char_idx,
            layout.row_off(offset) as usize,
            viewport_height,
            syntax_highlights,
            overlay_highlights,
            theme,
        ),
        run,
        translated,
        cells,
        done: false,
    }
}

/// Draws the text of `layout` into the renderer's viewport.
///
/// What the renderer tracks, and what is reported for the requested
/// positions, is that of [`pass_end`]. So are the cells of the surface
/// where no decoration is given, and then every cell outside the viewport
/// is as it was; a decoration may draw whatever it likes.
pub fn render_text(
    renderer: &mut TextRenderer,
    text: ropey::RopeSlice,
    layout: &TextLayout,
    offset: ViewPosition,
    text_fmt: &TextFormat,
    syntax_highlights: &[HighlightEvent],
    overlay_highlights: &[HighlightEvent],
    theme: &Theme,
    line_decorations: &mut [Box<dyn LineDecoration + '_>],
    translated_positions: &mut [TranslatedPosition],
)
    requires
        old(renderer).wf(),
        layout.countable(offset),
    ensures
        *final(final(renderer).surface) == *final(old(renderer).surface),
        final(renderer).wf(),
        final(renderer).settings() == old(renderer).settings(),
        final(line_decorations)@.len() == old(line_decorations)@.len(),
        ({
            let end = pass_end(
                old(renderer).settings(),
                text_fmt.soft_wrap,
                layout.graphemes@,
                layout.end_pos,
                pass_start(
                    old(renderer).text_style,
                    old(renderer).viewport.height,
                    rope_chars(text),
                    *layout,
                    offset,
                    syntax_highlights@,
                    overlay_highlights@,
                    *theme,
                    old(renderer).run(),
                    old(translated_positions)@,
                    old(renderer).cells(),
                ),
            );
            &&& final(translated_positions)@ == end.translated
            &&& final(renderer).run() == end.run
            &&& old(line_decorations)@.len() == 0 ==> final(renderer).cells() == end.cells
        }),
        old(line_decorations)@.len() == 0 ==> same_outside(
            old(renderer).settings().area,
            old(renderer).viewport,
            old(renderer).cells(),
            final(renderer).cells(),
        ),
{
    let ghost r = renderer.settings();
    let ghost plain = line_decorations@.len() == 0;
    let mut pass = Pass::new(
        renderer.text_style,
        text,
        layout.start_char_idx,
        layout.anchor_row + offset.vertical_offset,
        renderer.viewport.height,
        syntax_highlights,
        overlay_highlights,
        theme,
    );
    let ghost start = pass.state(&*renderer, translated_positions@);
    let ghost mut s = start;
    let n: usize = layout.graphemes.len();
    let mut k: usize = 0;
    let mut more = true;
    while k < n && more
        invariant
            k <= n,
            n == layout.graphemes@.len(),
            layout.start_char_idx + chars_through(layout.graphemes@, n as int) < usize::MAX,
            line_decorations@.len() == old(line_decorations)@.len(),
            plain == (old(line_decorations)@.len() == 0),
            *final(renderer.surface) == *final(old(renderer).surface),
            renderer.wf(),
            renderer.settings() == r,
            pass.wf(),
            pass.viewport_height == renderer.viewport.height,
            s == pass_after(r, text_fmt.soft_wrap, layout.graphemes@, start, k as int),
            s.done == !more,
            s.cursor == pass@,
            s.run == renderer.run(),
            s.translated == translated_positions@,
            plain ==> s.cells == renderer.cells(),
            plain ==> same_outside(r.area, r.viewport, old(renderer).cells(), renderer.cells()),
            pass.char_pos <= layout.start_char_idx + chars_through(layout.graphemes@, k as int),
        decreases n - k,
    {
        let g = &layout.graphemes[k];
        proof {
            lemma_chars_through_grows(layout.graphemes@, k as int + 1, n as int);
            lemma_chars_through_grows(layout.graphemes@, k as int, k as int + 1);
            s = stepped(r, text_fmt.soft_wrap, s, *g);
        }
        more = pass.step(renderer, g, text_fmt, line_decorations, translated_positions);
        k += 1;
    }
    proof {
        lemma_chars_through_grows(layout.graphemes@, k as int, n as int);
        if !more {
            lemma_done_stays(r, text_fmt.soft_wrap, layout.graphemes@, start, k as int, n as int);
        }
    }
    pass.finish(
        renderer,
        if more {
            Some(layout.end_pos)
        } else {
            None
        },
        text_fmt,
        line_decorations,
        translated_positions,
    );
}

/// Draws the text of a document into `viewport`, a part of `surface`,
/// scrolled as `offset` says.
///
/// Nothing is drawn, and `false` returned, where the surface is not well
/// formed or does not hold the viewport, where an indent level has no
/// width, or where the rows and characters of the layout cannot be
/// counted. Otherwise a renderer is made for the surface and the pass of
/// [`render_text`] run with it.
pub fn render_document(
    surface: &mut Surface,
    viewport: Rect,
    settings: DocumentSettings,
    text: ropey::RopeSlice,
    layout: &TextLayout,
    offset: ViewPosition,
    text_fmt: &TextFormat,
    syntax_highlights: &[HighlightEvent],
    overlay_highlights: &[HighlightEvent],
    theme: &Theme,
    line_decorations: &mut [Box<dyn LineDecoration + '_>],
    translated_positions: &mut [TranslatedPosition],
) -> (drawn: bool)
    ensures
        drawn == (surface_wf(*old(surface)) && surface_area(*old(surface)).encloses(viewport)
            && settings.indent_width > 0 && layout.countable(offset)),
        final(line_decorations)@.len() == old(line_decorations)@.len(),
        !drawn ==> *final(surface) == *old(surface) && final(translated_positions)@ == old(
            translated_positions,
        )@,
        drawn ==> ({
            let end = pass_end(
                settings_for(
                    surface_area(*old(surface)),
                    settings,
                    *theme,
                    offset.horizontal_offset,
                    viewport,
                ),
                text_fmt.soft_wrap,
                layout.graphemes@,
                layout.end_pos,
                pass_start(
                    theme.text,
                    viewport.height,
                    rope_chars(text),
                    *layout,
                    offset,
                    syntax_highlights@,
                    overlay_highlights@,
                    *theme,
                    None,
                    old(translated_positions)@,
                    surface_cells(*old(surface)),
                ),
            );
            &&& surface_wf(*final(surface))
            &&& surface_area(*final(surface)) == surface_area(*old(surface))
            &&& final(translated_positions)@ == end.translated
            &&& old(line_decorations)@.len() == 0 ==> surface_cells(*final(surface)) == end.cells
        }),
        drawn && old(line_decorations)@.len() == 0 ==> same_outside(
            surface_area(*old(surface)),
            viewport,
            surface_cells(*old(surface)),
            surface_cells(*final(surface)),
        ),
{
    if !fits(surface, viewport) || settings.indent_width == 0 || !layout.is_countable(offset) {
        return false;
    }
    let mut renderer = TextRenderer::new(
        surface,
        settings,
        theme,
        offset.horizontal_offset,
        viewport,
    );
    render_text(
        &mut renderer,
        text,
        layout,
        offset,
        text_fmt,
        syntax_highlights,
        overlay_highlights,
        theme,
        line_decorations,
        translated_positions,
    );
    true
}

} // verus!
