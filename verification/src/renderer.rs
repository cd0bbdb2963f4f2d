//! Drawing single graphemes and indent guides into the viewport.

use vstd::prelude::*;
use vstd::string::*;
use crate::geometry::{Position, Rect};
use crate::grapheme::{str_is_char, Grapheme};
use crate::highlight::Theme;
use crate::style::Style;
use crate::surface::{
    same_outside, set_stringn, set_style, string_written, style_applied, surface_area,
    surface_cells, surface_wf, Cell, Surface,
};
use crate::trailing_whitespace::{
    next_run, Glyphs, Run, TrailingWhitespaceTracker, WhitespaceKind, WhitespacePalette,
};

verus! {

/// How indent guides are shown.
#[derive(Clone, Debug, PartialEq, Eq)]
pub struct IndentGuides {
    pub render: bool,
    /// The glyph of a guide.
    pub character: String,
    /// The number of indent levels, counted from the left, that get none.
    pub skip_levels: u8,
}

/// What a document and the editor's configuration fix about the way the
/// document's text is shown.
#[derive(Clone, Debug, PartialEq, Eq)]
pub struct DocumentSettings {
    /// The number of columns of one indent level.
    pub indent_width: u16,
    pub indent_guides: IndentGuides,
    /// The glyphs of whitespace within a line.
    pub whitespace: WhitespacePalette,
    /// The glyphs of whitespace at the end of a line.
    pub trailing_whitespace: WhitespacePalette,
    /// Whether whitespace at the end of a line is shown as such.
    pub render_trailing_whitespace: bool,
}

/// The two layers of style that a grapheme is drawn in.
#[derive(Clone, Copy, Debug, PartialEq, Eq)]
pub struct GraphemeStyle {
    pub syntax_style: Style,
    pub overlay_style: Style,
}

/// The kind of whitespace that a grapheme is shown as.
pub open spec fn whitespace_kind(grapheme: Grapheme) -> WhitespaceKind {
    match grapheme {
        Grapheme::Tab { .. } => WhitespaceKind::Tab,
        Grapheme::Newline => WhitespaceKind::Newline,
        Grapheme::Other { g } => if g@ == seq![' '] {
            WhitespaceKind::Space
        } else if g@ == seq!['\u{00A0}'] {
            WhitespaceKind::NonBreakingSpace
        } else if g@ == seq!['\u{202F}'] {
            WhitespaceKind::NarrowNonBreakingSpace
        } else {
            WhitespaceKind::Other
        },
    }
}

/// The text that a grapheme is shown as. Whitespace of the document is
/// shown in its glyph, a tab in as many characters of the tab glyphs as it
/// is wide. Of inserted text, a tab is shown in the glyphs kept for it and
/// all other whitespace as a plain space. Everything else is shown as it
/// is.
pub open spec fn shown_as(glyphs: Glyphs, grapheme: Grapheme, is_virtual: bool) -> Seq<char> {
    match whitespace_kind(grapheme) {
        WhitespaceKind::Tab => {
            let tab = if is_virtual {
                glyphs.virtual_tab
            } else {
                glyphs.tab
            };
            let width = grapheme->width;
            tab.take(
                if width <= tab.len() {
                    width as int
                } else {
                    tab.len() as int
                },
            )
        },
        WhitespaceKind::Space => if is_virtual {
            seq![' ']
        } else {
            glyphs.space
        },
        WhitespaceKind::NonBreakingSpace => if is_virtual {
            seq![' ']
        } else {
            glyphs.nbsp
        },
        WhitespaceKind::NarrowNonBreakingSpace => if is_virtual {
            seq![' ']
        } else {
            glyphs.nnbsp
        },
        WhitespaceKind::Newline => if is_virtual {
            seq![' ']
        } else {
            glyphs.newline
        },
        WhitespaceKind::Other => grapheme->g@,
    }
}

/// The first indent level that gets a guide: the first one that starts at
/// or right of the left edge of the view, and beyond the levels to skip.
pub open spec fn first_guide(col_offset: int, indent_width: int, skip_levels: int) -> int {
    col_offset / indent_width + (if col_offset % indent_width != 0 {
        1int
    } else {
        0int
    }) + skip_levels
}

fn whitespace_kind_of(grapheme: &Grapheme) -> (r: WhitespaceKind)
    ensures
        r == whitespace_kind(*grapheme),
{
    match grapheme {
        Grapheme::Tab { .. } => WhitespaceKind::Tab,
        Grapheme::Newline => WhitespaceKind::Newline,
        Grapheme::Other { g } => {
            let s = g.as_str();
            if str_is_char(s, ' ') {
                WhitespaceKind::Space
            } else if str_is_char(s, '\u{00A0}') {
                WhitespaceKind::NonBreakingSpace
            } else if str_is_char(s, '\u{202F}') {
                WhitespaceKind::NarrowNonBreakingSpace
            } else {
                WhitespaceKind::Other
            }
        },
    }
}

/// The first `width` characters of `tab`, or all of it where it is shorter.
fn tab_prefix<'b>(tab: &'b str, width: usize) -> (r: &'b str)
    ensures
        r@ == tab@.take(if width <= tab@.len() {
            width as int
        } else {
            tab@.len() as int
        }),
{
    let n: usize = tab.unicode_len();
    let w: usize = if width <= n {
        width
    } else {
        n
    };
    let r = tab.substring_char(0, w);
    assert(tab@.subrange(0, w as int) =~= tab@.take(w as int));
    r
}

/// The text that a grapheme is shown as, given the glyphs of whitespace.
fn select_glyph<'b>(
    grapheme: &'b Grapheme,
    kind: WhitespaceKind,
    is_virtual: bool,
    space: &'b str,
    nbsp: &'b str,
    nnbsp: &'b str,
    tab: &'b str,
    virtual_tab: &'b str,
    newline: &'b str,
) -> (r: &'b str)
    requires
        kind == whitespace_kind(*grapheme),
    ensures
        r@ == shown_as(
            Glyphs {
                space: space@,
                nbsp: nbsp@,
                nnbsp: nnbsp@,
                tab: tab@,
                virtual_tab: virtual_tab@,
                newline: newline@,
            },
            *grapheme,
            is_virtual,
        ),
{
    match grapheme {
        Grapheme::Tab { width } => tab_prefix(
            if is_virtual {
                virtual_tab
            } else {
                tab
            },
            *width,
        ),
        Grapheme::Newline => if is_virtual {
            plain_space()
        } else {
            newline
        },
        Grapheme::Other { g } => match kind {
            WhitespaceKind::Space => if is_virtual {
                plain_space()
            } else {
                space
            },
            WhitespaceKind::NonBreakingSpace => if is_virtual {
                plain_space()
            } else {
                nbsp
            },
            WhitespaceKind::NarrowNonBreakingSpace => if is_virtual {
                plain_space()
            } else {
                nnbsp
            },
            _ => g.as_str(),
        },
    }
}

fn plain_space() -> (r: &'static str)
    ensures
        r@ == seq![' '],
{
    let r = " ";
    proof {
        reveal_strlit(" ");
    }
    assert(r@ =~= seq![' ']);
    r
}

/// A surface to draw on, the part of it to fill, and all that fixes how
/// text is drawn there.
#[derive(Debug)]
pub struct TextRenderer<'a> {
    pub surface: &'a mut Surface,
    pub text_style: Style,
    pub whitespace_style: Style,
    pub trailing_whitespace_style: Style,
    pub indent_guide_char: String,
    pub indent_guide_style: Style,
    pub newline: String,
    pub nbsp: String,
    pub nnbsp: String,
    pub space: String,
    pub tab: String,
    pub virtual_tab: String,
    pub indent_width: u16,
    pub starting_indent: usize,
    pub draw_indent_guides: bool,
    pub col_offset: usize,
    pub viewport: Rect,
    pub trailing_whitespace_tracker: TrailingWhitespaceTracker,
}

/// All that fixes how text is drawn, as contracts speak of it.
pub struct Settings {
    /// The rectangle of the screen that the surface covers.
    pub area: Rect,
    /// The part of the surface to draw in.
    pub viewport: Rect,
    /// The number of columns of the text that are scrolled away on the left.
    pub col_offset: usize,
    pub text_style: Style,
    pub whitespace_style: Style,
    pub trailing_whitespace_style: Style,
    pub indent_guide_char: Seq<char>,
    pub indent_guide_style: Style,
    /// The glyphs of whitespace within a line.
    pub whitespace: Glyphs,
    pub indent_width: u16,
    /// The first indent level that gets a guide.
    pub starting_indent: usize,
    pub draw_indent_guides: bool,
    /// Whether whitespace at the end of a line is shown as such.
    pub track_trailing: bool,
    /// The glyphs of whitespace at the end of a line.
    pub trailing_whitespace: Glyphs,
}

impl Settings {
    /// Whether a grapheme that starts at column `col` of the text starts
    /// within the columns that the viewport shows.
    pub open spec fn in_view(self, col: usize) -> bool {
        self.col_offset <= col < self.col_offset + self.viewport.width
    }

    /// Whether column `col` of the text is the last one that the viewport
    /// shows.
    pub open spec fn at_right_edge(self, col: usize) -> bool {
        col == self.col_offset + self.viewport.width - 1
    }

    /// The style that a grapheme is drawn in: the syntax layer, under the
    /// whitespace style if the grapheme is whitespace, under the overlay.
    pub open spec fn composed_style(self, grapheme: Grapheme, style: GraphemeStyle) -> Style {
        let base = if grapheme.whitespace() {
            style.syntax_style.patched(self.whitespace_style)
        } else {
            style.syntax_style
        };
        base.patched(style.overlay_style)
    }

    /// The text that a grapheme is shown as: see [`shown_as`].
    pub open spec fn glyph(self, grapheme: Grapheme, is_virtual: bool) -> Seq<char> {
        shown_as(self.whitespace, grapheme, is_virtual)
    }

    /// The tracked run after a grapheme was drawn at `position`. A
    /// grapheme that starts outside the view leaves the run alone. One
    /// inside is noted, and the run is painted and forgotten at a line end
    /// and in the last column of the view.
    pub open spec fn run_after_grapheme(
        self,
        run: Option<Run>,
        grapheme: Grapheme,
        position: Position,
    ) -> Option<Run> {
        if self.in_view(position.col) {
            let kind = whitespace_kind(grapheme);
            if (self.track_trailing && kind is Newline) || self.at_right_edge(position.col) {
                None
            } else {
                next_run(
                    self.track_trailing,
                    self.trailing_whitespace,
                    run,
                    (position.col - self.col_offset) as usize,
                    kind,
                )
            }
        } else {
            run
        }
    }

    /// The cells after a grapheme was drawn at `position` onto `cells`,
    /// with `run` the tracked run of trailing whitespace.
    ///
    /// A grapheme that starts in the view is written with its glyph and
    /// style at its column less the scroll offset, as far as the columns
    /// of the viewport reach. If it is a line end, or
    /// stands in the last column of the view, the run that it ends, itself
    /// included, is written again in its trailing glyphs, with the
    /// trailing-whitespace style laid over the style that each cell has. A grapheme
    /// that starts left of the view and reaches into it has its style
    /// applied to the columns that it covers in the view, and no text
    /// written. Any other grapheme leaves the cells alone.
    pub open spec fn grapheme_drawn(
        self,
        cells: Seq<Cell>,
        run: Option<Run>,
        grapheme: Grapheme,
        grapheme_style: GraphemeStyle,
        is_virtual: bool,
        position: Position,
    ) -> Seq<Cell> {
        let area = self.area;
        let style = self.composed_style(grapheme, grapheme_style);
        let y = (self.viewport.y + position.row) as u16;
        if self.in_view(position.col) {
            let col = (position.col - self.col_offset) as usize;
            let kind = whitespace_kind(grapheme);
            let written = string_written(
                cells,
                area,
                (self.viewport.x + col) as u16,
                y,
                self.glyph(grapheme, is_virtual),
                (self.viewport.width - col) as usize,
                style,
            );
            if (self.track_trailing && kind is Newline) || self.at_right_edge(position.col) {
                match next_run(self.track_trailing, self.trailing_whitespace, run, col, kind) {
                    Some(run) => string_written(
                        written,
                        area,
                        (self.viewport.x + run.from) as u16,
                        y,
                        run.glyphs,
                        (self.viewport.width - run.from) as usize,
                        self.trailing_whitespace_style,
                    ),
                    None => written,
                }
            } else {
                written
            }
        } else if position.col < self.col_offset && self.col_offset - position.col
            < grapheme.columns() {
            let visible = grapheme.columns() - (self.col_offset - position.col);
            let width = if visible < self.viewport.width {
                visible as u16
            } else {
                self.viewport.width
            };
            style_applied(
                cells,
                area,
                Rect { x: self.viewport.x, y, width, height: 1 },
                style,
            )
        } else {
            cells
        }
    }

    /// The indent level before which the guides of a row end: guides stand
    /// left of the row's first visible text and within the view.
    pub open spec fn guide_end(self, indent_level: usize) -> int {
        let in_view = self.col_offset + self.viewport.width + (self.indent_width - 1);
        (if indent_level <= in_view {
            indent_level as int
        } else {
            in_view
        }) / (self.indent_width as int)
    }

    /// The cells after a guide was drawn into row `row` for each indent
    /// level from `from` up to, but without, `to`.
    pub open spec fn guides_drawn(self, cells: Seq<Cell>, row: u16, from: int, to: int) -> Seq<
        Cell,
    >
        decreases to - from,
    {
        if from >= to {
            cells
        } else {
            string_written(
                self.guides_drawn(cells, row, from, to - 1),
                self.area,
                (self.viewport.x + ((to - 1) * self.indent_width - self.col_offset)) as u16,
                (self.viewport.y + row) as u16,
                self.indent_guide_char,
                (self.viewport.width - ((to - 1) * self.indent_width - self.col_offset)) as usize,
                self.indent_guide_style,
            )
        }
    }

    /// The cells after the indent guides of a row were drawn: none where
    /// guides are switched off, else one for each indent level from
    /// `starting_indent` on that lies before the row's indent and in view.
    pub open spec fn indent_guides_drawn(self, cells: Seq<Cell>, indent_level: usize, row: u16) -> Seq<
        Cell,
    > {
        if self.draw_indent_guides {
            self.guides_drawn(cells, row, self.starting_indent as int, self.guide_end(indent_level))
        } else {
            cells
        }
    }
}

/// A grapheme that starts in the last column of the view is written there
/// with its glyph and style, into the one column that is left, under the
/// trailing run that it may end. One that starts in the column after that
/// leaves every cell as it was.
pub proof fn lemma_right_edge_clipping(
    r: Settings,
    cells: Seq<Cell>,
    run: Option<Run>,
    grapheme: Grapheme,
    grapheme_style: GraphemeStyle,
    is_virtual: bool,
    row: usize,
)
    requires
        r.viewport.width > 0,
        r.col_offset + r.viewport.width <= usize::MAX,
    ensures
        ({
            let last = Position { row, col: (r.col_offset + r.viewport.width - 1) as usize };
            let style = r.composed_style(grapheme, grapheme_style);
            let y = (r.viewport.y + row) as u16;
            let written = string_written(
                cells,
                r.area,
                (r.viewport.x + r.viewport.width - 1) as u16,
                y,
                r.glyph(grapheme, is_virtual),
                1,
                style,
            );
            r.grapheme_drawn(cells, run, grapheme, grapheme_style, is_virtual, last) == match next_run(
                r.track_trailing,
                r.trailing_whitespace,
                run,
                (r.viewport.width - 1) as usize,
                whitespace_kind(grapheme),
            ) {
                Some(run) => string_written(
                    written,
                    r.area,
                    (r.viewport.x + run.from) as u16,
                    y,
                    run.glyphs,
                    (r.viewport.width - run.from) as usize,
                    r.trailing_whitespace_style,
                ),
                None => written,
            }
        }),
        r.grapheme_drawn(
            cells,
            run,
            grapheme,
            grapheme_style,
            is_virtual,
            Position { row, col: (r.col_offset + r.viewport.width) as usize },
        ) == cells,
{
}

/// The settings of a renderer made for a surface that covers `area`.
pub open spec fn settings_for(
    area: Rect,
    settings: DocumentSettings,
    theme: Theme,
    col_offset: usize,
    viewport: Rect,
) -> Settings {
    let first = first_guide(
        col_offset as int,
        settings.indent_width as int,
        settings.indent_guides.skip_levels as int,
    );
    Settings {
        area,
        viewport,
        col_offset,
        text_style: theme.text,
        whitespace_style: theme.whitespace,
        trailing_whitespace_style: theme.trailing_whitespace,
        indent_guide_char: settings.indent_guides.character@,
        indent_guide_style: theme.indent_guide_style(),
        whitespace: settings.whitespace@,
        indent_width: settings.indent_width,
        starting_indent: if first <= usize::MAX {
            first as usize
        } else {
            usize::MAX
        },
        draw_indent_guides: settings.indent_guides.render,
        track_trailing: settings.render_trailing_whitespace,
        trailing_whitespace: settings.trailing_whitespace@,
    }
}

impl<'a> TextRenderer<'a> {
    /// The surface is well formed and holds the viewport, an indent level
    /// has a width, the first guide stands at or right of the view's left
    /// edge, and a tracked run of whitespace starts in the viewport.
    pub open spec fn wf(&self) -> bool {
        &&& surface_wf(*self.surface)
        &&& surface_area(*self.surface).encloses(self.viewport)
        &&& self.indent_width > 0
        &&& self.col_offset <= self.starting_indent * self.indent_width
        &&& match self.trailing_whitespace_tracker.run() {
            Some(run) => run.from < self.viewport.width,
            None => true,
        }
    }

    /// All that fixes how the renderer draws: everything but the cells of
    /// the surface and the tracked run of whitespace.
    pub open spec fn settings(&self) -> Settings {
        Settings {
            area: surface_area(*self.surface),
            viewport: self.viewport,
            col_offset: self.col_offset,
            text_style: self.text_style,
            whitespace_style: self.whitespace_style,
            trailing_whitespace_style: self.trailing_whitespace_style,
            indent_guide_char: self.indent_guide_char@,
            indent_guide_style: self.indent_guide_style,
            whitespace: Glyphs {
                space: self.space@,
                nbsp: self.nbsp@,
                nnbsp: self.nnbsp@,
                tab: self.tab@,
                virtual_tab: self.virtual_tab@,
                newline: self.newline@,
            },
            indent_width: self.indent_width,
            starting_indent: self.starting_indent,
            draw_indent_guides: self.draw_indent_guides,
            track_trailing: self.trailing_whitespace_tracker.enabled,
            trailing_whitespace: self.trailing_whitespace_tracker.palette@,
        }
    }

    /// The cells of the surface.
    pub open spec fn cells(&self) -> Seq<Cell> {
        surface_cells(*self.surface)
    }

    /// The tracked run of trailing whitespace.
    pub open spec fn run(&self) -> Option<Run> {
        self.trailing_whitespace_tracker.run()
    }

    /// A renderer that draws on `surface` within `viewport`, scrolled
    /// `col_offset` columns to the right, with the styles of `theme` and
    /// the glyphs of `settings`, and with no run of whitespace tracked.
    pub fn new(
        surface: &'a mut Surface,
        settings: DocumentSettings,
        theme: &Theme,
        col_offset: usize,
        viewport: Rect,
    ) -> (r: TextRenderer<'a>)
        requires
            settings.indent_width > 0,
        ensures
            *r.surface == *old(surface),
            *final(surface) == *final(r.surface),
            r.settings() == settings_for(
                surface_area(*old(surface)),
                settings,
                *theme,
                col_offset,
                viewport,
            ),
            r.run() is None,
            surface_wf(*old(surface)) && surface_area(*old(surface)).encloses(viewport) ==> r.wf(),
    {
        let text_style = theme.text;
        let indent_width: usize = settings.indent_width as usize;
        let whole: usize = col_offset / indent_width;
        let partial: usize = if col_offset % indent_width != 0 {
            1
        } else {
            0
        };
        let skip: usize = settings.indent_guides.skip_levels as usize;
        assert(whole + partial <= col_offset) by (nonlinear_arith)
            requires
                whole == col_offset as int / indent_width as int,
                partial == (if col_offset as int % indent_width as int != 0 {
                    1int
                } else {
                    0int
                }),
                indent_width > 0,
        ;
        let starting_indent: usize = if whole + partial > usize::MAX - skip {
            usize::MAX
        } else {
            whole + partial + skip
        };
        assert(col_offset <= starting_indent * indent_width) by (nonlinear_arith)
            requires
                starting_indent >= whole + partial,
                whole == col_offset as int / indent_width as int,
                partial == (if col_offset as int % indent_width as int != 0 {
                    1int
                } else {
                    0int
                }),
                indent_width > 0,
        ;
        let guide = match theme.indent_guide {
            Some(style) => style,
            None => theme.whitespace,
        };
        let tracker = TrailingWhitespaceTracker::new(
            settings.render_trailing_whitespace,
            settings.trailing_whitespace,
        );
        TextRenderer {
            surface,
            indent_guide_char: settings.indent_guides.character,
            newline: settings.whitespace.newline,
            nbsp: settings.whitespace.nbsp,
            nnbsp: settings.whitespace.nnbsp,
            space: settings.whitespace.space,
            tab: settings.whitespace.tab,
            virtual_tab: settings.whitespace.virtual_tab,
            whitespace_style: theme.whitespace,
            trailing_whitespace_style: theme.trailing_whitespace,
            indent_width: settings.indent_width,
            starting_indent,
            indent_guide_style: text_style.patch(guide),
            text_style,
            draw_indent_guides: settings.indent_guides.render,
            viewport,
            col_offset,
            trailing_whitespace_tracker: tracker,
        }
    }

    /// Draws one grapheme at `position`, a row of the viewport and a
    /// column of the text, and notes the row's indent at the first
    /// grapheme of the row that is not whitespace.
    pub fn draw_grapheme(
        &mut self,
        grapheme: Grapheme,
        grapheme_style: GraphemeStyle,
        is_virtual: bool,
        last_indent_level: &mut usize,
        is_in_indent_area: &mut bool,
        position: Position,
    )
        requires
            old(self).wf(),
            position.row < old(self).viewport.height,
        ensures
            *final(final(self).surface) == *final(old(self).surface),
            final(self).wf(),
            final(self).settings() == old(self).settings(),
            same_outside(
                old(self).settings().area,
                old(self).viewport,
                old(self).cells(),
                final(self).cells(),
            ),
            final(self).cells() == old(self).settings().grapheme_drawn(
                old(self).cells(),
                old(self).run(),
                grapheme,
                grapheme_style,
                is_virtual,
                position,
            ),
            final(self).run() == old(self).settings().run_after_grapheme(
                old(self).run(),
                grapheme,
                position,
            ),
            *final(last_indent_level) == if *old(is_in_indent_area) && !grapheme.whitespace() {
                position.col
            } else {
                *old(last_indent_level)
            },
            *final(is_in_indent_area) == (*old(is_in_indent_area) && grapheme.whitespace()),
    {
        let is_whitespace = grapheme.is_whitespace();
        let mut style = grapheme_style.syntax_style;
        if is_whitespace {
            style = style.patch(self.whitespace_style);
        }
        style = style.patch(grapheme_style.overlay_style);

        let width: usize = grapheme.width();
        let kind = whitespace_kind_of(&grapheme);
        let glyph = select_glyph(
            &grapheme,
            kind,
            is_virtual,
            self.space.as_str(),
            self.nbsp.as_str(),
            self.nnbsp.as_str(),
            self.tab.as_str(),
            self.virtual_tab.as_str(),
            self.newline.as_str(),
        );
        let y: u16 = self.viewport.y + position.row as u16;

        if self.col_offset <= position.col && position.col - self.col_offset
            < self.viewport.width as usize {
            let col: usize = position.col - self.col_offset;
            set_stringn(
                self.surface,
                self.viewport.x + col as u16,
                y,
                glyph,
                self.viewport.width as usize - col,
                style,
            );
            let ends_run = self.trailing_whitespace_tracker.track(col, kind);
            if ends_run || col + 1 == self.viewport.width as usize {
                match self.trailing_whitespace_tracker.render() {
                    Some((run, from)) => {
                        set_stringn(
                            self.surface,
                            self.viewport.x + from as u16,
                            y,
                            run.as_str(),
                            self.viewport.width as usize - from,
                            self.trailing_whitespace_style,
                        );
                    },
                    None => {},
                }
            }
        } else if position.col < self.col_offset && self.col_offset - position.col < width {
            let visible: usize = width - (self.col_offset - position.col);
            let shown: u16 = if visible < self.viewport.width as usize {
                visible as u16
            } else {
                self.viewport.width
            };
            set_style(
                self.surface,
                Rect { x: self.viewport.x, y, width: shown, height: 1 },
                style,
            );
        }
        if *is_in_indent_area && !is_whitespace {
            *last_indent_level = position.col;
            *is_in_indent_area = false;
        }
    }

    /// Draws the indent guides of a row over what the row shows.
    /// `indent_level` is the column at which the row's text starts.
    pub fn draw_indent_guides(&mut self, indent_level: usize, row: u16)
        requires
            old(self).wf(),
            row < old(self).viewport.height || !old(self).draw_indent_guides || old(
                self,
            ).settings().guide_end(indent_level) <= old(self).starting_indent,
        ensures
            *final(final(self).surface) == *final(old(self).surface),
            final(self).wf(),
            final(self).settings() == old(self).settings(),
            final(self).run() == old(self).run(),
            same_outside(
                old(self).settings().area,
                old(self).viewport,
                old(self).cells(),
                final(self).cells(),
            ),
            final(self).cells() == old(self).settings().indent_guides_drawn(
                old(self).cells(),
                indent_level,
                row,
            ),
    {
        if !self.draw_indent_guides {
            return ;
        }
        let indent_width: usize = self.indent_width as usize;
        let width: usize = self.viewport.width as usize + (indent_width - 1);
        let in_view: usize = if self.col_offset > usize::MAX - width {
            usize::MAX
        } else {
            self.col_offset + width
        };
        let end_indent: usize = (if indent_level <= in_view {
            indent_level
        } else {
            in_view
        }) / indent_width;
        assert(end_indent == self.settings().guide_end(indent_level));
        let mut i: usize = self.starting_indent;
        while i < end_indent
            invariant
                self.wf(),
                *final(self.surface) == *final(old(self).surface),
                self.settings() == old(self).settings(),
                self.run() == old(self).run(),
                old(self).starting_indent <= i,
                end_indent == old(self).settings().guide_end(indent_level),
                indent_width == old(self).indent_width,
                row < old(self).viewport.height || end_indent <= old(self).starting_indent,
                same_outside(
                    old(self).settings().area,
                    old(self).viewport,
                    old(self).cells(),
                    self.cells(),
                ),
                self.cells() == old(self).settings().guides_drawn(
                    old(self).cells(),
                    row,
                    old(self).starting_indent as int,
                    if i <= end_indent {
                        i as int
                    } else {
                        end_indent as int
                    },
                ),
            decreases end_indent - i,
        {
            assert(self.col_offset <= i * indent_width && i * indent_width - self.col_offset
                < self.viewport.width && i * indent_width <= usize::MAX) by (nonlinear_arith)
                requires
                    self.starting_indent <= i < end_indent,
                    self.col_offset <= self.starting_indent * indent_width,
                    end_indent == self.settings().guide_end(indent_level),
                    indent_width == self.indent_width,
                    indent_width > 0,
            ;
            let x: u16 = self.viewport.x + (i * indent_width - self.col_offset) as u16;
            let y: u16 = self.viewport.y + row;
            set_stringn(
                self.surface,
                x,
                y,
                self.indent_guide_char.as_str(),
                self.viewport.width as usize - (i * indent_width - self.col_offset),
                self.indent_guide_style,
            );
            i += 1;
        }
    }
}

} // verus!
