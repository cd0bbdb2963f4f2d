//! Keeping track of the run of whitespace that a row may end with.

use vstd::prelude::*;
use vstd::string::*;

verus! {

/// The kind of whitespace that a grapheme is, if it is one that is shown
/// in a glyph of its own.
#[derive(Clone, Copy, Debug, PartialEq, Eq, Structural)]
pub enum WhitespaceKind {
    /// Not whitespace.
    Other,
    Space,
    NonBreakingSpace,
    NarrowNonBreakingSpace,
    Tab,
    Newline,
}

/// The glyphs that stand for each kind of whitespace.
#[derive(Clone, Debug, PartialEq, Eq)]
pub struct WhitespacePalette {
    pub space: String,
    pub nbsp: String,
    pub nnbsp: String,
    /// One glyph for each column of a full tab.
    pub tab: String,
    /// What a tab in inserted text is shown as.
    pub virtual_tab: String,
    pub newline: String,
}

/// The glyphs of a palette as contracts speak of them.
pub struct Glyphs {
    pub space: Seq<char>,
    pub nbsp: Seq<char>,
    pub nnbsp: Seq<char>,
    pub tab: Seq<char>,
    pub virtual_tab: Seq<char>,
    pub newline: Seq<char>,
}

impl View for WhitespacePalette {
    type V = Glyphs;

    open spec fn view(&self) -> Glyphs {
        Glyphs {
            space: self.space@,
            nbsp: self.nbsp@,
            nnbsp: self.nnbsp@,
            tab: self.tab@,
            virtual_tab: self.virtual_tab@,
            newline: self.newline@,
        }
    }
}

impl Glyphs {
    /// What a whitespace of the given kind adds to a trailing run. A line
    /// end adds nothing: it ends the run.
    pub open spec fn glyph(self, kind: WhitespaceKind) -> Seq<char> {
        match kind {
            WhitespaceKind::Space => self.space,
            WhitespaceKind::NonBreakingSpace => self.nbsp,
            WhitespaceKind::NarrowNonBreakingSpace => self.nnbsp,
            WhitespaceKind::Tab => self.tab,
            WhitespaceKind::Newline | WhitespaceKind::Other => Seq::empty(),
        }
    }
}

/// A run of whitespace that nothing has followed yet.
pub struct Run {
    /// The column of the viewport at which the run starts.
    pub from: usize,
    /// The glyphs to show the run in.
    pub glyphs: Seq<char>,
}

/// The run after a grapheme of the given kind was drawn at column `from`.
/// Anything but whitespace ends the run without a trace, and so does
/// everything while tracking is off. A line end leaves the run as it is.
/// Other whitespace starts a run at its column or makes the run longer by
/// its glyph.
pub open spec fn next_run(
    enabled: bool,
    palette: Glyphs,
    run: Option<Run>,
    from: usize,
    kind: WhitespaceKind,
) -> Option<Run> {
    if !enabled || kind is Other {
        None
    } else if kind is Newline {
        run
    } else {
        match run {
            Some(run) => Some(Run { from: run.from, glyphs: run.glyphs + palette.glyph(kind) }),
            None => Some(Run { from, glyphs: palette.glyph(kind) }),
        }
    }
}

/// The run of whitespace that the row drawn so far ends with.
#[derive(Debug)]
pub struct TrailingWhitespaceTracker {
    pub enabled: bool,
    pub palette: WhitespacePalette,
    pub tracking: bool,
    pub tracking_from: usize,
    pub tracking_content: String,
}

impl TrailingWhitespaceTracker {
    /// The run that is being tracked, if any.
    pub open spec fn run(&self) -> Option<Run> {
        if self.tracking {
            Some(Run { from: self.tracking_from, glyphs: self.tracking_content@ })
        } else {
            None
        }
    }

    /// The run after a grapheme of the given kind was drawn at column
    /// `from`: see [`next_run`].
    pub open spec fn run_after(&self, from: usize, kind: WhitespaceKind) -> Option<Run> {
        next_run(self.enabled, self.palette@, self.run(), from, kind)
    }

    /// Whether the run must be painted after a grapheme of the given kind:
    /// at a line end, while tracking is on.
    pub open spec fn ends_run(&self, kind: WhitespaceKind) -> bool {
        self.enabled && kind is Newline
    }

    pub fn new(enabled: bool, palette: WhitespacePalette) -> (r: TrailingWhitespaceTracker)
        ensures
            r.enabled == enabled,
            r.palette == palette,
            r.run() is None,
    {
        TrailingWhitespaceTracker {
            enabled,
            palette,
            tracking: false,
            tracking_from: 0,
            tracking_content: String::new(),
        }
    }

    /// Takes note of a grapheme of the given kind drawn at column `from`
    /// of the viewport, and says whether the run is to be painted now.
    pub fn track(&mut self, from: usize, kind: WhitespaceKind) -> (r: bool)
        ensures
            final(self).enabled == old(self).enabled,
            final(self).palette == old(self).palette,
            final(self).run() == old(self).run_after(from, kind),
            r == old(self).ends_run(kind),
    {
        if !self.enabled {
            self.clear();
            return false;
        }
        match kind {
            WhitespaceKind::Other => {
                self.clear();
                false
            },
            WhitespaceKind::Newline => true,
            WhitespaceKind::Space => {
                self.start(from);
                self.tracking_content.append(self.palette.space.as_str());
                false
            },
            WhitespaceKind::NonBreakingSpace => {
                self.start(from);
                self.tracking_content.append(self.palette.nbsp.as_str());
                false
            },
            WhitespaceKind::NarrowNonBreakingSpace => {
                self.start(from);
                self.tracking_content.append(self.palette.nnbsp.as_str());
                false
            },
            WhitespaceKind::Tab => {
                self.start(from);
                self.tracking_content.append(self.palette.tab.as_str());
                false
            },
        }
    }

    /// Hands out the run to paint, if there is one, and forgets it.
    pub fn render(&mut self) -> (r: Option<(String, usize)>)
        ensures
            final(self).enabled == old(self).enabled,
            final(self).palette == old(self).palette,
            final(self).run() is None,
            match r {
                Some((glyphs, from)) => old(self).run() == Some(Run { from, glyphs: glyphs@ }),
                None => old(self).run() is None,
            },
    {
        if self.tracking {
            let glyphs = self.tracking_content.clone();
            let from: usize = self.tracking_from;
            self.clear();
            Some((glyphs, from))
        } else {
            None
        }
    }

    fn clear(&mut self)
        ensures
            final(self).enabled == old(self).enabled,
            final(self).palette == old(self).palette,
            final(self).run() is None,
    {
        self.tracking = false;
        self.tracking_content = String::new();
    }

    fn start(&mut self, from: usize)
        ensures
            final(self).enabled == old(self).enabled,
            final(self).palette == old(self).palette,
            final(self).tracking,
            final(self).tracking_from == if old(self).tracking {
                old(self).tracking_from
            } else {
                from
            },
            final(self).tracking_content@ == if old(self).tracking {
                old(self).tracking_content@
            } else {
                Seq::<char>::empty()
            },
    {
        if !self.tracking {
            self.tracking = true;
            self.tracking_from = from;
            self.tracking_content = String::new();
        }
    }
}

} // verus!
