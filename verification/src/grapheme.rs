//! Graphemes as the layout hands them to the renderer.

use vstd::prelude::*;
use vstd::string::*;
use crate::geometry::Position;
use crate::highlight::Highlight;

verus! {

/// One user-perceived character of the laid-out text.
#[derive(Clone, Debug, PartialEq, Eq)]
pub enum Grapheme {
    Newline,
    /// A tab that reaches `width` columns, up to the next tab stop.
    Tab { width: usize },
    Other { g: String },
}

/// Where a grapheme comes from.
#[derive(Clone, Copy, Debug, PartialEq, Eq, Structural)]
pub enum GraphemeSource {
    /// From the document, where it takes up `codepoints` characters.
    Document { codepoints: u32 },
    /// Inserted for display only, with the highlight to show it in, if any.
    VirtualText { highlight: Option<Highlight> },
}

/// A grapheme with its place in the document and on the screen.
#[derive(Clone, Debug, PartialEq, Eq)]
pub struct FormattedGrapheme {
    pub grapheme: Grapheme,
    pub source: GraphemeSource,
    /// The document line that the grapheme belongs to.
    pub doc_line: usize,
    /// The visual row and column at which it starts, counted from the start
    /// of the layout.
    pub visual_pos: Position,
}

/// The number of columns that `unicode_width::UnicodeWidthStr::width` gives
/// to a string.
pub uninterp spec fn display_width(s: Seq<char>) -> nat;

/// Calls `UnicodeWidthStr::width` of the crate `unicode-width`: the number
/// of columns that the string takes when displayed.
#[verifier::external_body]
pub(crate) fn str_width(s: &str) -> (r: usize)
    ensures
        r == display_width(s@),
{
    unicode_width::UnicodeWidthStr::width(s)
}

/// Whether a character counts as whitespace.
pub open spec fn is_whitespace_char(c: char) -> bool {
    ||| c == '\u{0009}'
    ||| c == '\u{0020}'
    ||| c == '\u{00A0}'
    ||| c == '\u{180E}'
    ||| c == '\u{202F}'
    ||| c == '\u{205F}'
    ||| c == '\u{3000}'
    ||| c == '\u{FEFF}'
    ||| '\u{2000}' <= c <= '\u{200B}'
}

pub fn char_is_whitespace(c: char) -> (r: bool)
    ensures
        r == is_whitespace_char(c),
{
    c == '\u{0009}' || c == '\u{0020}' || c == '\u{00A0}' || c == '\u{180E}' || c == '\u{202F}'
        || c == '\u{205F}' || c == '\u{3000}' || c == '\u{FEFF}' || ('\u{2000}' <= c && c
        <= '\u{200B}')
}

/// Whether `s` is the one character `c`.
pub fn str_is_char(s: &str, c: char) -> (r: bool)
    ensures
        r == (s@ == seq![c]),
{
    if s.unicode_len() == 1 {
        let first = s.get_char(0);
        assert(first == c ==> s@ =~= seq![c]);
        first == c
    } else {
        false
    }
}

/// Whether every character of `s` is whitespace.
pub fn all_whitespace(s: &str) -> (r: bool)
    ensures
        r == forall|i: int| 0 <= i < s@.len() ==> is_whitespace_char(#[trigger] s@[i]),
{
    let n: usize = s.unicode_len();
    let mut i: usize = 0;
    while i < n
        invariant
            i <= n,
            n == s@.len(),
            forall|j: int| 0 <= j < i ==> is_whitespace_char(#[trigger] s@[j]),
        decreases n - i,
    {
        if !char_is_whitespace(s.get_char(i)) {
            return false;
        }
        i += 1;
    }
    true
}

impl Grapheme {
    /// Whether the grapheme is whitespace: a tab, a line end, or text made
    /// of whitespace characters only.
    pub open spec fn whitespace(self) -> bool {
        match self {
            Grapheme::Other { g } => forall|i: int|
                0 <= i < g@.len() ==> is_whitespace_char(#[trigger] g@[i]),
            _ => true,
        }
    }

    /// The number of columns that the grapheme takes: a tab its own width,
    /// a line end one, text that starts with an ASCII character one, and
    /// other text its Unicode width, but at least one.
    pub open spec fn columns(self) -> int {
        match self {
            Grapheme::Tab { width } => width as int,
            Grapheme::Newline => 1,
            Grapheme::Other { g } => if g@.len() > 0 && g@[0] as u32 <= 127 {
                1
            } else if display_width(g@) >= 1 {
                display_width(g@) as int
            } else {
                1
            },
        }
    }

    pub fn is_whitespace(&self) -> (r: bool)
        ensures
            r == self.whitespace(),
    {
        match self {
            Grapheme::Other { g } => all_whitespace(g.as_str()),
            _ => true,
        }
    }

    pub fn width(&self) -> (r: usize)
        ensures
            r == self.columns(),
    {
        match self {
            Grapheme::Tab { width } => *width,
            Grapheme::Newline => 1,
            Grapheme::Other { g } => {
                let s = g.as_str();
                if !s.is_empty() && s.get_char(0) as u32 <= 127 {
                    1
                } else {
                    let w: usize = str_width(s);
                    if w >= 1 {
                        w
                    } else {
                        1
                    }
                }
            },
        }
    }
}

impl FormattedGrapheme {
    /// The number of characters of the document that the grapheme stands
    /// for: none for inserted text.
    pub open spec fn chars(self) -> int {
        match self.source {
            GraphemeSource::Document { codepoints } => codepoints as int,
            GraphemeSource::VirtualText { .. } => 0,
        }
    }

    pub open spec fn virtual_text(self) -> bool {
        self.source is VirtualText
    }

    pub fn doc_chars(&self) -> (r: usize)
        ensures
            r == self.chars(),
    {
        match self.source {
            GraphemeSource::Document { codepoints } => codepoints as usize,
            GraphemeSource::VirtualText { .. } => 0,
        }
    }

    pub fn is_virtual(&self) -> (r: bool)
        ensures
            r == self.virtual_text(),
    {
        match self.source {
            GraphemeSource::Document { .. } => false,
            GraphemeSource::VirtualText { .. } => true,
        }
    }
}

} // verus!
