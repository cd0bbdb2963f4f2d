//! Styles of terminal cells and the way two of them combine.

use vstd::prelude::*;

verus! {

/// `tui::style::Color`, carried through unread.
#[verifier::external_type_specification]
#[verifier::external_body]
pub struct ExColor(tui::style::Color);

/// The modifier bits that a terminal cell can show.
pub const MODIFIER_MASK: u16 = 0x01ff;

/// A change to the look of a cell: each colour is either set or left alone,
/// and each modifier bit is added, removed or left alone.
#[derive(Clone, Copy, Debug, PartialEq, Eq)]
pub struct Style {
    pub fg: Option<tui::style::Color>,
    pub bg: Option<tui::style::Color>,
    pub add_modifier: u16,
    pub sub_modifier: u16,
}

impl Style {
    /// The style that changes nothing.
    pub open spec fn empty() -> Style {
        Style { fg: None, bg: None, add_modifier: 0, sub_modifier: 0 }
    }

    /// `self` with `other` laid over it: what `other` sets wins, the rest stays.
    pub open spec fn patched(self, other: Style) -> Style {
        Style {
            fg: if other.fg.is_some() { other.fg } else { self.fg },
            bg: if other.bg.is_some() { other.bg } else { self.bg },
            add_modifier: (self.add_modifier & !other.sub_modifier) | other.add_modifier,
            sub_modifier: (self.sub_modifier & !other.add_modifier) | other.sub_modifier,
        }
    }

    pub fn new() -> (r: Style)
        ensures
            r == Style::empty(),
    {
        Style { fg: None, bg: None, add_modifier: 0, sub_modifier: 0 }
    }

    pub fn fg(self, color: tui::style::Color) -> (r: Style)
        ensures
            r == (Style { fg: Some(color), ..self }),
    {
        Style { fg: Some(color), bg: self.bg, add_modifier: self.add_modifier, sub_modifier: self.sub_modifier }
    }

    pub fn bg(self, color: tui::style::Color) -> (r: Style)
        ensures
            r == (Style { bg: Some(color), ..self }),
    {
        Style { fg: self.fg, bg: Some(color), add_modifier: self.add_modifier, sub_modifier: self.sub_modifier }
    }

    /// Adds the bits of `modifier` and stops removing them.
    pub fn add_modifier(self, modifier: u16) -> (r: Style)
        ensures
            r == (Style {
                add_modifier: self.add_modifier | modifier,
                sub_modifier: self.sub_modifier & !modifier,
                ..self
            }),
    {
        Style {
            fg: self.fg,
            bg: self.bg,
            add_modifier: self.add_modifier | modifier,
            sub_modifier: self.sub_modifier & !modifier,
        }
    }

    /// Removes the bits of `modifier` and stops adding them.
    pub fn remove_modifier(self, modifier: u16) -> (r: Style)
        ensures
            r == (Style {
                add_modifier: self.add_modifier & !modifier,
                sub_modifier: self.sub_modifier | modifier,
                ..self
            }),
    {
        Style {
            fg: self.fg,
            bg: self.bg,
            add_modifier: self.add_modifier & !modifier,
            sub_modifier: self.sub_modifier | modifier,
        }
    }

    /// Lays `other` over `self`.
    pub fn patch(self, other: Style) -> (r: Style)
        ensures
            r == self.patched(other),
    {
        Style {
            fg: match other.fg {
                Some(c) => Some(c),
                None => self.fg,
            },
            bg: match other.bg {
                Some(c) => Some(c),
                None => self.bg,
            },
            add_modifier: (self.add_modifier & !other.sub_modifier) | other.add_modifier,
            sub_modifier: (self.sub_modifier & !other.add_modifier) | other.sub_modifier,
        }
    }
}

impl Default for Style {
    fn default() -> (r: Style)
        ensures
            r == Style::empty(),
    {
        Style::new()
    }
}

/// Laying the empty style over a style changes nothing.
pub proof fn lemma_patch_empty(s: Style)
    ensures
        s.patched(Style::empty()) == s,
{
    let a = s.add_modifier;
    let b = s.sub_modifier;
    assert((a & !0u16) | 0u16 == a) by (bit_vector);
    assert((b & !0u16) | 0u16 == b) by (bit_vector);
}

} // verus!
