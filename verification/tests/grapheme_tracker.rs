use doc_render::geometry::Position;
use doc_render::grapheme::{
    all_whitespace, char_is_whitespace, str_is_char, FormattedGrapheme, Grapheme, GraphemeSource,
};
use doc_render::highlight::Highlight;
use doc_render::trailing_whitespace::{TrailingWhitespaceTracker, WhitespaceKind, WhitespacePalette};

fn palette() -> WhitespacePalette {
    WhitespacePalette {
        space: "·".to_string(),
        nbsp: "⍽".to_string(),
        nnbsp: "␣".to_string(),
        tab: "→   ".to_string(),
        virtual_tab: "    ".to_string(),
        newline: "⏎".to_string(),
    }
}

fn other(s: &str) -> Grapheme {
    Grapheme::Other { g: s.to_string() }
}

#[test]
fn whitespace_characters() {
    for c in ['\t', ' ', '\u{00A0}', '\u{180E}', '\u{202F}', '\u{205F}', '\u{3000}', '\u{FEFF}',
        '\u{2000}', '\u{2005}', '\u{200B}']
    {
        assert!(char_is_whitespace(c), "{:?}", c);
    }
    for c in ['a', '\n', '\u{1680}', '\u{200C}', '\u{1FFF}', '0'] {
        assert!(!char_is_whitespace(c), "{:?}", c);
    }
}

#[test]
fn whitespace_graphemes() {
    assert!(Grapheme::Newline.is_whitespace());
    assert!(Grapheme::Tab { width: 3 }.is_whitespace());
    assert!(other(" ").is_whitespace());
    assert!(other("\u{00A0}").is_whitespace());
    assert!(other("").is_whitespace());
    assert!(!other("a").is_whitespace());
    assert!(!other(" a").is_whitespace());
    assert!(all_whitespace(" \t\u{2003}"));
    assert!(!all_whitespace(" x "));
}

#[test]
fn grapheme_widths() {
    assert_eq!(Grapheme::Newline.width(), 1);
    assert_eq!(Grapheme::Tab { width: 7 }.width(), 7);
    assert_eq!(Grapheme::Tab { width: 0 }.width(), 0);
    assert_eq!(other("a").width(), 1);
    // ASCII control characters count as one column
    assert_eq!(other("\u{0007}").width(), 1);
    assert_eq!(other("漢").width(), 2);
    assert_eq!(other("é").width(), 1);
    // a zero-width character still takes a column
    assert_eq!(other("\u{200B}").width(), 1);
    assert_eq!(other("").width(), 1);
    assert_eq!(other("e\u{0301}").width(), 1);
}

#[test]
fn single_character_strings() {
    assert!(str_is_char(" ", ' '));
    assert!(!str_is_char("  ", ' '));
    assert!(!str_is_char("", ' '));
    assert!(str_is_char("\u{202F}", '\u{202F}'));
    assert!(!str_is_char("a", 'b'));
}

#[test]
fn document_characters_of_a_grapheme() {
    let g = FormattedGrapheme {
        grapheme: other("e\u{0301}"),
        source: GraphemeSource::Document { codepoints: 2 },
        doc_line: 0,
        visual_pos: Position::new(0, 0),
    };
    assert_eq!(g.doc_chars(), 2);
    assert!(!g.is_virtual());
    let v = FormattedGrapheme {
        grapheme: other("x"),
        source: GraphemeSource::VirtualText { highlight: Some(Highlight(1)) },
        doc_line: 0,
        visual_pos: Position::new(0, 1),
    };
    assert_eq!(v.doc_chars(), 0);
    assert!(v.is_virtual());
}

#[test]
fn tracker_collects_a_run_until_the_line_ends() {
    let mut t = TrailingWhitespaceTracker::new(true, palette());
    assert!(!t.track(0, WhitespaceKind::Other));
    assert!(!t.track(1, WhitespaceKind::Space));
    assert!(!t.track(2, WhitespaceKind::Tab));
    assert!(!t.track(6, WhitespaceKind::NonBreakingSpace));
    assert!(!t.track(7, WhitespaceKind::NarrowNonBreakingSpace));
    assert!(t.track(8, WhitespaceKind::Newline));
    assert_eq!(t.render(), Some(("·→   ⍽␣".to_string(), 1)));
    // the run is handed out once
    assert_eq!(t.render(), None);
}

#[test]
fn tracker_forgets_a_run_that_text_follows() {
    let mut t = TrailingWhitespaceTracker::new(true, palette());
    assert!(!t.track(0, WhitespaceKind::Space));
    assert!(!t.track(1, WhitespaceKind::Space));
    assert!(!t.track(2, WhitespaceKind::Other));
    assert_eq!(t.render(), None);
    assert!(!t.track(3, WhitespaceKind::Space));
    assert!(t.track(4, WhitespaceKind::Newline));
    assert_eq!(t.render(), Some(("·".to_string(), 3)));
}

#[test]
fn tracker_that_is_off_tracks_nothing() {
    let mut t = TrailingWhitespaceTracker::new(false, palette());
    assert!(!t.track(0, WhitespaceKind::Space));
    assert!(!t.track(1, WhitespaceKind::Newline));
    assert_eq!(t.render(), None);
}

#[test]
fn tracker_with_a_line_end_only_has_no_run() {
    let mut t = TrailingWhitespaceTracker::new(true, palette());
    assert!(t.track(0, WhitespaceKind::Newline));
    assert_eq!(t.render(), None);
}
