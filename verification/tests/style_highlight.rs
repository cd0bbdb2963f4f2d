use doc_render::highlight::{Highlight, HighlightEvent, StyleIter, StyleIterKind, StyleSpan, Theme};
use doc_render::style::Style;
use doc_render::text::byte_to_next_char;
use ropey::Rope;
use tui::style::{Color, Modifier};

fn theme_with(highlights: Vec<Style>) -> Theme {
    Theme {
        text: Style::new().fg(Color::White),
        whitespace: Style::new().fg(Color::DarkGray),
        trailing_whitespace: Style::new().bg(Color::Red),
        indent_guide: None,
        highlights,
    }
}

fn all_spans(iter: &mut StyleIter) -> Vec<StyleSpan> {
    let mut out = Vec::new();
    while let Some(span) = iter.next() {
        out.push(span);
    }
    out
}

#[test]
fn patch_overrides_only_what_is_set() {
    let base = Style::new().fg(Color::Red).bg(Color::Blue).add_modifier(Modifier::BOLD.bits());
    let over = Style::new().fg(Color::Green).remove_modifier(Modifier::BOLD.bits());
    let r = base.patch(over);
    assert_eq!(r.fg, Some(Color::Green));
    assert_eq!(r.bg, Some(Color::Blue));
    assert_eq!(r.add_modifier, 0);
    assert_eq!(r.sub_modifier, Modifier::BOLD.bits());
}

#[test]
fn patch_agrees_with_tui() {
    let a = tui::style::Style::default()
        .fg(Color::Red)
        .add_modifier(Modifier::BOLD | Modifier::ITALIC)
        .remove_modifier(Modifier::DIM);
    let b = tui::style::Style::default()
        .bg(Color::Blue)
        .add_modifier(Modifier::DIM)
        .remove_modifier(Modifier::ITALIC);
    let expected = a.patch(b);
    let mine = Style::new()
        .fg(Color::Red)
        .add_modifier((Modifier::BOLD | Modifier::ITALIC).bits())
        .remove_modifier(Modifier::DIM.bits())
        .patch(
            Style::new()
                .bg(Color::Blue)
                .add_modifier(Modifier::DIM.bits())
                .remove_modifier(Modifier::ITALIC.bits()),
        );
    assert_eq!(mine.fg, expected.fg);
    assert_eq!(mine.bg, expected.bg);
    assert_eq!(mine.add_modifier, expected.add_modifier.bits());
    assert_eq!(mine.sub_modifier, expected.sub_modifier.bits());
}

#[test]
fn patch_with_empty_style_is_identity() {
    let s = Style::new().fg(Color::Red).add_modifier(3).remove_modifier(4);
    assert_eq!(s.patch(Style::new()), s);
    assert_eq!(Style::default(), Style::new());
}

#[test]
fn theme_falls_back_for_unknown_highlight() {
    let theme = theme_with(vec![Style::new().fg(Color::Red)]);
    assert_eq!(theme.highlight(0), Style::new().fg(Color::Red));
    assert_eq!(theme.highlight(1), Style::new());
    assert_eq!(theme.highlight(usize::MAX), Style::new());
}

#[test]
fn byte_offsets_round_up_to_characters() {
    // 'a' 1 byte, 'é' 2 bytes, '漢' 3 bytes, '😀' 4 bytes
    let rope = Rope::from_str("aé漢😀");
    let text = rope.slice(..);
    let expected = [0usize, 1, 2, 2, 3, 3, 3, 4, 4, 4, 4];
    for (byte, want) in expected.iter().enumerate() {
        assert_eq!(byte_to_next_char(text, byte), *want, "byte {}", byte);
    }
    assert_eq!(byte_to_next_char(text, 11), 4);
    assert_eq!(byte_to_next_char(text, 1000), 4);
    assert_eq!(byte_to_next_char(text, usize::MAX), 4);
}

#[test]
fn byte_offsets_of_empty_text() {
    let rope = Rope::from_str("");
    assert_eq!(byte_to_next_char(rope.slice(..), 0), 0);
    assert_eq!(byte_to_next_char(rope.slice(..), 5), 0);
}

#[test]
fn nested_highlights_fold_outermost_first() {
    // outer span over [0,10) in S1, inner span over [2,5) in S2
    let s1 = Style::new().fg(Color::Red).bg(Color::Black);
    let s2 = Style::new().fg(Color::Green).add_modifier(Modifier::BOLD.bits());
    let theme = theme_with(vec![s1, s2]);
    let events = vec![
        HighlightEvent::HighlightStart(Highlight(0)),
        HighlightEvent::Source { start: 0, end: 2 },
        HighlightEvent::HighlightStart(Highlight(1)),
        HighlightEvent::Source { start: 2, end: 5 },
        HighlightEvent::HighlightEnd,
        HighlightEvent::Source { start: 5, end: 10 },
        HighlightEvent::HighlightEnd,
    ];
    let rope = Rope::from_str("0123456789");
    let base = Style::new();
    let mut iter = StyleIter::new(base, &events, StyleIterKind::Overlay, rope.slice(..), &theme);
    let spans = all_spans(&mut iter);
    assert_eq!(
        spans,
        vec![
            StyleSpan { style: s1, end: 2 },
            StyleSpan { style: s1.patch(s2), end: 5 },
            StyleSpan { style: s1, end: 10 },
        ]
    );
    assert_eq!(spans[1].style.fg, Some(Color::Green));
    assert_eq!(spans[1].style.bg, Some(Color::Black));
    assert_eq!(iter.next(), None);
}

#[test]
fn flat_stream_keeps_base_style() {
    let theme = theme_with(vec![Style::new().fg(Color::Red)]);
    let events = vec![
        HighlightEvent::Source { start: 0, end: 3 },
        HighlightEvent::Source { start: 3, end: 3 },
        HighlightEvent::Source { start: 3, end: 7 },
    ];
    let rope = Rope::from_str("0123456");
    let base = Style::new().fg(Color::Cyan);
    let mut iter = StyleIter::new(base, &events, StyleIterKind::BaseHighlights, rope.slice(..), &theme);
    let spans = all_spans(&mut iter);
    assert_eq!(
        spans,
        vec![StyleSpan { style: base, end: 3 }, StyleSpan { style: base, end: 7 }]
    );
}

#[test]
fn empty_source_ranges_are_skipped() {
    let theme = theme_with(vec![]);
    let events = vec![
        HighlightEvent::Source { start: 4, end: 4 },
        HighlightEvent::HighlightEnd,
        HighlightEvent::Source { start: 0, end: 0 },
    ];
    let rope = Rope::from_str("abcdef");
    let mut iter = StyleIter::new(Style::new(), &events, StyleIterKind::Overlay, rope.slice(..), &theme);
    assert_eq!(iter.next(), None);
    assert_eq!(iter.next(), None);
}

#[test]
fn syntax_spans_end_on_character_boundaries() {
    // "é漢a": bytes 0..2, 2..5, 5..6. The highlighter cuts inside both.
    let theme = theme_with(vec![Style::new().fg(Color::Red)]);
    let events = vec![
        HighlightEvent::Source { start: 0, end: 1 },
        HighlightEvent::HighlightStart(Highlight(0)),
        HighlightEvent::Source { start: 1, end: 3 },
        HighlightEvent::HighlightEnd,
        HighlightEvent::Source { start: 3, end: 6 },
    ];
    let rope = Rope::from_str("é漢a");
    let base = Style::new();
    let mut iter = StyleIter::new(base, &events, StyleIterKind::BaseHighlights, rope.slice(..), &theme);
    let spans = all_spans(&mut iter);
    let ends: Vec<usize> = spans.iter().map(|s| s.end).collect();
    assert_eq!(ends, vec![1, 2, 3]);
    assert_eq!(spans[1].style, Style::new().fg(Color::Red));
    // the same ranges counted in characters stay as they are
    let mut iter = StyleIter::new(base, &events, StyleIterKind::Overlay, rope.slice(..), &theme);
    let ends: Vec<usize> = all_spans(&mut iter).iter().map(|s| s.end).collect();
    assert_eq!(ends, vec![1, 3, 6]);
}

#[test]
fn unknown_highlight_leaves_style_alone() {
    let theme = theme_with(vec![]);
    let events = vec![
        HighlightEvent::HighlightStart(Highlight(7)),
        HighlightEvent::Source { start: 0, end: 2 },
    ];
    let rope = Rope::from_str("ab");
    let base = Style::new().fg(Color::Yellow);
    let mut iter = StyleIter::new(base, &events, StyleIterKind::Overlay, rope.slice(..), &theme);
    assert_eq!(iter.next(), Some(StyleSpan { style: base, end: 2 }));
}

#[test]
fn every_offset_is_covered_by_one_span() {
    // "aé漢😀b": characters start at bytes 0, 1, 3, 6, 10; 11 bytes in all
    let theme = theme_with(vec![Style::new().fg(Color::Red)]);
    let cuts = [2usize, 2, 4, 5, 7, 11];
    let mut events = Vec::new();
    let mut start = 0;
    for end in cuts {
        events.push(HighlightEvent::HighlightStart(Highlight(0)));
        events.push(HighlightEvent::Source { start, end });
        events.push(HighlightEvent::HighlightEnd);
        start = end;
    }
    let rope = Rope::from_str("aé漢😀b");
    let mut iter =
        StyleIter::new(Style::new(), &events, StyleIterKind::BaseHighlights, rope.slice(..), &theme);
    let spans = all_spans(&mut iter);
    let ends: Vec<usize> = spans.iter().map(|s| s.end).collect();
    assert_eq!(ends, vec![2, 3, 3, 4, 5]);
    for c in 0..5 {
        let covering: Vec<usize> = (0..spans.len())
            .filter(|&i| c < spans[i].end && (i == 0 || spans[i - 1].end <= c))
            .collect();
        assert_eq!(covering.len(), 1, "offset {}", c);
    }
    // no end lies before the byte offset that it was made from
    for (span, cut) in spans.iter().zip([2usize, 4, 5, 7, 11]) {
        assert!(rope.char_to_byte(span.end) >= cut);
    }
}

#[test]
fn the_cursor_reads_up_to_the_range_it_returns() {
    let theme = theme_with(vec![Style::new().fg(Color::Red), Style::new().bg(Color::Blue)]);
    let events = vec![
        HighlightEvent::HighlightStart(Highlight(0)),
        HighlightEvent::Source { start: 0, end: 0 },
        HighlightEvent::HighlightStart(Highlight(1)),
        HighlightEvent::Source { start: 0, end: 2 },
        HighlightEvent::HighlightEnd,
        HighlightEvent::HighlightEnd,
        HighlightEvent::HighlightEnd,
        HighlightEvent::Source { start: 2, end: 4 },
        HighlightEvent::HighlightStart(Highlight(1)),
    ];
    let rope = Rope::from_str("abcd");
    let mut iter = StyleIter::new(Style::new(), &events, StyleIterKind::Overlay, rope.slice(..), &theme);
    assert_eq!(iter.next_event, 0);
    assert!(iter.active_highlights.is_empty());
    assert!(iter.next().is_some());
    assert_eq!(iter.next_event, 4);
    assert_eq!(iter.active_highlights, vec![Highlight(0), Highlight(1)]);
    // closing more than was opened leaves the stack empty
    assert_eq!(iter.next(), Some(StyleSpan { style: Style::new(), end: 4 }));
    assert_eq!(iter.next_event, 8);
    assert!(iter.active_highlights.is_empty());
    // at the end all events are read
    assert_eq!(iter.next(), None);
    assert_eq!(iter.next_event, 9);
    assert_eq!(iter.active_highlights, vec![Highlight(1)]);
    assert_eq!(iter.next(), None);
    assert_eq!(iter.next_event, 9);
    // a cursor set beyond the events stays where it is
    iter.next_event = 12;
    assert_eq!(iter.next(), None);
    assert_eq!(iter.next_event, 12);
}
