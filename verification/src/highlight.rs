//! Folding nested highlight events into flat spans of one style each.

use vstd::prelude::*;
use crate::style::Style;
use crate::text::{
    byte_len, byte_offset, byte_to_next_char, char_at_or_after_byte, lemma_char_at_or_after_byte,
    lemma_char_at_or_after_byte_monotonic, rope_chars,
};

verus! {

/// The index of a highlight in a theme.
#[derive(Clone, Copy, Debug, PartialEq, Eq, Structural)]
pub struct Highlight(pub usize);

/// One event of a highlighter's stream.
#[derive(Clone, Copy, Debug, PartialEq, Eq, Structural)]
pub enum HighlightEvent {
    /// A stretch of text under the highlights that are open.
    Source { start: usize, end: usize },
    /// Opens a highlight.
    HighlightStart(Highlight),
    /// Closes the highlight that was opened last.
    HighlightEnd,
}

/// The styles that a theme gives to the parts of a text view.
#[derive(Clone, Debug)]
pub struct Theme {
    /// Plain text.
    pub text: Style,
    /// Whitespace that is shown.
    pub whitespace: Style,
    /// Whitespace at the end of a line.
    pub trailing_whitespace: Style,
    /// Indent guides, where the theme has a style for them.
    pub indent_guide: Option<Style>,
    /// The style of each highlight, by its index.
    pub highlights: Vec<Style>,
}

impl Theme {
    /// The style of a highlight; the empty style for one that the theme
    /// does not know.
    pub open spec fn highlight_style(&self, highlight: Highlight) -> Style {
        if highlight.0 < self.highlights@.len() {
            self.highlights@[highlight.0 as int]
        } else {
            Style::empty()
        }
    }

    /// The style of the highlight with the given index.
    pub fn highlight(&self, index: usize) -> (r: Style)
        ensures
            r == self.highlight_style(Highlight(index)),
    {
        if index < self.highlights.len() {
            self.highlights[index]
        } else {
            Style::new()
        }
    }

    /// The style of indent guides laid over plain text: the theme's own
    /// style for them, or that of whitespace where it has none.
    pub open spec fn indent_guide_style(&self) -> Style {
        self.text.patched(
            match self.indent_guide {
                Some(s) => s,
                None => self.whitespace,
            },
        )
    }
}

/// In what unit a stream of highlight events counts.
#[derive(Clone, Copy, Debug, PartialEq, Eq, Structural)]
pub enum StyleIterKind {
    /// Syntax highlights: byte offsets, which may cut a character.
    BaseHighlights,
    /// Overlay highlights: character offsets.
    Overlay,
}

/// A stretch of text in one style, given by the character offset at which
/// it ends.
#[derive(Clone, Copy, Debug, PartialEq, Eq)]
pub struct StyleSpan {
    pub style: Style,
    /// The first character offset that the span does not cover.
    pub end: usize,
}

/// A span as contracts speak of it.
pub struct Span {
    pub style: Style,
    pub end: int,
}

impl View for StyleSpan {
    type V = Span;

    open spec fn view(&self) -> Span {
        Span { style: self.style, end: self.end as int }
    }
}

/// The style under a stack of open highlights: each one laid over those
/// opened before it, the first over `base`.
pub open spec fn stack_style(base: Style, stack: Seq<Highlight>, theme: Theme) -> Style
    decreases stack.len(),
{
    if stack.len() == 0 {
        base
    } else {
        stack_style(base, stack.drop_last(), theme).patched(theme.highlight_style(stack.last()))
    }
}

/// The character offset at which a source range that ends at `end` ends.
pub open spec fn span_end(kind: StyleIterKind, chars: Seq<char>, end: int) -> int {
    match kind {
        StyleIterKind::BaseHighlights => char_at_or_after_byte(chars, end),
        StyleIterKind::Overlay => end,
    }
}

/// The stack of open highlights after an event.
pub open spec fn stack_after(stack: Seq<Highlight>, event: HighlightEvent) -> Seq<Highlight> {
    match event {
        HighlightEvent::HighlightStart(h) => stack.push(h),
        HighlightEvent::HighlightEnd => if stack.len() > 0 {
            stack.drop_last()
        } else {
            stack
        },
        HighlightEvent::Source { .. } => stack,
    }
}

/// The spans that a stream of events yields, in order: one for each source
/// range that is not empty.
pub open spec fn spans(
    events: Seq<HighlightEvent>,
    stack: Seq<Highlight>,
    base: Style,
    kind: StyleIterKind,
    chars: Seq<char>,
    theme: Theme,
) -> Seq<Span>
    decreases events.len(),
{
    if events.len() == 0 {
        seq![]
    } else {
        let rest = spans(
            events.drop_first(),
            stack_after(stack, events[0]),
            base,
            kind,
            chars,
            theme,
        );
        match events[0] {
            HighlightEvent::Source { start, end } if start != end => seq![
                Span {
                    style: stack_style(base, stack, theme),
                    end: span_end(kind, chars, end as int),
                },
            ] + rest,
            _ => rest,
        }
    }
}

/// Whether an event yields a span: a source range that is not empty.
pub open spec fn yields_span(event: HighlightEvent) -> bool {
    match event {
        HighlightEvent::Source { start, end } => start != end,
        _ => false,
    }
}

/// The index up to which the events are read when the next span is asked
/// for at index `from`: just past the first event from there on that
/// yields a span, and to the end where none does.
pub open spec fn read_to(events: Seq<HighlightEvent>, from: int) -> int
    decreases events.len() - from,
{
    if from < 0 || from >= events.len() {
        from
    } else if yields_span(events[from]) {
        from + 1
    } else {
        read_to(events, from + 1)
    }
}

/// The stack of open highlights after the events from index `from` up to,
/// but without, index `to`, when it was `stack` before them.
pub open spec fn stack_through(
    events: Seq<HighlightEvent>,
    stack: Seq<Highlight>,
    from: int,
    to: int,
) -> Seq<Highlight>
    decreases to - from,
{
    if from >= to {
        stack
    } else {
        stack_after(stack_through(events, stack, from, to - 1), events[to - 1])
    }
}

/// A cursor over a stream of highlight events that yields its spans.
pub struct StyleIter<'a> {
    /// The style under all highlights.
    pub text_style: Style,
    /// The highlights that are open, the outermost first.
    pub active_highlights: Vec<Highlight>,
    pub events: &'a [HighlightEvent],
    /// The index of the next event to read.
    pub next_event: usize,
    pub kind: StyleIterKind,
    pub text: ropey::RopeSlice<'a>,
    pub theme: &'a Theme,
}

impl<'a> StyleIter<'a> {
    /// The spans that are still to come.
    pub open spec fn remaining(&self) -> Seq<Span> {
        if self.next_event <= self.events@.len() {
            spans(
                self.events@.skip(self.next_event as int),
                self.active_highlights@,
                self.text_style,
                self.kind,
                rope_chars(self.text),
                *self.theme,
            )
        } else {
            Seq::empty()
        }
    }

    /// A cursor at the start of `events`, with no highlight open.
    pub fn new(
        text_style: Style,
        events: &'a [HighlightEvent],
        kind: StyleIterKind,
        text: ropey::RopeSlice<'a>,
        theme: &'a Theme,
    ) -> (r: StyleIter<'a>)
        ensures
            r.remaining() == spans(
                events@,
                Seq::<Highlight>::empty(),
                text_style,
                kind,
                rope_chars(text),
                *theme,
            ),
    {
        let r = StyleIter {
            text_style,
            active_highlights: Vec::new(),
            events,
            next_event: 0,
            kind,
            text,
            theme,
        };
        assert(events@.skip(0) =~= events@);
        r
    }

    /// The style under the open highlights.
    fn active_style(&self) -> (r: Style)
        ensures
            r == stack_style(self.text_style, self.active_highlights@, *self.theme),
    {
        let mut style = self.text_style;
        let mut i: usize = 0;
        while i < self.active_highlights.len()
            invariant
                i <= self.active_highlights@.len(),
                style == stack_style(self.text_style, self.active_highlights@.take(i as int), *self.theme),
            decreases self.active_highlights@.len() - i,
        {
            let h = self.active_highlights[i];
            assert(self.active_highlights@.take(i + 1).drop_last() =~= self.active_highlights@.take(
                i as int,
            ));
            style = style.patch(self.theme.highlight(h.0));
            i += 1;
        }
        assert(self.active_highlights@.take(i as int) =~= self.active_highlights@);
        style
    }

    /// The next span, or `None` when the stream has no further one.
    ///
    /// The events are read up to the source range that the span is made
    /// from, or to the end, and the highlights that they open and close
    /// are opened and closed on the stack.
    pub fn next(&mut self) -> (r: Option<StyleSpan>)
        ensures
            final(self).next_event == read_to(old(self).events@, old(self).next_event as int),
            final(self).active_highlights@ == stack_through(
                old(self).events@,
                old(self).active_highlights@,
                old(self).next_event as int,
                final(self).next_event as int,
            ),
            r.is_some() <==> old(self).next_event < final(self).next_event && yields_span(
                old(self).events@[final(self).next_event - 1],
            ),
            final(self).text_style == old(self).text_style,
            final(self).events == old(self).events,
            final(self).kind == old(self).kind,
            final(self).text == old(self).text,
            final(self).theme == old(self).theme,
            match r {
                Some(span) => old(self).remaining() == seq![span@] + final(self).remaining(),
                None => old(self).remaining() == Seq::<Span>::empty() && final(self).remaining()
                    == Seq::<Span>::empty(),
            },
    {
        while self.next_event < self.events.len()
            invariant
                self.text_style == old(self).text_style,
                self.events == old(self).events,
                self.kind == old(self).kind,
                self.text == old(self).text,
                self.theme == old(self).theme,
                self.remaining() == old(self).remaining(),
                old(self).next_event <= self.next_event,
                read_to(self.events@, self.next_event as int) == read_to(
                    self.events@,
                    old(self).next_event as int,
                ),
                self.active_highlights@ == stack_through(
                    self.events@,
                    old(self).active_highlights@,
                    old(self).next_event as int,
                    self.next_event as int,
                ),
                old(self).next_event < self.next_event ==> !yields_span(
                    self.events@[self.next_event - 1],
                ),
            decreases self.events@.len() - self.next_event,
        {
            let event = self.events[self.next_event];
            let ghost before = *self;
            assert(self.events@.skip(self.next_event as int).drop_first() =~= self.events@.skip(
                self.next_event + 1,
            ));
            self.next_event += 1;
            match event {
                HighlightEvent::HighlightStart(h) => {
                    self.active_highlights.push(h);
                },
                HighlightEvent::HighlightEnd => {
                    self.active_highlights.pop();
                },
                HighlightEvent::Source { start, end } => {
                    if start != end {
                        let style = self.active_style();
                        let end = match self.kind {
                            StyleIterKind::BaseHighlights => byte_to_next_char(self.text, end),
                            StyleIterKind::Overlay => end,
                        };
                        return Some(StyleSpan { style, end });
                    }
                },
            }
        }
        assert(self.next_event == self.events@.len() ==> self.events@.skip(self.next_event as int)
            =~= Seq::<HighlightEvent>::empty());
        None
    }
}

/// The offset at which a source range ends, for an event that is one.
pub open spec fn source_end(event: HighlightEvent) -> Option<int> {
    match event {
        HighlightEvent::Source { start, end } => Some(end as int),
        _ => None,
    }
}

/// Whether the source ranges of a stream end in rising order.
pub open spec fn source_ends_ordered(events: Seq<HighlightEvent>) -> bool {
    forall|i: int, j: int|
        0 <= i <= j < events.len() && source_end(events[i]).is_some() && source_end(
            events[j],
        ).is_some() ==> source_end(events[i]).unwrap() <= source_end(events[j]).unwrap()
}

/// Whether the spans end in rising order.
pub open spec fn span_ends_ordered(spans: Seq<Span>) -> bool {
    forall|i: int, j: int| 0 <= i <= j < spans.len() ==> spans[i].end <= spans[j].end
}

/// Whether span `i` is the one that covers character offset `c`: it ends
/// after `c`, and the span before it does not.
pub open spec fn covers(spans: Seq<Span>, i: int, c: int) -> bool {
    &&& 0 <= i < spans.len()
    &&& c < spans[i].end
    &&& i > 0 ==> spans[i - 1].end <= c
}

/// No span of a stream ends before the place where the stream's earliest
/// source range ends.
pub proof fn lemma_span_ends_at_least(
    events: Seq<HighlightEvent>,
    stack: Seq<Highlight>,
    base: Style,
    kind: StyleIterKind,
    chars: Seq<char>,
    theme: Theme,
    lo: int,
)
    requires
        forall|i: int|
            0 <= i < events.len() && source_end(#[trigger] events[i]).is_some() ==> lo
                <= source_end(events[i]).unwrap(),
    ensures
        forall|k: int|
            0 <= k < spans(events, stack, base, kind, chars, theme).len() ==> span_end(
                kind,
                chars,
                lo,
            ) <= (#[trigger] spans(events, stack, base, kind, chars, theme)[k]).end,
    decreases events.len(),
{
    if events.len() > 0 {
        let rest = events.drop_first();
        assert forall|i: int|
            0 <= i < rest.len() && source_end(#[trigger] rest[i]).is_some() implies lo
            <= source_end(rest[i]).unwrap() by {
            assert(rest[i] == events[i + 1]);
        }
        lemma_span_ends_at_least(rest, stack_after(stack, events[0]), base, kind, chars, theme, lo);
        if let HighlightEvent::Source { start, end } = events[0] {
            assert(lo <= source_end(events[0]).unwrap());
            lemma_char_at_or_after_byte_monotonic(chars, lo, end as int);
        }
    }
}

/// The spans of a stream whose source ranges end in rising order end in
/// rising order too: rounding a byte offset up to a character keeps the
/// order.
pub proof fn lemma_span_ends_ordered(
    events: Seq<HighlightEvent>,
    stack: Seq<Highlight>,
    base: Style,
    kind: StyleIterKind,
    chars: Seq<char>,
    theme: Theme,
)
    requires
        source_ends_ordered(events),
    ensures
        span_ends_ordered(spans(events, stack, base, kind, chars, theme)),
    decreases events.len(),
{
    if events.len() > 0 {
        let rest = events.drop_first();
        let next = stack_after(stack, events[0]);
        assert(source_ends_ordered(rest)) by {
            assert forall|i: int, j: int|
                0 <= i <= j < rest.len() && source_end(rest[i]).is_some() && source_end(
                    rest[j],
                ).is_some() implies source_end(rest[i]).unwrap() <= source_end(
                rest[j],
            ).unwrap() by {
                assert(rest[i] == events[i + 1]);
                assert(rest[j] == events[j + 1]);
            }
        }
        lemma_span_ends_ordered(rest, next, base, kind, chars, theme);
        if let HighlightEvent::Source { start, end } = events[0] {
            assert forall|i: int|
                0 <= i < rest.len() && source_end(#[trigger] rest[i]).is_some() implies end
                <= source_end(rest[i]).unwrap() by {
                assert(rest[i] == events[i + 1]);
            }
            lemma_span_ends_at_least(rest, next, base, kind, chars, theme, end as int);
        }
    }
}

/// Where spans end in rising order, at most one of them covers a given
/// character offset.
pub proof fn lemma_covering_span_unique(spans: Seq<Span>, c: int, i: int, j: int)
    requires
        span_ends_ordered(spans),
        covers(spans, i, c),
        covers(spans, j, c),
    ensures
        i == j,
{
    if i < j {
        assert(spans[i].end <= spans[j - 1].end);
    } else if j < i {
        assert(spans[j].end <= spans[i - 1].end);
    }
}

/// Every character offset before the end of the last span is covered by
/// some span.
pub proof fn lemma_covering_span_exists(spans: Seq<Span>, c: int)
    requires
        spans.len() > 0,
        c < spans.last().end,
    ensures
        exists|i: int| covers(spans, i, c),
    decreases spans.len(),
{
    let n = spans.len() as int;
    if n == 1 || spans[n - 2].end <= c {
        assert(covers(spans, n - 1, c));
    } else {
        let front = spans.drop_last();
        lemma_covering_span_exists(front, c);
        let i = choose|i: int| covers(front, i, c);
        assert(covers(spans, i, c));
    }
}

/// In a stream whose source ranges end in rising order, every character
/// offset before the end of the last span is covered by one span and no
/// other.
pub proof fn lemma_one_span_covers(
    events: Seq<HighlightEvent>,
    stack: Seq<Highlight>,
    base: Style,
    kind: StyleIterKind,
    chars: Seq<char>,
    theme: Theme,
    c: int,
)
    requires
        source_ends_ordered(events),
        spans(events, stack, base, kind, chars, theme).len() > 0,
        c < spans(events, stack, base, kind, chars, theme).last().end,
    ensures
        exists|i: int|
            covers(spans(events, stack, base, kind, chars, theme), i, c) && forall|j: int|
                covers(spans(events, stack, base, kind, chars, theme), j, c) ==> j == i,
{
    let all = spans(events, stack, base, kind, chars, theme);
    lemma_span_ends_ordered(events, stack, base, kind, chars, theme);
    lemma_covering_span_exists(all, c);
    let i = choose|i: int| covers(all, i, c);
    assert forall|j: int| covers(all, j, c) implies j == i by {
        lemma_covering_span_unique(all, c, i, j);
    }
}

/// A span of syntax highlights never ends before the byte offset at which
/// its source range ends: moving the end to a character boundary moves it
/// forward, and by less than one character.
pub proof fn lemma_aligned_end_not_before(chars: Seq<char>, end: int)
    requires
        0 <= end <= byte_len(chars),
    ensures
        end <= byte_offset(chars, span_end(StyleIterKind::BaseHighlights, chars, end)),
        span_end(StyleIterKind::BaseHighlights, chars, end) > 0 ==> byte_offset(
            chars,
            span_end(StyleIterKind::BaseHighlights, chars, end) - 1,
        ) < end,
{
    lemma_char_at_or_after_byte(chars, end);
}

/// A stream that opens no highlight gives the base style to every span.
pub proof fn lemma_flat_stream_keeps_base_style(
    events: Seq<HighlightEvent>,
    base: Style,
    kind: StyleIterKind,
    chars: Seq<char>,
    theme: Theme,
)
    requires
        forall|i: int| 0 <= i < events.len() ==> source_end(#[trigger] events[i]).is_some(),
    ensures
        forall|k: int|
            0 <= k < spans(events, Seq::empty(), base, kind, chars, theme).len() ==> (#[trigger] spans(
                events,
                Seq::empty(),
                base,
                kind,
                chars,
                theme,
            )[k]).style == base,
    decreases events.len(),
{
    if events.len() > 0 {
        let rest = events.drop_first();
        assert forall|i: int| 0 <= i < rest.len() implies source_end(
            #[trigger] rest[i],
        ).is_some() by {
            assert(rest[i] == events[i + 1]);
        }
        assert(source_end(events[0]).is_some());
        lemma_flat_stream_keeps_base_style(rest, base, kind, chars, theme);
    }
}

} // verus!
