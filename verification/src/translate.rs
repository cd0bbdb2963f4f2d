//! Finding the screen positions of chosen characters while the text is drawn.

use vstd::prelude::*;
use crate::geometry::{Position, TextFormat};
use crate::renderer::TextRenderer;

verus! {

/// A request to learn where on the screen a character is shown, and the
/// answer to it.
#[derive(Clone, Copy, Debug, PartialEq, Eq, Structural)]
pub struct TranslatedPosition {
    /// The character asked for.
    pub char_idx: usize,
    /// Whether the pass has come by the character. A request is answered
    /// once: after that the pass leaves it alone.
    pub reached: bool,
    /// Where the character is shown, if the pass has come by it and the
    /// view shows it.
    pub position: Option<Position>,
}

impl TranslatedPosition {
    /// A request that no pass has answered.
    pub fn new(char_idx: usize) -> (r: TranslatedPosition)
        ensures
            r == (TranslatedPosition { char_idx, reached: false, position: None }),
    {
        TranslatedPosition { char_idx, reached: false, position: None }
    }
}

/// The position that is reported for a character shown at `pos`, a row of
/// the viewport and a column of the text. With soft wrap it is `pos` as it
/// stands. Without, the column is counted from the left edge of the view,
/// and a column outside the view gives no position.
pub open spec fn on_screen(soft_wrap: bool, col_offset: usize, width: u16, pos: Position) -> Option<
    Position,
> {
    if soft_wrap {
        Some(pos)
    } else if col_offset <= pos.col && pos.col - col_offset < width {
        Some(Position { row: pos.row, col: (pos.col - col_offset) as usize })
    } else {
        None
    }
}

/// A request after the pass, having taken in `char_pos` characters, drew
/// at `pos`. An open request for a character before `char_pos`, and not
/// before the first visible one, is answered; every other stays as it is.
pub open spec fn translated(
    request: TranslatedPosition,
    char_pos: int,
    first_visible_char_idx: int,
    soft_wrap: bool,
    col_offset: usize,
    width: u16,
    pos: Position,
) -> TranslatedPosition {
    if !request.reached && first_visible_char_idx <= request.char_idx < char_pos {
        TranslatedPosition {
            char_idx: request.char_idx,
            reached: true,
            position: on_screen(soft_wrap, col_offset, width, pos),
        }
    } else {
        request
    }
}

/// [`translated`] for every request of a list.
pub open spec fn all_translated(
    requests: Seq<TranslatedPosition>,
    char_pos: int,
    first_visible_char_idx: int,
    soft_wrap: bool,
    col_offset: usize,
    width: u16,
    pos: Position,
) -> Seq<TranslatedPosition> {
    Seq::new(
        requests.len(),
        |i: int|
            translated(
                requests[i],
                char_pos,
                first_visible_char_idx,
                soft_wrap,
                col_offset,
                width,
                pos,
            ),
    )
}

/// Answers the requests that the pass has come by: those for a character
/// before `char_pos` that is visible.
pub fn translate_positions(
    char_pos: usize,
    first_visible_char_idx: usize,
    translated_positions: &mut [TranslatedPosition],
    text_fmt: &TextFormat,
    renderer: &TextRenderer,
    pos: Position,
)
    ensures
        final(translated_positions)@ == all_translated(
            old(translated_positions)@,
            char_pos as int,
            first_visible_char_idx as int,
            text_fmt.soft_wrap,
            renderer.col_offset,
            renderer.viewport.width,
            pos,
        ),
{
    let n: usize = translated_positions.len();
    let mut i: usize = 0;
    while i < n
        invariant
            i <= n,
            translated_positions@.len() == n,
            n == old(translated_positions)@.len(),
            forall|j: int|
                0 <= j < i ==> translated_positions@[j] == translated(
                    old(translated_positions)@[j],
                    char_pos as int,
                    first_visible_char_idx as int,
                    text_fmt.soft_wrap,
                    renderer.col_offset,
                    renderer.viewport.width,
                    pos,
                ),
            forall|j: int| i <= j < n ==> translated_positions@[j] == old(translated_positions)@[j],
        decreases n - i,
    {
        let request = translated_positions[i];
        if !request.reached && request.char_idx < char_pos && request.char_idx
            >= first_visible_char_idx {
            let position = if text_fmt.soft_wrap {
                Some(pos)
            } else if pos.col >= renderer.col_offset && pos.col - renderer.col_offset
                < renderer.viewport.width as usize {
                Some(Position { row: pos.row, col: pos.col - renderer.col_offset })
            } else {
                None
            };
            translated_positions[i] = TranslatedPosition {
                char_idx: request.char_idx,
                reached: true,
                position,
            };
        }
        i += 1;
    }
    assert(translated_positions@ =~= all_translated(
        old(translated_positions)@,
        char_pos as int,
        first_visible_char_idx as int,
        text_fmt.soft_wrap,
        renderer.col_offset,
        renderer.viewport.width,
        pos,
    ));
}

} // verus!
