//! Decorations of rows.

use vstd::prelude::*;
use crate::geometry::LinePos;
use crate::renderer::TextRenderer;

verus! {

/// Something drawn once for each row, below or above the row's text.
///
/// Either hook may draw on the renderer's surface. It leaves the renderer
/// itself as it found it: on the same surface, with the same settings and
/// the same run of whitespace tracked. The grid is all that a pass
/// changes, and the pass goes on with the viewport, the scroll offset and
/// the tracked run that it had before the hook.
pub trait LineDecoration {
    /// Called when a row starts, before any of its text is drawn.
    fn render_background(&mut self, renderer: &mut TextRenderer, pos: LinePos)
        requires
            old(renderer).wf(),
        ensures
            *final(final(renderer).surface) == *final(old(renderer).surface),
            final(renderer).wf(),
            final(renderer).settings() == old(renderer).settings(),
            final(renderer).run() == old(renderer).run(),
    {
    }

    /// Called when a row is finished, after its text and its indent guides
    /// are drawn. `end_char_idx` is the character offset that the pass has
    /// reached by then.
    fn render_foreground(&mut self, renderer: &mut TextRenderer, pos: LinePos, end_char_idx: usize)
        requires
            old(renderer).wf(),
        ensures
            *final(final(renderer).surface) == *final(old(renderer).surface),
            final(renderer).wf(),
            final(renderer).settings() == old(renderer).settings(),
            final(renderer).run() == old(renderer).run(),
    {
    }
}

/// Calls the background hook of every decoration, in the order of the
/// list, for the row `pos`.
pub fn render_backgrounds(
    renderer: &mut TextRenderer,
    line_decorations: &mut [Box<dyn LineDecoration + '_>],
    pos: LinePos,
)
    requires
        old(renderer).wf(),
    ensures
        *final(final(renderer).surface) == *final(old(renderer).surface),
        final(renderer).wf(),
        final(renderer).settings() == old(renderer).settings(),
        final(renderer).run() == old(renderer).run(),
        final(line_decorations)@.len() == old(line_decorations)@.len(),
        old(line_decorations)@.len() == 0 ==> final(renderer).cells() == old(renderer).cells(),
{
    let n: usize = line_decorations.len();
    let mut i: usize = 0;
    while i < n
        invariant
            i <= n,
            line_decorations@.len() == n,
            n == old(line_decorations)@.len(),
            renderer.wf(),
            *final(renderer.surface) == *final(old(renderer).surface),
            renderer.settings() == old(renderer).settings(),
            renderer.run() == old(renderer).run(),
            n == 0 ==> renderer.cells() == old(renderer).cells(),
        decreases n - i,
    {
        line_decorations[i].render_background(renderer, pos);
        i += 1;
    }
}

/// Calls the foreground hook of every decoration, in the order of the
/// list, for the row `pos` that ends at `end_char_idx`.
pub fn render_foregrounds(
    renderer: &mut TextRenderer,
    line_decorations: &mut [Box<dyn LineDecoration + '_>],
    pos: LinePos,
    end_char_idx: usize,
)
    requires
        old(renderer).wf(),
    ensures
        *final(final(renderer).surface) == *final(old(renderer).surface),
        final(renderer).wf(),
        final(renderer).settings() == old(renderer).settings(),
        final(renderer).run() == old(renderer).run(),
        final(line_decorations)@.len() == old(line_decorations)@.len(),
        old(line_decorations)@.len() == 0 ==> final(renderer).cells() == old(renderer).cells(),
{
    let n: usize = line_decorations.len();
    let mut i: usize = 0;
    while i < n
        invariant
            i <= n,
            line_decorations@.len() == n,
            n == old(line_decorations)@.len(),
            renderer.wf(),
            *final(renderer.surface) == *final(old(renderer).surface),
            renderer.settings() == old(renderer).settings(),
            renderer.run() == old(renderer).run(),
            n == 0 ==> renderer.cells() == old(renderer).cells(),
        decreases n - i,
    {
        line_decorations[i].render_foreground(renderer, pos, end_char_idx);
        i += 1;
    }
}

} // verus!
