//! Rendering of a document's text into a grid of styled terminal cells.
//!
//! One forward pass walks the laid-out graphemes of a document, keeps two
//! highlight layers in step with the running character offset, and draws each
//! grapheme into the part of a [`surface::Surface`] that a viewport covers.
//! Along the way it calls the decorations of each row, finds the screen
//! positions of chosen characters, repaints trailing whitespace and draws
//! indent guides.

pub mod decoration;
pub mod document;
pub mod geometry;
pub mod grapheme;
pub mod highlight;
pub mod pass;
pub mod renderer;
pub mod repaint;
pub mod style;
pub mod surface;
pub mod text;
pub mod trailing_whitespace;
pub mod translate;

pub use decoration::LineDecoration;
pub use document::{render_document, render_text, TextLayout};
pub use geometry::{LinePos, Position, Rect, TextFormat, ViewPosition};
pub use pass::{Pass, Step};
pub use renderer::{DocumentSettings, GraphemeStyle, TextRenderer};
pub use translate::{translate_positions, TranslatedPosition};
