//! Rendering and compositing core of a status-line generator for
//! tiling-window-manager bar protocols.
//!
//! The crate turns a list of independently produced display fragments
//! ("widgets") into one formatted output line, and supplies the small
//! text-formatting primitives that the data-producing blocks rely on:
//! template substitution, engineering-notation number formatting, an RGBA
//! color model with additive blending, and block-glyph bar graphs.

pub mod bars;
pub mod color;
pub mod compose;
pub mod config;
pub mod errors;
pub mod input;
pub mod number;
pub mod template;
pub mod text;
pub mod themes;
pub mod util;
pub mod widgets;
