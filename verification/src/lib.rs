//! Rendering core for a fixed-size monochrome-brightness LED matrix.
//!
//! The library owns the in-memory frame buffer ([`grid::Grid`]), the
//! bit-packed-frame decoder, a fixed 8x8 glyph rasterizer, a family of
//! procedural pattern generators, the committed display state, and the
//! brightness compositor that turns a full frame into the flat register
//! buffer sent to the display controller in one bulk bus transaction.
//! The bus transport itself is outside this crate: the compositor produces
//! the exact bytes to transmit and a thin host layer owns the wire.

pub mod compositor;
pub mod font;
pub mod grid;
pub mod icons;
pub mod patterns;
pub mod state;
