//! Pixel formats and glyph bitmaps of the remote display.

pub mod pixman;
pub mod vga_font;
