//! A small engine for palette-indexed pixel graphics: rectangles and colours, a
//! palette, bitmaps and a painter that draws into them within a clip rectangle
//! (cells, lines, fills, blits and bitmap-font text), keyboard and mouse state, and a
//! developer console.

pub mod rect;
pub mod color;
pub mod palette;
pub mod grid;
pub mod bitmap;
pub mod painter;
pub mod font;
pub mod input;
pub mod context;
pub mod cmd;
pub mod game;
