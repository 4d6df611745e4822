//! A character-grid drawing surface: grid primitives, a line tracer, a canvas
//! engine with undo and incremental erasure, and a plain-text export.

pub mod ansi;
pub mod app;
pub mod canvas;
pub mod export;
pub mod grid;
pub mod menu;
pub mod paint;
pub mod path;
pub mod style;
pub mod terminal;
