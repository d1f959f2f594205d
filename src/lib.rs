//! Sizing and redrawing of a single pixel-addressed drawing surface.
//!
//! The layout of the surface's container is reported along the text-flow
//! axes (inline and block); this library turns such a report into the
//! surface's width and height in pixels, keeps track of the committed size
//! and produces the drawing commands that repaint it.
pub mod error;
pub mod length;
pub mod orientation;
pub mod renderer;
pub mod size;
