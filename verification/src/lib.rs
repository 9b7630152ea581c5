//! A terminal screensaver core: an animated glyph that moves across the
//! visible terminal area, bounces off its edges, changes color on collision,
//! and responds to symbol/color switches and terminal resizes.

pub mod bouncer;
pub mod draw;
pub mod geometry;
pub mod rng;

pub use bouncer::Bouncer;
pub use bouncer::Color;
pub use draw::DrawOp;
pub use geometry::SymbolMode;
