//! A small animation library: a fixed-size scene of translucent circles
//! ("bubbles") that drift upward at individual speeds and wrap around to the
//! bottom once they have fully left the top of the screen.
//!
//! All geometry is kept in fixed-point coordinates: one logical pixel is
//! `SCALE` units, so positions, radii, speeds and frame times are plain
//! integers and the per-frame update rule is exact. A renderer divides by
//! `SCALE` when it draws.

pub mod bubble;
pub mod rng;
pub mod scene;
