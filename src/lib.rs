//! An always-on aquarium animation: sprite atlas decoding, per-fish physics,
//! compositing of overlapping sprites and a lazy partial-redraw pixel stream.

pub mod geometry;
pub mod sprite;
pub mod random;
pub mod fish;
pub mod tank;
pub mod stream;
