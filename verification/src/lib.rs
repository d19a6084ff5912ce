//! Runtime core of a side-scrolling platformer: fixed-point arithmetic,
//! tile-grid collision, an infinite procedurally chosen section layer, and
//! the per-tick entity and game state machines.
//!
//! Rendering, input polling and the frame-tick signal are external
//! collaborators: the library exposes plain values (tile ids, pixel
//! positions, visibility flags) for them and consumes plain input samples.

pub mod entity;
pub mod game;
pub mod geom;
pub mod gfx;
pub mod input;
pub mod laws;
pub mod num;
pub mod tilemap;
pub mod timer;
pub mod world;
