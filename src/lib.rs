//! Core of a small retained-mode 3D renderer: matrix relayout, lazily
//! recomposed transforms, interleaved vertex buffers with per-attribute dirty
//! tracking, and the command sequence of one draw pass.
pub mod camera;
pub mod geometry;
pub mod matrix;
pub mod render;
pub mod linear_transform;
