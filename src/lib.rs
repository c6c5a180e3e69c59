//! Brush-model geometry for a BSP level renderer: fan triangulation of face
//! edge loops, per-face lightmap slicing, texture validation, animation frame
//! selection, light-style blending and the per-frame draw list.

pub mod bsp;
pub mod error;
pub mod triangulate;
pub mod lightmap;
pub mod texture;
pub mod animation;
pub mod shading;
pub mod brush;
pub mod game;
