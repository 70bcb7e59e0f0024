pub mod color;
pub mod commands;
pub mod fractal;
pub mod geometry;
