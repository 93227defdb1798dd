//! A first-person view of a two-dimensional grid world, drawn by ray marching.
//!
//! All quantities are integers. Lengths and coordinates are counted in
//! millionths of a grid cell, angles in whole degrees, and screen extents in
//! whatever unit the caller measures its viewport in.

pub mod units;
pub mod location;
pub mod trig;
pub mod map;
pub mod map_builder;
pub mod player;
pub mod game;
pub mod ray;
pub mod scene;
