//! Procedural-noise support library: pseudorandom number generators, the
//! permutation tables and lattice hashing of the noise algorithms, dice
//! notation, and the integer geometry and colour values that the noise
//! consumers work with.

pub mod base;
pub mod bresenham;
pub mod color;
pub mod noise;
pub mod random;
pub mod text;
pub mod util;
