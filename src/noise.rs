//! Noise support: the permutation table shared by the lattice noise
//! algorithms, and the limits of the noise generators.

use vstd::prelude::*;

pub mod algorithms;

verus! {

/// The maximum number of octaves supported.
pub const MAX_OCTAVES: usize = 128;

/// The maximum number of dimensions supported.
pub const MAX_DIMENSIONS: usize = 4;

} // verus!
