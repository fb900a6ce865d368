//! Exact integer geometry of a perspective camera for a ray tracer.
//!
//! A renderer evaluates its rays in single precision. Two parts of the
//! camera are exact before any rounding happens, and they are what this
//! library holds:
//!
//! * [`raster`]: the affine map from pixel coordinates to the image plane
//!   at depth -1, over rational points with a common denominator;
//! * [`lens`]: the pair of offsets on the square aperture that two words of
//!   a xorshift generator select, as integers on a lattice of 2^24 steps.

pub mod lens;
pub mod raster;
