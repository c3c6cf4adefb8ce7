//! A constellation-style particle animation, verified.
//!
//! A fixed population of particles moves across a fixed canvas, bouncing off
//! the walls; every frame, each pair of particles close enough together is
//! joined by a line whose opacity fades with distance. The library holds the
//! whole simulation: pseudo-random placement, motion integration with
//! boundary reflection, the pairwise proximity scan, and the production of a
//! frame's worth of drawing commands. A thin host layer replays those
//! commands onto a real drawing surface and supplies the random samples and
//! the animation clock.
//!
//! All geometry is carried in integer *subunits*, at [`SUBUNITS_PER_PIXEL`]
//! subunits to the pixel. Initial positions are whole pixels and every
//! velocity is a whole number of subunits, so the real-valued dynamics —
//! integer pixels plus velocities in thirds of a pixel — are represented
//! exactly and the arithmetic can be verified.

use vstd::prelude::*;

pub mod field;
pub mod particle;
pub mod render;
pub mod rng;

verus! {

/// Subunits per canvas pixel. Velocities are sampled as whole multiples of a
/// third of a pixel per frame, so a third of a pixel is the grid on which the
/// whole simulation runs exactly.
pub const SUBUNITS_PER_PIXEL: i64 = 3;

/// Canvas width in subunits (1000 pixels).
pub const CANVAS_W: i64 = 3000;

/// Canvas height in subunits (500 pixels).
pub const CANVAS_H: i64 = 1500;

/// Render radius of every particle, in subunits (3 pixels).
pub const PARTICLE_SIZE: i64 = 9;

/// Two particles at most this far apart (180 pixels) are joined by a line.
pub const LINK_DIST: i64 = 540;

/// Square of [`LINK_DIST`], the threshold for the exact proximity test.
pub const LINK_DIST_SQ: i64 = 291600;

/// Number of particles in the field.
pub const PARTICLE_COUNT: usize = 190;

/// Random samples consumed per particle: x, y, vx, vy, and three line-color
/// channels, in that order.
pub const SAMPLES_PER_PARTICLE: usize = 7;

} // verus!
