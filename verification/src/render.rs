//! Drawing commands and the alpha computation for connecting lines.
//!
//! A frame is a sequence of [`RenderCmd`] values: one trail-fade pass over
//! the whole canvas, then, particle by particle, the connecting lines and the
//! particle's own disc. The host replays the commands onto its drawing
//! surface; coordinates are in subunits ([`crate::SUBUNITS_PER_PIXEL`] to the
//! pixel).
//!
//! Colors are structured values rather than strings: an opaque [`Rgb`] plus,
//! for lines, an alpha computed per frame from the pair's distance. The alpha
//! is the rational `(LINK_DIST - dist) / LINK_DIST` — close pairs near 1,
//! pairs at the threshold near 0 — and [`line_alpha`] produces it exactly,
//! with the distance rounded down to a whole subunit.

use vstd::prelude::*;
use crate::CANVAS_H;
use crate::CANVAS_W;
use crate::LINK_DIST;
use crate::LINK_DIST_SQ;

verus! {

/// An opaque color: red, green and blue channels.
#[derive(Clone, Copy, PartialEq, Eq, Structural, Debug)]
pub struct Rgb {
    pub r: u8,
    pub g: u8,
    pub b: u8,
}

/// Paint a filled disc of radius `radius` centered at `(x, y)`, in `color`.
#[derive(Clone, Copy, PartialEq, Eq, Structural, Debug)]
pub struct CircleCmd {
    pub x: i64,
    pub y: i64,
    pub radius: i64,
    pub color: Rgb,
}

/// Stroke a straight line from `(x1, y1)` to `(x2, y2)` in `color`, with
/// alpha `(LINK_DIST - sqrt(dist_sq)) / LINK_DIST` and line width half a
/// subunit-triple (0.5 pixels).
#[derive(Clone, Copy, PartialEq, Eq, Structural, Debug)]
pub struct LineCmd {
    pub x1: i64,
    pub y1: i64,
    pub x2: i64,
    pub y2: i64,
    pub color: Rgb,
    pub dist_sq: i64,
}

/// One drawing command of a frame.
#[derive(Clone, Copy, PartialEq, Eq, Structural, Debug)]
pub enum RenderCmd {
    /// Paint the whole `w` by `h` canvas black at alpha `alpha_num /
    /// alpha_den`: the trail fade that dims, rather than erases, the
    /// previous frames.
    Fade { w: i64, h: i64, alpha_num: i64, alpha_den: i64 },
    /// Stroke a connecting line.
    Line(LineCmd),
    /// Paint a particle's disc.
    Circle(CircleCmd),
}

/// The one fade command every frame starts with: the full canvas painted
/// black at alpha 3/5.
pub open spec fn fade_cmd() -> RenderCmd {
    RenderCmd::Fade { w: CANVAS_W, h: CANVAS_H, alpha_num: 3, alpha_den: 5 }
}

/// `r` is the integer square root of `n`, rounded down.
pub open spec fn is_isqrt(n: int, r: int) -> bool {
    &&& 0 <= r
    &&& r * r <= n
    &&& n < (r + 1) * (r + 1)
}

/// Integer square root, rounded down, for distances up to the link
/// threshold.
pub fn isqrt(n: i64) -> (r: i64)
    requires
        0 <= n <= LINK_DIST_SQ,
    ensures
        is_isqrt(n as int, r as int),
        0 <= r <= LINK_DIST,
{
    let mut r: i64 = 0;
    loop
        invariant
            0 <= r <= 540,
            r * r <= n,
            0 <= n <= 291600,
        ensures
            is_isqrt(n as int, r as int),
            0 <= r <= 540,
        decreases 540 - r,
    {
        if r >= 540 {
            break ;
        }
        let next: i64 = r + 1;
        proof {
            assert((next as int) * (next as int) <= 291600) by (nonlinear_arith)
                requires
                    0 < next as int <= 540,
            ;
        }
        let sq: i64 = next * next;
        if sq <= n {
            r = next;
        } else {
            break ;
        }
    }
    r
}

/// The alpha of a connecting line whose squared distance is `dist_sq`, as
/// the exact rational `a.0 / a.1 == (LINK_DIST - dist) / LINK_DIST`, where
/// `dist` is the distance rounded down to a whole subunit. Touching pairs
/// get alpha 1; pairs at the threshold get alpha 0.
pub fn line_alpha(dist_sq: i64) -> (a: (i64, i64))
    requires
        0 <= dist_sq <= LINK_DIST_SQ,
    ensures
        a.1 == LINK_DIST,
        0 <= a.0 <= LINK_DIST,
        is_isqrt(dist_sq as int, LINK_DIST - a.0),
{
    let r = isqrt(dist_sq);
    (540 - r, 540)
}

} // verus!
