//! A single moving particle and its per-frame motion step.
//!
//! A particle owns a position, a velocity, a fixed render radius, a fixed
//! opaque fill color and a fixed line color, all in integer subunits. Each
//! frame, [`Particle::update`] reflects the velocity off any wall the
//! particle overlaps and then adds the velocity to the position. The
//! reflection test reads the position *before* this frame's displacement, so
//! a particle can sit up to one frame-step beyond the exact wall before it
//! turns; [`Particle::wf`] captures exactly that soft bound, and one step
//! preserves it ([`lemma_step_preserves_wf`]).

use vstd::prelude::*;
use vstd::math::abs;
use crate::render::CircleCmd;
use crate::render::Rgb;

verus! {

/// A moving point of the field. Coordinates and the radius are in subunits;
/// `color` fills the disc, `line_color` colors the lines drawn from this
/// particle to its neighbours.
#[derive(Clone, Copy, PartialEq, Eq, Structural, Debug)]
pub struct Particle {
    pub x: i64,
    pub y: i64,
    pub vx: i64,
    pub vy: i64,
    pub size: i64,
    pub color: Rgb,
    pub line_color: Rgb,
}

impl Particle {
    /// True when the particle overlaps the left or right wall of a canvas
    /// `w` wide, before this frame's displacement.
    pub open spec fn bounces_x(self, w: int) -> bool {
        self.x + self.size >= w || self.x - self.size <= 0
    }

    /// True when the particle overlaps the top or bottom wall of a canvas
    /// `h` high.
    pub open spec fn bounces_y(self, h: int) -> bool {
        self.y + self.size >= h || self.y - self.size <= 0
    }

    /// The particle after one motion step on a `w` by `h` canvas: each
    /// velocity component is negated if the particle overlaps that axis'
    /// wall, then the (possibly turned) velocity is added to the position.
    pub open spec fn stepped(self, w: int, h: int) -> Particle {
        let nvx: int = if self.bounces_x(w) {
            -(self.vx as int)
        } else {
            self.vx as int
        };
        let nvy: int = if self.bounces_y(h) {
            -(self.vy as int)
        } else {
            self.vy as int
        };
        Particle {
            x: (self.x + nvx) as i64,
            y: (self.y + nvy) as i64,
            vx: nvx as i64,
            vy: nvy as i64,
            size: self.size,
            color: self.color,
            line_color: self.line_color,
        }
    }

    /// Well-formedness on a `w` by `h` canvas. Besides machine bounds on
    /// the sizes involved, it states the soft position invariant: the
    /// center stays within `[-size, dim + size]` on each axis up to one
    /// frame-step of slack, and a component moving away from a wall the
    /// particle has passed can only have just turned there, so the center
    /// is still within `[-size, dim + size]` itself.
    pub open spec fn wf(self, w: int, h: int) -> bool {
        &&& 0 < self.size <= 1000
        &&& 2 * self.size < w
        &&& 2 * self.size < h
        &&& w <= 100_000
        &&& h <= 100_000
        &&& abs(self.vx as int) <= 1000
        &&& abs(self.vy as int) <= 1000
        &&& -self.size - abs(self.vx as int) <= self.x <= w + self.size + abs(self.vx as int)
        &&& self.vx > 0 ==> self.x >= -self.size
        &&& self.vx < 0 ==> self.x <= w + self.size
        &&& -self.size - abs(self.vy as int) <= self.y <= h + self.size + abs(self.vy as int)
        &&& self.vy > 0 ==> self.y >= -self.size
        &&& self.vy < 0 ==> self.y <= h + self.size
    }

    /// Builds a particle from its attributes, as given.
    pub fn new(x: i64, y: i64, vx: i64, vy: i64, size: i64, color: Rgb, line_color: Rgb) -> (p:
        Particle)
        ensures
            p == (Particle { x, y, vx, vy, size, color, line_color }),
    {
        Particle { x, y, vx, vy, size, color, line_color }
    }

    /// The command that paints this particle: a filled disc of radius
    /// `size` at the particle's center, in its fill color.
    pub open spec fn spec_draw(self) -> CircleCmd {
        CircleCmd { x: self.x, y: self.y, radius: self.size, color: self.color }
    }

    /// Renders the particle as a drawing command; the particle itself is
    /// unchanged.
    pub fn draw(&self) -> (cmd: CircleCmd)
        ensures
            cmd == self.spec_draw(),
    {
        CircleCmd { x: self.x, y: self.y, radius: self.size, color: self.color }
    }

    /// One motion step on a `canvas_width` by `canvas_height` canvas:
    /// reflect at any wall the particle overlaps, then displace by the
    /// velocity. The result is exactly [`Particle::stepped`], and a
    /// well-formed particle stays well-formed.
    pub fn update(&mut self, canvas_width: i64, canvas_height: i64)
        requires
            0 < canvas_width <= 100_000,
            0 < canvas_height <= 100_000,
            -200_000 <= old(self).x <= 200_000,
            -200_000 <= old(self).y <= 200_000,
            -1000 <= old(self).vx <= 1000,
            -1000 <= old(self).vy <= 1000,
            0 <= old(self).size <= 1000,
        ensures
            *final(self) == old(self).stepped(canvas_width as int, canvas_height as int),
            final(self).vx == if old(self).bounces_x(canvas_width as int) {
                -old(self).vx as int
            } else {
                old(self).vx as int
            },
            final(self).vy == if old(self).bounces_y(canvas_height as int) {
                -old(self).vy as int
            } else {
                old(self).vy as int
            },
            final(self).x == old(self).x + final(self).vx,
            final(self).y == old(self).y + final(self).vy,
            final(self).size == old(self).size,
            final(self).color == old(self).color,
            final(self).line_color == old(self).line_color,
            old(self).wf(canvas_width as int, canvas_height as int) ==> final(self).wf(
                canvas_width as int,
                canvas_height as int,
            ),
    {
        proof {
            if self.wf(canvas_width as int, canvas_height as int) {
                lemma_step_preserves_wf(*self, canvas_width as int, canvas_height as int);
            }
        }
        if self.x + self.size >= canvas_width || self.x - self.size <= 0 {
            self.vx = -self.vx;
        }
        if self.y + self.size >= canvas_height || self.y - self.size <= 0 {
            self.vy = -self.vy;
        }
        self.x = self.x + self.vx;
        self.y = self.y + self.vy;
    }
}

/// The soft position invariant is inductive: one motion step on a canvas a
/// well-formed particle belongs to yields a well-formed particle. In
/// particular the center never strays more than one frame-step beyond
/// `[-size, dim + size]` on either axis, however many frames pass.
pub proof fn lemma_step_preserves_wf(p: Particle, w: int, h: int)
    requires
        p.wf(w, h),
    ensures
        p.stepped(w, h).wf(w, h),
{
}

} // verus!
