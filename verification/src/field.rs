//! The particle field and the per-frame simulation-and-render pass.
//!
//! [`ParticleField`] owns the ordered particle list. [`ParticleField::tick`]
//! produces one frame: a trail-fade pass, then, for each particle in order,
//! a connecting line to every other particle within [`LINK_DIST`], the
//! particle's own disc, and its motion step. Because each particle is
//! stepped as soon as its own row is done, later rows measure distances
//! against the already-moved earlier particles; the specification
//! ([`spec_tick_cmds`]) states exactly that interleaving.
//!
//! Pairs are scanned in both orders, so a near pair is drawn twice, once per
//! direction, each line in its source particle's color. The scan skips a
//! pair early when the horizontal separation alone exceeds the threshold;
//! there is deliberately no matching vertical prefilter. The skip is sound
//! ([`lemma_prefilter_sound`]), so it never changes which lines appear, and
//! [`spec_tick_cmds`] is stated without it.

use vstd::prelude::*;
use vstd::math::abs;
use crate::particle::Particle;
use crate::render::LineCmd;
use crate::render::RenderCmd;
use crate::render::Rgb;
use crate::render::fade_cmd;
use crate::rng::random2;
use crate::rng::spec_random2;
use crate::CANVAS_H;
use crate::CANVAS_W;
use crate::LINK_DIST;
use crate::LINK_DIST_SQ;
use crate::PARTICLE_COUNT;
use crate::PARTICLE_SIZE;
use crate::SAMPLES_PER_PARTICLE;
use crate::SUBUNITS_PER_PIXEL;

verus! {

/// Squared Euclidean distance between the centers of `a` and `b`, in
/// subunits.
pub open spec fn spec_dist_sq(a: Particle, b: Particle) -> int {
    (b.x - a.x) * (b.x - a.x) + (b.y - a.y) * (b.y - a.y)
}

/// Distance is symmetric: the length measured from `a` to `b` equals the
/// length measured from `b` to `a`, whichever particle the scan starts
/// from.
pub proof fn lemma_dist_sq_symmetric(a: Particle, b: Particle)
    ensures
        spec_dist_sq(a, b) == spec_dist_sq(b, a),
{
    assert((b.x - a.x) * (b.x - a.x) == (a.x - b.x) * (a.x - b.x)) by (nonlinear_arith);
    assert((b.y - a.y) * (b.y - a.y) == (a.y - b.y) * (a.y - b.y)) by (nonlinear_arith);
}

/// The coarse horizontal prefilter is sound: when the horizontal
/// separation alone exceeds the link threshold, the exact squared distance
/// exceeds the squared threshold too, so skipping the pair drops no line.
pub proof fn lemma_prefilter_sound(a: Particle, b: Particle)
    requires
        abs(a.x - b.x) > LINK_DIST,
    ensures
        spec_dist_sq(a, b) > LINK_DIST_SQ,
{
    let dx = b.x - a.x;
    let dy = b.y - a.y;
    assert(dx * dx > 291600 && dy * dy >= 0) by (nonlinear_arith)
        requires
            dx > 540 || dx < -540,
    ;
}

/// Squared Euclidean distance between two particles' centers.
pub fn dist_sq(a: &Particle, b: &Particle) -> (d: i64)
    requires
        -200_000 <= a.x <= 200_000,
        -200_000 <= a.y <= 200_000,
        -200_000 <= b.x <= 200_000,
        -200_000 <= b.y <= 200_000,
    ensures
        d == spec_dist_sq(*a, *b),
{
    let dx: i64 = b.x - a.x;
    let dy: i64 = b.y - a.y;
    proof {
        assert(0 <= dx * dx <= 400_000int * 400_000int) by (nonlinear_arith)
            requires
                -400_000 <= dx <= 400_000,
        ;
        assert(0 <= dy * dy <= 400_000int * 400_000int) by (nonlinear_arith)
            requires
                -400_000 <= dy <= 400_000,
        ;
    }
    dx * dx + dy * dy
}

/// The connecting line drawn from `a` to `b`: it runs center to center, in
/// `a`'s line color, and carries the pair's squared distance, from which
/// the stroke's alpha is computed.
pub open spec fn spec_line_cmd(a: Particle, b: Particle) -> LineCmd {
    LineCmd {
        x1: a.x,
        y1: a.y,
        x2: b.x,
        y2: b.y,
        color: a.line_color,
        dist_sq: spec_dist_sq(a, b) as i64,
    }
}

/// What the scan of ordered pair `(i, j)` contributes: nothing when `i ==
/// j` or the pair is farther apart than [`LINK_DIST`], else the one
/// connecting line from `i` to `j`.
pub open spec fn spec_pair_cmds(ps: Seq<Particle>, i: int, j: int) -> Seq<RenderCmd> {
    if i == j {
        seq![]
    } else if spec_dist_sq(ps[i], ps[j]) <= LINK_DIST_SQ {
        seq![RenderCmd::Line(spec_line_cmd(ps[i], ps[j]))]
    } else {
        seq![]
    }
}

/// The lines particle `i` draws to partners `0, .., j - 1`, in partner
/// order.
pub open spec fn spec_lines_upto(ps: Seq<Particle>, i: int, j: int) -> Seq<RenderCmd>
    decreases j,
{
    if j <= 0 {
        seq![]
    } else {
        spec_lines_upto(ps, i, j - 1) + spec_pair_cmds(ps, i, j - 1)
    }
}

/// Row `i` of a frame: particle `i`'s lines to every partner, then its own
/// disc, all read from the field state `ps` current when the row is drawn.
pub open spec fn spec_row_cmds(ps: Seq<Particle>, i: int) -> Seq<RenderCmd> {
    spec_lines_upto(ps, i, ps.len() as int) + seq![RenderCmd::Circle(ps[i].spec_draw())]
}

/// One motion step on the fixed canvas.
pub open spec fn spec_step(p: Particle) -> Particle {
    p.stepped(CANVAS_W as int, CANVAS_H as int)
}

/// The field mid-tick: particles before `i` have taken this frame's step,
/// the rest still stand where the frame found them.
pub open spec fn spec_state_at(ps: Seq<Particle>, i: int) -> Seq<Particle> {
    Seq::new(ps.len(), |k: int| if k < i { spec_step(ps[k]) } else { ps[k] })
}

/// Rows `0, .., i - 1` of the frame that starts from field state `ps`: each
/// row is drawn against the state its predecessors left behind.
pub open spec fn spec_rows_upto(ps: Seq<Particle>, i: int) -> Seq<RenderCmd>
    decreases i,
{
    if i <= 0 {
        seq![]
    } else {
        spec_rows_upto(ps, i - 1) + spec_row_cmds(spec_state_at(ps, i - 1), i - 1)
    }
}

/// A whole frame from field state `ps`: the trail fade, then every row.
pub open spec fn spec_tick_cmds(ps: Seq<Particle>) -> Seq<RenderCmd> {
    seq![fade_cmd()] + spec_rows_upto(ps, ps.len() as int)
}

/// The ordered particle collection, created once with a fixed population
/// and advanced one [`ParticleField::tick`] per animation frame.
#[derive(PartialEq, Debug)]
pub struct ParticleField {
    particles: Vec<Particle>,
}

impl View for ParticleField {
    type V = Seq<Particle>;

    closed spec fn view(&self) -> Seq<Particle> {
        self.particles@
    }
}

impl ParticleField {
    /// Every particle is well-formed on the fixed canvas.
    pub open spec fn wf(self) -> bool {
        forall|k: int|
            0 <= k < self@.len() ==> #[trigger] self@[k].wf(CANVAS_W as int, CANVAS_H as int)
    }

    /// Number of particles.
    pub fn len(&self) -> (n: usize)
        ensures
            n == self@.len(),
    {
        self.particles.len()
    }

    /// The particle at index `i`.
    pub fn get(&self, i: usize) -> (p: Particle)
        requires
            i < self@.len(),
        ensures
            p == self@[i as int],
    {
        self.particles[i]
    }

    /// Wraps an explicit particle list as a field. Returns the field
    /// exactly when every particle is well-formed on the fixed canvas, and
    /// nothing otherwise.
    pub fn from_particles(particles: Vec<Particle>) -> (r: Option<ParticleField>)
        ensures
            (r is Some) == (forall|k: int|
                0 <= k < particles@.len() ==> #[trigger] particles@[k].wf(
                    CANVAS_W as int,
                    CANVAS_H as int,
                )),
            r is Some ==> r.unwrap()@ == particles@ && r.unwrap().wf(),
    {
        let n = particles.len();
        let mut k: usize = 0;
        while k < n
            invariant
                n == particles@.len(),
                k <= n,
                forall|j: int|
                    0 <= j < k ==> #[trigger] particles@[j].wf(CANVAS_W as int, CANVAS_H as int),
            decreases n - k,
        {
            if !is_wf_particle(&particles[k]) {
                return None;
            }
            k += 1;
        }
        Some(ParticleField { particles })
    }

    /// Builds the field the animation starts from: [`PARTICLE_COUNT`]
    /// particles, each drawn from seven consecutive host random samples —
    /// position uniform over the canvas in whole pixels, each velocity
    /// component a third of a whole number of pixels from `[-2, 2)`, the
    /// fixed radius, an opaque white fill, and a random line color. The
    /// result is a function of the samples alone, so a fixed sample
    /// sequence always reconstructs the identical field.
    pub fn new(samples: &Vec<u32>) -> (field: ParticleField)
        requires
            samples@.len() == PARTICLE_COUNT * SAMPLES_PER_PARTICLE,
        ensures
            field@ == spec_field_from_samples(samples@),
            field@.len() == PARTICLE_COUNT,
            field.wf(),
    {
        let mut particles: Vec<Particle> = Vec::new();
        let mut k: usize = 0;
        while k < PARTICLE_COUNT
            invariant
                samples@.len() == 1330,
                k <= 190,
                particles@.len() == k,
                forall|i: int|
                    0 <= i < k ==> #[trigger] particles@[i] == spec_particle_from_samples(
                        samples@,
                        i,
                    ),
                forall|i: int|
                    0 <= i < k ==> #[trigger] particles@[i].wf(CANVAS_W as int, CANVAS_H as int),
            decreases 190 - k,
        {
            let base: usize = 7 * k;
            let x_px: i64 = random2(0, 1000, samples[base]);
            let y_px: i64 = random2(0, 500, samples[base + 1]);
            let vx: i64 = random2(-6, 6, samples[base + 2]);
            let vy: i64 = random2(-6, 6, samples[base + 3]);
            let r: i64 = random2(0, 255, samples[base + 4]);
            let g: i64 = random2(0, 255, samples[base + 5]);
            let b: i64 = random2(0, 255, samples[base + 6]);
            let p = Particle::new(
                SUBUNITS_PER_PIXEL * x_px,
                SUBUNITS_PER_PIXEL * y_px,
                vx,
                vy,
                PARTICLE_SIZE,
                Rgb { r: 255, g: 255, b: 255 },
                Rgb { r: r as u8, g: g as u8, b: b as u8 },
            );
            proof {
                assert(p == spec_particle_from_samples(samples@, k as int));
                assert(p.wf(CANVAS_W as int, CANVAS_H as int));
            }
            particles.push(p);
            k += 1;
        }
        proof {
            assert(particles@ =~= spec_field_from_samples(samples@));
        }
        ParticleField { particles }
    }

    /// One animation frame: emits the fade pass, then row by row each
    /// particle's connecting lines and disc, stepping the particle as its
    /// row completes so that later rows see the moved field. Returns
    /// exactly the command sequence [`spec_tick_cmds`] describes for the
    /// state the frame started from, and leaves every particle stepped
    /// once and still well-formed.
    pub fn tick(&mut self) -> (frame: Vec<RenderCmd>)
        requires
            old(self).wf(),
        ensures
            frame@ == spec_tick_cmds(old(self)@),
            final(self)@ == spec_state_at(old(self)@, old(self)@.len() as int),
            final(self).wf(),
    {
        let ghost orig = self.particles@;
        let mut cmds: Vec<RenderCmd> = Vec::new();
        cmds.push(RenderCmd::Fade { w: CANVAS_W, h: CANVAS_H, alpha_num: 3, alpha_den: 5 });
        proof {
            assert(cmds@ =~= seq![fade_cmd()] + spec_rows_upto(orig, 0));
            assert(spec_state_at(orig, 0) =~= orig);
            assert forall|k: int| 0 <= k < orig.len() implies #[trigger] orig[k].wf(
                CANVAS_W as int,
                CANVAS_H as int,
            ) by {
                assert(old(self)@[k].wf(CANVAS_W as int, CANVAS_H as int));
            }
        }
        let n = self.particles.len();
        let mut i: usize = 0;
        while i < n
            invariant
                n == orig.len(),
                i <= n,
                self.particles@ == spec_state_at(orig, i as int),
                forall|k: int|
                    0 <= k < n ==> #[trigger] self.particles@[k].wf(
                        CANVAS_W as int,
                        CANVAS_H as int,
                    ),
                cmds@ == seq![fade_cmd()] + spec_rows_upto(orig, i as int),
            decreases n - i,
        {
            let ghost state_i = spec_state_at(orig, i as int);
            let mut j: usize = 0;
            while j < n
                invariant
                    n == orig.len(),
                    i < n,
                    j <= n,
                    self.particles@ == state_i,
                    state_i == spec_state_at(orig, i as int),
                    forall|k: int|
                        0 <= k < n ==> #[trigger] self.particles@[k].wf(
                            CANVAS_W as int,
                            CANVAS_H as int,
                        ),
                    cmds@ == seq![fade_cmd()] + spec_rows_upto(orig, i as int) + spec_lines_upto(
                        state_i,
                        i as int,
                        j as int,
                    ),
                decreases n - j,
            {
                if j != i {
                    let a: Particle = self.particles[i];
                    let b: Particle = self.particles[j];
                    proof {
                        assert(self.particles@[i as int].wf(CANVAS_W as int, CANVAS_H as int));
                        assert(self.particles@[j as int].wf(CANVAS_W as int, CANVAS_H as int));
                    }
                    let dx: i64 = a.x - b.x;
                    if dx > LINK_DIST || dx < -LINK_DIST {
                        proof {
                            lemma_prefilter_sound(a, b);
                            assert(spec_pair_cmds(state_i, i as int, j as int) =~= seq![]);
                        }
                    } else {
                        let d: i64 = dist_sq(&a, &b);
                        if d <= LINK_DIST_SQ {
                            cmds.push(
                                RenderCmd::Line(
                                    LineCmd {
                                        x1: a.x,
                                        y1: a.y,
                                        x2: b.x,
                                        y2: b.y,
                                        color: a.line_color,
                                        dist_sq: d,
                                    },
                                ),
                            );
                            proof {
                                assert(spec_pair_cmds(state_i, i as int, j as int)
                                    =~= seq![RenderCmd::Line(spec_line_cmd(a, b))]);
                            }
                        } else {
                            proof {
                                assert(spec_pair_cmds(state_i, i as int, j as int) =~= seq![]);
                            }
                        }
                    }
                } else {
                    proof {
                        assert(spec_pair_cmds(state_i, i as int, j as int) =~= seq![]);
                    }
                }
                proof {
                    assert(spec_lines_upto(state_i, i as int, j as int + 1) == spec_lines_upto(
                        state_i,
                        i as int,
                        j as int,
                    ) + spec_pair_cmds(state_i, i as int, j as int));
                    assert(cmds@ =~= seq![fade_cmd()] + spec_rows_upto(orig, i as int)
                        + spec_lines_upto(state_i, i as int, j as int + 1));
                }
                j += 1;
            }
            let disc = self.particles[i].draw();
            cmds.push(RenderCmd::Circle(disc));
            proof {
                assert(spec_row_cmds(state_i, i as int) == spec_lines_upto(
                    state_i,
                    i as int,
                    n as int,
                ) + seq![RenderCmd::Circle(state_i[i as int].spec_draw())]);
                assert(cmds@ =~= seq![fade_cmd()] + spec_rows_upto(orig, i as int) + spec_row_cmds(
                    state_i,
                    i as int,
                ));
                assert(spec_rows_upto(orig, i as int + 1) == spec_rows_upto(orig, i as int)
                    + spec_row_cmds(spec_state_at(orig, i as int), i as int));
            }
            let mut p: Particle = self.particles[i];
            proof {
                assert(self.particles@[i as int].wf(CANVAS_W as int, CANVAS_H as int));
            }
            p.update(CANVAS_W, CANVAS_H);
            self.particles.set(i, p);
            proof {
                assert(self.particles@ =~= spec_state_at(orig, i as int + 1));
                assert(cmds@ =~= seq![fade_cmd()] + spec_rows_upto(orig, i as int + 1));
            }
            i += 1;
        }
        proof {
            assert(cmds@ == seq![fade_cmd()] + spec_rows_upto(orig, n as int));
            assert(spec_tick_cmds(orig) == seq![fade_cmd()] + spec_rows_upto(
                orig,
                orig.len() as int,
            ));
        }
        cmds
    }
}

/// Whether `p` is well-formed on the fixed canvas, decided executably.
pub fn is_wf_particle(p: &Particle) -> (b: bool)
    ensures
        b == p.wf(CANVAS_W as int, CANVAS_H as int),
{
    let avx: i64 = if p.vx < 0 {
        if p.vx == i64::MIN {
            return false;
        }
        -p.vx
    } else {
        p.vx
    };
    let avy: i64 = if p.vy < 0 {
        if p.vy == i64::MIN {
            return false;
        }
        -p.vy
    } else {
        p.vy
    };
    if !(0 < p.size && p.size <= 1000) {
        return false;
    }
    if !(2 * p.size < CANVAS_W && 2 * p.size < CANVAS_H) {
        return false;
    }
    if !(avx <= 1000 && avy <= 1000) {
        return false;
    }
    let ok_x: bool = -p.size - avx <= p.x && p.x <= CANVAS_W + p.size + avx && (p.vx <= 0 || p.x
        >= -p.size) && (p.vx >= 0 || p.x <= CANVAS_W + p.size);
    let ok_y: bool = -p.size - avy <= p.y && p.y <= CANVAS_H + p.size + avy && (p.vy <= 0 || p.y
        >= -p.size) && (p.vy >= 0 || p.y <= CANVAS_H + p.size);
    ok_x && ok_y
}

/// The particle that seven consecutive host random samples determine:
/// samples `7k, .., 7k + 6` give, in order, the x and y position in whole
/// pixels, the two velocity components, and the three line-color channels.
pub open spec fn spec_particle_from_samples(s: Seq<u32>, k: int) -> Particle {
    let x_px = spec_random2(0, 1000, s[7 * k] as int);
    let y_px = spec_random2(0, 500, s[7 * k + 1] as int);
    let vx = spec_random2(-6, 6, s[7 * k + 2] as int);
    let vy = spec_random2(-6, 6, s[7 * k + 3] as int);
    let r = spec_random2(0, 255, s[7 * k + 4] as int);
    let g = spec_random2(0, 255, s[7 * k + 5] as int);
    let b = spec_random2(0, 255, s[7 * k + 6] as int);
    Particle {
        x: (SUBUNITS_PER_PIXEL * x_px) as i64,
        y: (SUBUNITS_PER_PIXEL * y_px) as i64,
        vx: vx as i64,
        vy: vy as i64,
        size: PARTICLE_SIZE,
        color: Rgb { r: 255, g: 255, b: 255 },
        line_color: Rgb { r: r as u8, g: g as u8, b: b as u8 },
    }
}

/// The field a host random sample sequence determines, one particle per
/// seven samples, in sample order.
pub open spec fn spec_field_from_samples(s: Seq<u32>) -> Seq<Particle> {
    Seq::new((s.len() / 7) as nat, |k: int| spec_particle_from_samples(s, k))
}

} // verus!
