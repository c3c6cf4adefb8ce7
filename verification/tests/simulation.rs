use particles::field::dist_sq;
use particles::field::ParticleField;
use particles::particle::Particle;
use particles::render::isqrt;
use particles::render::line_alpha;
use particles::render::CircleCmd;
use particles::render::LineCmd;
use particles::render::RenderCmd;
use particles::render::Rgb;
use particles::rng::random2;
use particles::CANVAS_H;
use particles::CANVAS_W;
use particles::PARTICLE_COUNT;
use particles::SAMPLES_PER_PARTICLE;

const WHITE: Rgb = Rgb { r: 255, g: 255, b: 255 };

fn particle(x: i64, y: i64, vx: i64, vy: i64, line_color: Rgb) -> Particle {
    Particle::new(x, y, vx, vy, 9, WHITE, line_color)
}

fn fade() -> RenderCmd {
    RenderCmd::Fade { w: CANVAS_W, h: CANVAS_H, alpha_num: 3, alpha_den: 5 }
}

fn circle(p: &Particle) -> RenderCmd {
    RenderCmd::Circle(CircleCmd { x: p.x, y: p.y, radius: p.size, color: p.color })
}

fn line(from: &Particle, to: &Particle, dist_sq: i64) -> RenderCmd {
    RenderCmd::Line(LineCmd {
        x1: from.x,
        y1: from.y,
        x2: to.x,
        y2: to.y,
        color: from.line_color,
        dist_sq,
    })
}

#[test]
fn random2_lowest_sample_gives_lower_bound() {
    assert_eq!(random2(0, 1000, 0), 0);
    assert_eq!(random2(-6, 6, 0), -6);
}

#[test]
fn random2_highest_sample_stays_below_upper_bound() {
    assert_eq!(random2(0, 1000, u32::MAX), 999);
    assert_eq!(random2(-6, 6, u32::MAX), 5);
    assert_eq!(random2(0, 255, u32::MAX), 254);
}

#[test]
fn random2_midpoint_sample() {
    assert_eq!(random2(-6, 6, 0x8000_0000), 0);
    assert_eq!(random2(0, 1000, 0x8000_0000), 500);
}

#[test]
fn random2_stays_in_range() {
    let samples = [0u32, 1, 0x1234_5678, 0x7fff_ffff, 0x8000_0000, 0xdead_beef, u32::MAX];
    for &u in samples.iter() {
        let v = random2(-6, 6, u);
        assert!(-6 <= v && v < 6);
        let w = random2(0, 255, u);
        assert!(0 <= w && w < 255);
    }
}

#[test]
fn update_interior_adds_velocity_and_keeps_it() {
    let mut p = particle(1500, 750, 3, -3, WHITE);
    p.update(CANVAS_W, CANVAS_H);
    assert_eq!((p.x, p.y), (1503, 747));
    assert_eq!((p.vx, p.vy), (3, -3));
}

#[test]
fn update_left_wall_flips_vx_before_displacing() {
    // Already past the left edge: the reflection reads the position before
    // this frame's displacement, so the turned velocity moves it at once.
    let mut p = particle(0, 750, 6, 0, WHITE);
    p.update(CANVAS_W, CANVAS_H);
    assert_eq!(p.vx, -6);
    assert_eq!(p.x, -6);
    assert_eq!((p.vy, p.y), (0, 750));
}

#[test]
fn update_right_wall_flips_vx() {
    let mut p = particle(2995, 750, 2, 0, WHITE);
    p.update(CANVAS_W, CANVAS_H);
    assert_eq!(p.vx, -2);
    assert_eq!(p.x, 2993);
}

#[test]
fn update_top_and_bottom_walls_flip_vy() {
    let mut top = particle(1500, 5, 0, -4, WHITE);
    top.update(CANVAS_W, CANVAS_H);
    assert_eq!((top.vy, top.y), (4, 9));

    let mut bottom = particle(1500, 1495, 0, 4, WHITE);
    bottom.update(CANVAS_W, CANVAS_H);
    assert_eq!((bottom.vy, bottom.y), (-4, 1491));
}

#[test]
fn distance_is_symmetric() {
    let a = particle(10, 20, 0, 0, WHITE);
    let b = particle(-300, 444, 0, 0, WHITE);
    assert_eq!(dist_sq(&a, &b), dist_sq(&b, &a));
    assert_eq!(dist_sq(&a, &b), 310 * 310 + 424 * 424);
}

#[test]
fn construction_is_deterministic() {
    let n = PARTICLE_COUNT * SAMPLES_PER_PARTICLE;
    let mut samples: Vec<u32> = Vec::new();
    for i in 0..n {
        samples.push((i as u32).wrapping_mul(0x9e37_79b9).rotate_left(7));
    }
    let once = ParticleField::new(&samples);
    let twice = ParticleField::new(&samples);
    assert_eq!(once, twice);
    assert_eq!(once.len(), PARTICLE_COUNT);
}

#[test]
fn construction_reads_seven_samples_per_particle() {
    let n = PARTICLE_COUNT * SAMPLES_PER_PARTICLE;
    let mut samples: Vec<u32> = vec![0; n];
    // Second particle: x 500 px, y 250 px, vx 3 of 6, vy -6, colors 254.
    samples[7] = 0x8000_0000;
    samples[8] = 0x8000_0000;
    samples[9] = 0xc000_0000;
    samples[10] = 0;
    samples[11] = u32::MAX;
    samples[12] = u32::MAX;
    samples[13] = u32::MAX;
    let field = ParticleField::new(&samples);

    let first = field.get(0);
    assert_eq!(first, particle(0, 0, -6, -6, Rgb { r: 0, g: 0, b: 0 }));
    let second = field.get(1);
    assert_eq!(second, particle(1500, 750, 3, -6, Rgb { r: 254, g: 254, b: 254 }));
    assert_eq!(second.size, 9);
    assert_eq!(second.color, WHITE);
}

#[test]
fn near_pair_draws_one_line_each_way() {
    // 100 pixels apart: one line per direction, alpha (180 - 100) / 180.
    let p0 = particle(0, 750, 0, 0, Rgb { r: 10, g: 20, b: 30 });
    let p1 = particle(300, 750, 0, 0, Rgb { r: 40, g: 50, b: 60 });
    let mut field = ParticleField::from_particles(vec![p0, p1]).unwrap();
    let frame = field.tick();

    let expected = vec![
        fade(),
        line(&p0, &p1, 90000),
        circle(&p0),
        line(&p1, &p0, 90000),
        circle(&p1),
    ];
    assert_eq!(frame, expected);

    // Zero velocity: both particles sit exactly where they started.
    assert_eq!((field.get(0).x, field.get(0).y), (0, 750));
    assert_eq!((field.get(1).x, field.get(1).y), (300, 750));

    let (num, den) = line_alpha(90000);
    assert_eq!((num, den), (240, 540));
    let alpha = num as f64 / den as f64;
    assert!((alpha - 0.444).abs() < 0.001);
}

#[test]
fn far_pair_draws_no_line() {
    // 200 pixels apart, beyond the 180-pixel threshold: no line either way.
    let p0 = particle(0, 750, 0, 0, WHITE);
    let p1 = particle(600, 750, 0, 0, WHITE);
    let mut field = ParticleField::from_particles(vec![p0, p1]).unwrap();
    let frame = field.tick();
    assert_eq!(frame, vec![fade(), circle(&p0), circle(&p1)]);
}

#[test]
fn pair_exactly_at_threshold_draws() {
    let p0 = particle(600, 750, 0, 0, WHITE);
    let p1 = particle(1140, 750, 0, 0, WHITE);
    let mut field = ParticleField::from_particles(vec![p0, p1]).unwrap();
    let frame = field.tick();
    assert_eq!(
        frame,
        vec![
            fade(),
            line(&p0, &p1, 291600),
            circle(&p0),
            line(&p1, &p0, 291600),
            circle(&p1),
        ]
    );
}

#[test]
fn later_rows_see_earlier_particles_already_moved() {
    // The pair starts 538 subunits apart, just inside the threshold, and the
    // first particle steps away as its row completes: the first row still
    // draws the line, the second row measures 544 and does not.
    let p0 = particle(300, 750, -6, 0, Rgb { r: 1, g: 2, b: 3 });
    let p1 = particle(838, 750, 0, 0, Rgb { r: 4, g: 5, b: 6 });
    let mut field = ParticleField::from_particles(vec![p0, p1]).unwrap();
    let frame = field.tick();

    let moved = particle(294, 750, -6, 0, Rgb { r: 1, g: 2, b: 3 });
    let expected = vec![
        fade(),
        line(&p0, &p1, 538 * 538),
        circle(&p0),
        circle(&p1),
    ];
    assert_eq!(frame, expected);
    assert_eq!(field.get(0), moved);
}

#[test]
fn empty_field_frame_is_just_the_fade() {
    let mut field = ParticleField::from_particles(Vec::new()).unwrap();
    assert_eq!(field.tick(), vec![fade()]);
    assert_eq!(field.len(), 0);
}

#[test]
fn from_particles_rejects_a_particle_far_outside() {
    let stray = particle(10000, 750, 0, 0, WHITE);
    assert!(ParticleField::from_particles(vec![stray]).is_none());
    let inert = particle(10, 750, 0, 0, WHITE);
    assert!(ParticleField::from_particles(vec![inert]).is_some());
}

#[test]
fn isqrt_rounds_down() {
    assert_eq!(isqrt(0), 0);
    assert_eq!(isqrt(1), 1);
    assert_eq!(isqrt(3), 1);
    assert_eq!(isqrt(4), 2);
    assert_eq!(isqrt(90000), 300);
    assert_eq!(isqrt(291599), 539);
    assert_eq!(isqrt(291600), 540);
}

#[test]
fn line_alpha_spans_full_range() {
    assert_eq!(line_alpha(0), (540, 540));
    assert_eq!(line_alpha(291600), (0, 540));
    let (num, den) = line_alpha(1);
    assert_eq!((num, den), (539, 540));
}
