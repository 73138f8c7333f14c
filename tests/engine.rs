use particle_sim::config::{BoundaryPolicy, Mode, Profile, SlotSeed};
use particle_sim::engine::{BuildError, Engine};
use particle_sim::scalar::Scalar;

#[derive(Clone, Copy, Debug, PartialEq)]
struct F(f64);

// Each `spec_` function names the operation of the same name.
impl Scalar for F {
    fn spec_ratio(num: i32, den: u32) -> F {
        F::ratio(num, den)
    }
    fn spec_from_u32(n: u32) -> F {
        F::from_u32(n)
    }
    fn spec_pi() -> F {
        F::pi()
    }
    fn spec_plus(self, other: F) -> F {
        self.plus(other)
    }
    fn spec_minus(self, other: F) -> F {
        self.minus(other)
    }
    fn spec_times(self, other: F) -> F {
        self.times(other)
    }
    fn spec_divided_by(self, other: F) -> F {
        self.divided_by(other)
    }
    fn spec_negated(self) -> F {
        self.negated()
    }
    fn spec_sqrt(self) -> F {
        Scalar::sqrt(self)
    }
    fn spec_sin(self) -> F {
        Scalar::sin(self)
    }
    fn spec_cos(self) -> F {
        Scalar::cos(self)
    }
    fn spec_less_than(self, other: F) -> bool {
        self.less_than(other)
    }

    fn ratio(num: i32, den: u32) -> F {
        F(num as f64 / den as f64)
    }
    fn from_u32(n: u32) -> F {
        F(n as f64)
    }
    fn pi() -> F {
        F(std::f64::consts::PI)
    }
    fn plus(self, other: F) -> F {
        F(self.0 + other.0)
    }
    fn minus(self, other: F) -> F {
        F(self.0 - other.0)
    }
    fn times(self, other: F) -> F {
        F(self.0 * other.0)
    }
    fn divided_by(self, other: F) -> F {
        F(self.0 / other.0)
    }
    fn negated(self) -> F {
        F(-self.0)
    }
    fn sqrt(self) -> F {
        F(self.0.sqrt())
    }
    fn sin(self) -> F {
        F(self.0.sin())
    }
    fn cos(self) -> F {
        F(self.0.cos())
    }
    fn less_than(self, other: F) -> bool {
        self.0 < other.0
    }
}

fn profile(boundary: BoundaryPolicy, slot_seed: SlotSeed) -> Profile {
    Profile { interaction_radius: 200, impulse_gain_percent: 80, boundary, slot_seed }
}

/// Builds an engine whose particles start at the given `[x, y, vx, vy, slot]`
/// values, by handing `new` the samples that map onto them.
fn engine_at(width: u32, height: u32, p: Profile, particles: &[[f64; 5]]) -> Engine<F> {
    let mut uniform = Vec::new();
    for q in particles {
        uniform.push(F(q[0] / width as f64));
        uniform.push(F(q[1] / height as f64));
        uniform.push(F(q[2] / 2.0 + 0.5));
        uniform.push(F(q[3] / 2.0 + 0.5));
        match p.slot_seed {
            SlotSeed::Mass => uniform.push(F((q[4] - 0.5) / 2.0)),
            SlotSeed::Phase => uniform.push(F(q[4] / (2.0 * std::f64::consts::PI))),
        }
    }
    let e = Engine::new(width, height, particles.len(), p, &uniform).unwrap();
    for (i, q) in particles.iter().enumerate() {
        for f in 0..5 {
            assert!(close(e.particles()[5 * i + f].0, q[f]), "particle {} value {}", i, f);
        }
    }
    e
}

fn values(e: &Engine<F>) -> Vec<f64> {
    e.particles().iter().map(|v| v.0).collect()
}

fn close(a: f64, b: f64) -> bool {
    (a - b).abs() <= 1e-9
}

#[test]
fn mode_numbers_select_rules() {
    assert_eq!(Mode::from_code(0), Mode::Repel);
    assert_eq!(Mode::from_code(1), Mode::PassThrough);
    assert_eq!(Mode::from_code(2), Mode::Entangle);
    assert_eq!(Mode::from_code(3), Mode::PassThrough);
    assert_eq!(Mode::from_code(u32::MAX), Mode::PassThrough);
}

#[test]
fn named_profiles() {
    let s = Profile::standard();
    assert_eq!(s.interaction_radius, 200);
    assert_eq!(s.impulse_gain_percent, 80);
    assert_eq!(s.boundary, BoundaryPolicy::ClampAndReflect);
    assert_eq!(s.slot_seed, SlotSeed::Mass);
    let g = Profile::gentle();
    assert_eq!(g.interaction_radius, 150);
    assert_eq!(g.impulse_gain_percent, 50);
    assert_eq!(g.boundary, BoundaryPolicy::ReflectOnly);
    assert_eq!(g.slot_seed, SlotSeed::Phase);
}

#[test]
fn new_rejects_unrepresentable_count() {
    let r = Engine::<F>::new(800, 600, usize::MAX / 5 + 1, Profile::standard(), &Vec::new());
    assert_eq!(r.err(), Some(BuildError::CountTooLarge));
    let r = Engine::<F>::new(800, 600, usize::MAX, Profile::standard(), &Vec::new());
    assert_eq!(r.err(), Some(BuildError::CountTooLarge));
}

#[test]
fn new_rejects_wrong_sample_count() {
    let uniform = vec![F(0.5); 9];
    let r = Engine::new(800, 600, 2, Profile::standard(), &uniform);
    assert_eq!(r.err(), Some(BuildError::SampleCountMismatch));
    let r = Engine::new(800, 600, 0, Profile::standard(), &uniform);
    assert_eq!(r.err(), Some(BuildError::SampleCountMismatch));
}

#[test]
fn new_maps_samples_to_ranges() {
    let uniform = vec![F(0.25), F(0.5), F(0.75), F(0.0), F(0.5)];
    let e = Engine::new(800, 600, 1, Profile::standard(), &uniform).unwrap();
    assert_eq!(values(&e), vec![200.0, 300.0, 0.5, -1.0, 1.5]);
    assert_eq!(e.width(), 800);
    assert_eq!(e.height(), 600);
    assert_eq!(e.count(), 1);
    assert_eq!(e.mode(), Mode::Repel);
    assert_eq!(e.profile(), Profile::standard());
    assert_eq!(e.pointer(), (F(-1000.0), F(-1000.0)));
    let e = Engine::new(800, 600, 1, Profile::gentle(), &uniform).unwrap();
    assert_eq!(values(&e)[4], std::f64::consts::PI);
}

#[test]
fn empty_engine_ticks_in_every_mode() {
    let mut e = Engine::<F>::new(800, 600, 0, Profile::standard(), &Vec::new()).unwrap();
    for code in 0..4 {
        e.set_mode(code);
        e.tick();
        assert!(e.particles().is_empty());
    }
}

#[test]
fn update_mouse_and_set_mode_store_values() {
    let mut e = engine_at(800, 600, Profile::standard(), &[[10.0, 20.0, 0.0, 0.0, 1.0]]);
    let start = values(&e);
    e.update_mouse(F(12.5), F(-3.0));
    assert_eq!(e.pointer(), (F(12.5), F(-3.0)));
    e.set_mode(2);
    assert_eq!(e.mode(), Mode::Entangle);
    e.set_mode(9);
    assert_eq!(e.mode(), Mode::PassThrough);
    assert_eq!(values(&e), start);
}

#[test]
fn idle_pointer_leaves_friction_alone() {
    let mut e = engine_at(800, 600, Profile::standard(), &[[400.0, 300.0, 0.5, -0.25, 1.0]]);
    e.tick();
    let v = values(&e);
    assert_eq!(v[0], 400.5);
    assert_eq!(v[1], 299.75);
    assert_eq!(v[2], 0.5 * 0.99);
    assert_eq!(v[3], -0.25 * 0.99);
    assert_eq!(v[4], 1.0);
    for _ in 1..100 {
        e.tick();
    }
    let v = values(&e);
    assert!(close(v[2], 0.5 * 0.99f64.powi(100)));
    assert!(close(v[3], -0.25 * 0.99f64.powi(100)));
}

#[test]
fn pointer_pushes_particle_away() {
    let mut e = engine_at(800, 600, Profile::standard(), &[[400.0, 300.0, 0.0, 0.0, 1.0]]);
    e.update_mouse(F(300.0), F(300.0));
    e.tick();
    let v = values(&e);
    // distance 100 of radius 200: force 0.5, impulse 0.5 * 0.8 along +x
    assert!(close(v[0], 400.4));
    assert_eq!(v[1], 300.0);
    assert!(close(v[2], 0.4 * 0.99));
    assert_eq!(v[3], 0.0);
}

#[test]
fn pointer_outside_radius_has_no_effect() {
    let mut e = engine_at(800, 600, Profile::gentle(), &[[400.0, 300.0, 0.0, 0.0, 1.0]]);
    e.update_mouse(F(200.0), F(300.0));
    e.tick();
    assert_eq!(values(&e), vec![400.0, 300.0, 0.0, 0.0, 1.0]);
}

#[test]
fn particle_under_pointer_stays_finite() {
    let mut e = engine_at(800, 600, Profile::standard(), &[[400.0, 300.0, 0.0, 0.0, 1.0]]);
    e.update_mouse(F(400.0), F(300.0));
    e.tick();
    let v = values(&e);
    assert!(v[2].is_finite() && v[3].is_finite());
    assert!(v[0].is_finite() && v[1].is_finite());
    assert_eq!(v, vec![400.0, 300.0, 0.0, 0.0, 1.0]);
}

#[test]
fn clamp_and_reflect_puts_particle_on_wall() {
    let p = profile(BoundaryPolicy::ClampAndReflect, SlotSeed::Mass);
    let mut e = engine_at(800, 512, p, &[[-50.0, 600.0, -3.0, 1.0, 1.0]]);
    e.tick();
    let v = values(&e);
    assert_eq!(v[0], 3.0);
    assert_eq!(v[1], 511.0);
    assert_eq!(v[2], 3.0 * 0.99);
    assert_eq!(v[3], -1.0 * 0.99);
}

#[test]
fn clamp_and_reflect_holds_after_move() {
    let p = profile(BoundaryPolicy::ClampAndReflect, SlotSeed::Mass);
    let mut e = engine_at(1024, 512, p, &[[-1.0, 10.0, 2.0, 0.0, 1.0], [1023.0, 10.0, 5.0, 0.0, 1.0]]);
    e.tick();
    let v = values(&e);
    // clamped to 0 with vx -2, moved to -2, clamped back to 0 with vx 2
    assert_eq!(v[0], 0.0);
    assert_eq!(v[2], 2.0 * 0.99);
    // moved from 1023 to 1028, clamped to 1024 with vx -5
    assert_eq!(v[5], 1024.0);
    assert_eq!(v[7], -5.0 * 0.99);
}

#[test]
fn reflect_only_leaves_position() {
    let p = profile(BoundaryPolicy::ReflectOnly, SlotSeed::Mass);
    let mut e = engine_at(800, 512, p, &[[-50.0, 600.0, -3.0, 1.0, 1.0]]);
    e.tick();
    let v = values(&e);
    assert_eq!(v[0], -47.0);
    assert_eq!(v[1], 599.0);
    assert_eq!(v[2], 3.0 * 0.99);
    assert_eq!(v[3], -1.0 * 0.99);
}

#[test]
fn clamped_particles_stay_in_bounds() {
    let p = profile(BoundaryPolicy::ClampAndReflect, SlotSeed::Mass);
    let start = [
        [-50.0, 10.0, -1.0, 0.5, 1.0],
        [900.0, 650.0, 0.75, 1.0, 1.0],
        [400.0, -5.0, 0.25, -0.5, 1.0],
    ];
    let mut e = engine_at(800, 600, p, &start);
    for _ in 0..200 {
        e.tick();
        let v = values(&e);
        for i in 0..3 {
            assert!(v[5 * i] >= 0.0 && v[5 * i] <= 800.0);
            assert!(v[5 * i + 1] >= 0.0 && v[5 * i + 1] <= 600.0);
        }
    }
}

#[test]
fn pass_through_coasts_and_decays() {
    let mut e = engine_at(800, 600, Profile::standard(), &[[-50.0, 300.0, -3.0, 0.5, 1.0]]);
    e.update_mouse(F(-50.0), F(310.0));
    e.set_mode(1);
    e.tick();
    assert_eq!(values(&e), vec![-53.0, 300.5, -3.0 * 0.99, 0.5 * 0.99, 1.0]);
    e.set_mode(7);
    e.tick();
    let v = values(&e);
    assert_eq!(v[0], -53.0 + -3.0 * 0.99);
}

#[test]
fn entangled_pair_first_tick() {
    let p = profile(BoundaryPolicy::ClampAndReflect, SlotSeed::Phase);
    let mut e = engine_at(800, 600, p, &[[400.0, 300.0, 0.0, 0.0, 0.0], [400.0, 300.0, 0.0, 0.0, 0.0]]);
    e.set_mode(2);
    e.tick();
    let v = values(&e);
    assert_eq!(v[4], 0.15);
    assert!(close(v[0], 400.0 + 25.0 * 0.15f64.cos()));
    assert!(close(v[1], 300.0 + 25.0 * 0.15f64.sin()));
    assert!(close(v[5], 400.0 - 25.0 * 0.15f64.cos()));
    assert!(close(v[6], 300.0 - 25.0 * 0.15f64.sin()));
    assert!(close((v[0] + v[5]) / 2.0, 400.0));
    assert!(close((v[1] + v[6]) / 2.0, 300.0));
    assert_eq!(v[9], 0.0);
}

#[test]
fn entangled_pairs_keep_diameter_and_center() {
    let p = profile(BoundaryPolicy::ClampAndReflect, SlotSeed::Phase);
    let start = [
        [100.0, 200.0, 0.5, -0.25, 1.0],
        [300.0, 50.0, -1.0, 0.75, 2.0],
        [1000.0, 10.0, 8.0, -6.0, 0.5],
        [1020.0, 30.0, 0.0, 0.0, 3.0],
    ];
    let mut e = engine_at(1024, 512, p, &start);
    e.set_mode(2);
    for _ in 0..60 {
        let before = values(&e);
        e.tick();
        let v = values(&e);
        for k in 0..2 {
            let (a, b) = (10 * k, 10 * k + 5);
            let mut cx = (before[a] + before[b]) * 0.5 + before[a + 2] * 0.5;
            let mut cy = (before[a + 1] + before[b + 1]) * 0.5 + before[a + 3] * 0.5;
            if cx < 0.0 {
                cx = 1024.0;
            } else if cx > 1024.0 {
                cx = 0.0;
            }
            if cy < 0.0 {
                cy = 512.0;
            } else if cy > 512.0 {
                cy = 0.0;
            }
            let d = ((v[a] - v[b]).powi(2) + (v[a + 1] - v[b + 1]).powi(2)).sqrt();
            assert!(close(d, 50.0));
            assert!(close((v[a] + v[b]) / 2.0, cx));
            assert!(close((v[a + 1] + v[b + 1]) / 2.0, cy));
            assert_eq!(v[a + 4], before[a + 4] + 0.15);
        }
    }
}

#[test]
fn entangled_center_wraps_to_opposite_edge() {
    let p = profile(BoundaryPolicy::ClampAndReflect, SlotSeed::Phase);
    let start = [[1020.0, 256.0, 16.0, 0.0, 0.0], [1024.0, 256.0, 0.0, 0.0, 0.0]];
    let mut e = engine_at(1024, 512, p, &start);
    e.set_mode(2);
    e.tick();
    let v = values(&e);
    // center 1022 + 8 = 1030 leaves on the right and comes back at 0
    assert!(close((v[0] + v[5]) / 2.0, 0.0));
    assert!(close((v[1] + v[6]) / 2.0, 256.0));
}

#[test]
fn partner_takes_lead_velocity() {
    let p = profile(BoundaryPolicy::ClampAndReflect, SlotSeed::Phase);
    let start = [
        [100.0, 200.0, 0.5, -0.25, 1.0],
        [300.0, 50.0, -1.0, 0.75, 2.0],
    ];
    let mut e = engine_at(1024, 512, p, &start);
    let slot = values(&e)[9];
    e.set_mode(2);
    for _ in 0..10 {
        e.tick();
        let v = values(&e);
        assert_eq!(v[7], v[2]);
        assert_eq!(v[8], v[3]);
        assert_eq!(v[2], 0.5);
        assert_eq!(v[3], -0.25);
        assert_eq!(v[9], slot);
    }
}

#[test]
fn odd_particle_is_left_out_of_pairs() {
    let p = profile(BoundaryPolicy::ClampAndReflect, SlotSeed::Phase);
    let start = [
        [100.0, 200.0, 0.5, -0.25, 1.0],
        [300.0, 50.0, -1.0, 0.75, 2.0],
        [512.0, 128.0, 1.0, 1.0, 3.0],
    ];
    let mut e = engine_at(1024, 512, p, &start);
    let last = values(&e)[10..15].to_vec();
    e.set_mode(2);
    for _ in 0..5 {
        e.tick();
        assert_eq!(values(&e)[10..15].to_vec(), last);
    }
    assert_eq!(e.particles().len(), 15);
}

#[test]
fn same_start_gives_same_frames() {
    let uniform: Vec<F> = (0..40).map(|i| F(((i * 37) % 101) as f64 / 101.0)).collect();
    let mut a = Engine::new(800, 600, 8, Profile::standard(), &uniform).unwrap();
    let mut b = Engine::new(800, 600, 8, Profile::standard(), &uniform).unwrap();
    for step in 0..90 {
        if step == 30 {
            a.set_mode(2);
            b.set_mode(2);
        }
        if step == 60 {
            a.set_mode(1);
            b.set_mode(1);
        }
        a.update_mouse(F(400.0 + step as f64), F(300.0));
        b.update_mouse(F(400.0 + step as f64), F(300.0));
        a.tick();
        b.tick();
        let (va, vb) = (values(&a), values(&b));
        for i in 0..va.len() {
            assert_eq!(va[i].to_bits(), vb[i].to_bits());
        }
    }
}
