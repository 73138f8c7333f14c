//! The particle engine: a flat buffer of particles and the per-frame step.
use vstd::prelude::*;

use crate::config::{
    mode_of, BoundaryPolicy, Mode, Profile, SlotSeed, FRICTION_PERCENT, ORBIT_RADIUS,
    PHASE_STEP_HUNDREDTHS, POINTER_AWAY,
};
use crate::scalar::Scalar;

verus! {

/// Values stored per particle: `x, y, vx, vy, slot`.
pub const STRIDE: usize = 5;

/// Offset of the horizontal position within a particle.
pub const X: usize = 0;

/// Offset of the vertical position within a particle.
pub const Y: usize = 1;

/// Offset of the horizontal velocity within a particle.
pub const VX: usize = 2;

/// Offset of the vertical velocity within a particle.
pub const VY: usize = 3;

/// Offset of the mode-dependent value (mass, or a pair's phase angle).
pub const SLOT: usize = 4;

/// Value `f` of particle `i` in a flat buffer.
pub open spec fn field<S>(buf: Seq<S>, i: int, f: int) -> S {
    buf[5 * i + f]
}

/// Value `f` of the first particle (index `2k`) of entangled pair `k`.
pub open spec fn lead<S>(buf: Seq<S>, k: int, f: int) -> S {
    buf[10 * k + f]
}

/// Value `f` of the second particle (index `2k + 1`) of entangled pair `k`.
pub open spec fn partner<S>(buf: Seq<S>, k: int, f: int) -> S {
    buf[10 * k + 5 + f]
}

/// Every value of every entangled pair `k < count / 2` lies inside a buffer
/// of `5 × count` values, and with an odd count no pair reaches the last
/// particle.
pub proof fn lemma_pairs_in_bounds(count: nat, k: int, f: int)
    requires
        0 <= k < count / 2,
        0 <= f < 2 * STRIDE,
    ensures
        0 <= 10 * k + f < STRIDE * count,
        count % 2 == 1 ==> 10 * k + f < STRIDE * (count - 1),
{
}

/// Why an engine could not be built.
#[derive(Clone, Copy, Debug, PartialEq, Eq, Structural)]
pub enum BuildError {
    /// `5 × count` values do not fit in memory's address range.
    CountTooLarge,
    /// The number of uniform samples handed in is not `5 × count`.
    SampleCountMismatch,
}

/// The simulation: bounds, pointer, mode, profile and the particle buffer.
pub struct Engine<S: Scalar> {
    width: u32,
    height: u32,
    count: usize,
    particles: Vec<S>,
    mouse_x: S,
    mouse_y: S,
    mode: Mode,
    profile: Profile,
}

/// The wall rule on one axis: a position below `zero` or above `bound` has
/// its velocity inverted and, with `clamp`, is put on that wall.
pub open spec fn wall<S: Scalar>(p: S, v: S, zero: S, bound: S, clamp: bool) -> (S, S) {
    let low = if p.spec_less_than(zero) {
        (if clamp { zero } else { p }, v.spec_negated())
    } else {
        (p, v)
    };
    if bound.spec_less_than(low.0) {
        (if clamp { bound } else { low.0 }, low.1.spec_negated())
    } else {
        low
    }
}

/// Velocity `v` on one axis after the pointer's push, where `d` is the
/// particle's offset from the pointer on that axis and `dist` its distance:
/// `v + (d / dist) · ((radius − dist) / radius) · gain` when
/// `0 < dist < radius`, and `v` otherwise.
pub open spec fn pushed<S: Scalar>(v: S, d: S, dist: S, radius: S, gain: S, zero: S) -> S {
    if zero.spec_less_than(dist) && dist.spec_less_than(radius) {
        v.spec_plus(
            d.spec_divided_by(dist).spec_times(
                radius.spec_minus(dist).spec_divided_by(radius),
            ).spec_times(gain),
        )
    } else {
        v
    }
}

/// One frame of a single particle `(x, y, vx, vy)` in mode 0 (`push` set)
/// or mode 1 (`push` clear). Mode 0: the pointer's push, the wall rule of
/// the profile, the move, and under clamp-and-reflect the wall rule once
/// more, so that the position ends inside the bounds; then friction. Mode 1:
/// the move and friction alone.
pub open spec fn particle_step<S: Scalar>(
    x: S,
    y: S,
    vx: S,
    vy: S,
    pointer: (S, S),
    width: u32,
    height: u32,
    profile: Profile,
    push: bool,
) -> (S, S, S, S) {
    let zero = S::spec_from_u32(0);
    let hundred = S::spec_from_u32(100);
    let friction = S::spec_from_u32(FRICTION_PERCENT).spec_divided_by(hundred);
    if push {
        let w = S::spec_from_u32(width);
        let h = S::spec_from_u32(height);
        let radius = S::spec_from_u32(profile.interaction_radius);
        let gain = S::spec_from_u32(profile.impulse_gain_percent).spec_divided_by(hundred);
        let dx = x.spec_minus(pointer.0);
        let dy = y.spec_minus(pointer.1);
        let dist = dx.spec_times(dx).spec_plus(dy.spec_times(dy)).spec_sqrt();
        let clamp = profile.boundary == BoundaryPolicy::ClampAndReflect;
        let hx = wall(x, pushed(vx, dx, dist, radius, gain, zero), zero, w, clamp);
        let hy = wall(y, pushed(vy, dy, dist, radius, gain, zero), zero, h, clamp);
        let mx = if clamp {
            wall(hx.0.spec_plus(hx.1), hx.1, zero, w, true)
        } else {
            (hx.0.spec_plus(hx.1), hx.1)
        };
        let my = if clamp {
            wall(hy.0.spec_plus(hy.1), hy.1, zero, h, true)
        } else {
            (hy.0.spec_plus(hy.1), hy.1)
        };
        (mx.0, my.0, mx.1.spec_times(friction), my.1.spec_times(friction))
    } else {
        (x.spec_plus(vx), y.spec_plus(vy), vx.spec_times(friction), vy.spec_times(friction))
    }
}

/// Particle `i` of `next` is particle `i` of `prev` after one frame of
/// mode 0 or 1: position and velocity as `particle_step` gives them, and
/// the slot unchanged.
pub open spec fn particle_ticked<S: Scalar>(
    prev: Seq<S>,
    next: Seq<S>,
    i: int,
    pointer: (S, S),
    width: u32,
    height: u32,
    profile: Profile,
    mode: Mode,
) -> bool {
    let s = particle_step(
        field(prev, i, X as int),
        field(prev, i, Y as int),
        field(prev, i, VX as int),
        field(prev, i, VY as int),
        pointer,
        width,
        height,
        profile,
        mode == Mode::Repel,
    );
    &&& field(next, i, X as int) == s.0
    &&& field(next, i, Y as int) == s.1
    &&& field(next, i, VX as int) == s.2
    &&& field(next, i, VY as int) == s.3
    &&& field(next, i, SLOT as int) == field(prev, i, SLOT as int)
}

/// Screen wrap of one center coordinate: below `zero` it comes back at
/// `bound`, above `bound` at `zero`.
pub open spec fn wrap<S: Scalar>(c: S, zero: S, bound: S) -> S {
    if c.spec_less_than(zero) {
        bound
    } else if bound.spec_less_than(c) {
        zero
    } else {
        c
    }
}

/// The center of pair `k` for the next frame: the midpoint of both
/// particles' positions, drifted by half the first particle's velocity,
/// wrapped into the bounds.
pub open spec fn pair_center<S: Scalar>(buf: Seq<S>, k: int, width: u32, height: u32) -> (S, S) {
    let zero = S::spec_from_u32(0);
    let half = S::spec_ratio(1, 2);
    let cx = lead(buf, k, X as int).spec_plus(partner(buf, k, X as int)).spec_times(half).spec_plus(
        lead(buf, k, VX as int).spec_times(half),
    );
    let cy = lead(buf, k, Y as int).spec_plus(partner(buf, k, Y as int)).spec_times(half).spec_plus(
        lead(buf, k, VY as int).spec_times(half),
    );
    (wrap(cx, zero, S::spec_from_u32(width)), wrap(cy, zero, S::spec_from_u32(height)))
}

/// The phase angle of pair `k` for the next frame: the first particle's
/// slot advanced by the per-frame step.
pub open spec fn pair_angle<S: Scalar>(buf: Seq<S>, k: int) -> S {
    lead(buf, k, SLOT as int).spec_plus(S::spec_ratio(PHASE_STEP_HUNDREDTHS, 100))
}

/// The offset `radius · (cos θ, sin θ)` of pair `k`'s first particle from
/// its center for the next frame.
pub open spec fn pair_offset<S: Scalar>(buf: Seq<S>, k: int) -> (S, S) {
    let r = S::spec_from_u32(ORBIT_RADIUS);
    let a = pair_angle(buf, k);
    (r.spec_times(a.spec_cos()), r.spec_times(a.spec_sin()))
}

/// Pair `k` of `next` is pair `k` of `prev` after one frame of mode 2: the
/// first particle at center + offset with the advanced angle, the second at
/// center − offset; both with the first particle's velocity; the second's
/// slot unchanged.
pub open spec fn pair_ticked<S: Scalar>(
    prev: Seq<S>,
    next: Seq<S>,
    k: int,
    width: u32,
    height: u32,
) -> bool {
    let c = pair_center(prev, k, width, height);
    let o = pair_offset(prev, k);
    &&& lead(next, k, X as int) == c.0.spec_plus(o.0)
    &&& lead(next, k, Y as int) == c.1.spec_plus(o.1)
    &&& lead(next, k, VX as int) == lead(prev, k, VX as int)
    &&& lead(next, k, VY as int) == lead(prev, k, VY as int)
    &&& lead(next, k, SLOT as int) == pair_angle(prev, k)
    &&& partner(next, k, X as int) == c.0.spec_minus(o.0)
    &&& partner(next, k, Y as int) == c.1.spec_minus(o.1)
    &&& partner(next, k, VX as int) == lead(prev, k, VX as int)
    &&& partner(next, k, VY as int) == lead(prev, k, VY as int)
    &&& partner(next, k, SLOT as int) == partner(prev, k, SLOT as int)
}

fn wall_axis<S: Scalar>(p: S, v: S, zero: S, bound: S, clamp: bool) -> (r: (S, S))
    ensures
        r == wall(p, v, zero, bound, clamp),
{
    let mut p = p;
    let mut v = v;
    if p.less_than(zero) {
        if clamp {
            p = zero;
        }
        v = v.negated();
    }
    if bound.less_than(p) {
        if clamp {
            p = bound;
        }
        v = v.negated();
    }
    (p, v)
}

fn pushed_axis<S: Scalar>(v: S, d: S, dist: S, radius: S, gain: S, zero: S) -> (r: S)
    ensures
        r == pushed(v, d, dist, radius, gain, zero),
{
    // A particle exactly under the pointer has no direction to be pushed
    // in, so it gets no impulse.
    if zero.less_than(dist) && dist.less_than(radius) {
        let force = radius.minus(dist).divided_by(radius);
        v.plus(d.divided_by(dist).times(force).times(gain))
    } else {
        v
    }
}

/// Advances the particle at `base` by one frame of mode 0 (`push` set) or
/// mode 1 (any other `mode`). Only position and velocity are written.
fn step_particle<S: Scalar>(
    buf: &mut Vec<S>,
    i: usize,
    pointer: (S, S),
    width: u32,
    height: u32,
    profile: Profile,
    mode: Mode,
)
    requires
        5 * i + SLOT < old(buf)@.len() <= usize::MAX,
    ensures
        final(buf)@.len() == old(buf)@.len(),
        forall|j: int|
            0 <= j < old(buf)@.len() && !(5 * i <= j < 5 * i + STRIDE) ==> #[trigger] final(buf)@[j]
                == old(buf)@[j],
        particle_ticked(old(buf)@, final(buf)@, i as int, pointer, width, height, profile, mode),
{
    let push = mode == Mode::Repel;
    let base = i * STRIDE;
    let x = buf[base + X];
    let y = buf[base + Y];
    let vx = buf[base + VX];
    let vy = buf[base + VY];
    let zero = S::from_u32(0);
    let hundred = S::from_u32(100);
    let friction = S::from_u32(FRICTION_PERCENT).divided_by(hundred);
    let (x, y, vx, vy) = if push {
        let w = S::from_u32(width);
        let h = S::from_u32(height);
        let radius = S::from_u32(profile.interaction_radius);
        let gain = S::from_u32(profile.impulse_gain_percent).divided_by(hundred);
        let dx = x.minus(pointer.0);
        let dy = y.minus(pointer.1);
        let dist = dx.times(dx).plus(dy.times(dy)).sqrt();
        let clamp = profile.boundary == BoundaryPolicy::ClampAndReflect;
        let hx = wall_axis(x, pushed_axis(vx, dx, dist, radius, gain, zero), zero, w, clamp);
        let hy = wall_axis(y, pushed_axis(vy, dy, dist, radius, gain, zero), zero, h, clamp);
        let mx = if clamp {
            wall_axis(hx.0.plus(hx.1), hx.1, zero, w, true)
        } else {
            (hx.0.plus(hx.1), hx.1)
        };
        let my = if clamp {
            wall_axis(hy.0.plus(hy.1), hy.1, zero, h, true)
        } else {
            (hy.0.plus(hy.1), hy.1)
        };
        (mx.0, my.0, mx.1.times(friction), my.1.times(friction))
    } else {
        (x.plus(vx), y.plus(vy), vx.times(friction), vy.times(friction))
    };
    buf.set(base + X, x);
    buf.set(base + Y, y);
    buf.set(base + VX, vx);
    buf.set(base + VY, vy);
}

fn wrap_axis<S: Scalar>(c: S, zero: S, bound: S) -> (r: S)
    ensures
        r == wrap(c, zero, bound),
{
    if c.less_than(zero) {
        bound
    } else if bound.less_than(c) {
        zero
    } else {
        c
    }
}

/// Advances entangled pair `k` by one frame of mode 2.
fn entangle_pair<S: Scalar>(buf: &mut Vec<S>, k: usize, width: u32, height: u32)
    requires
        10 * k + 2 * STRIDE <= old(buf)@.len() <= usize::MAX,
    ensures
        final(buf)@.len() == old(buf)@.len(),
        forall|j: int|
            0 <= j < old(buf)@.len() && !(10 * k <= j < 10 * k + 2 * STRIDE) ==> #[trigger] final(buf)@[j]
                == old(buf)@[j],
        pair_ticked(old(buf)@, final(buf)@, k as int, width, height),
{
    let a = k * 10;
    let b = a + STRIDE;
    let zero = S::from_u32(0);
    let half = S::ratio(1, 2);
    let avx = buf[a + VX];
    let avy = buf[a + VY];
    // Midpoint of where the two particles stand now, drifted by half of the
    // first particle's velocity.
    let cx = buf[a + X].plus(buf[b + X]).times(half).plus(avx.times(half));
    let cy = buf[a + Y].plus(buf[b + Y]).times(half).plus(avy.times(half));
    let cx = wrap_axis(cx, zero, S::from_u32(width));
    let cy = wrap_axis(cy, zero, S::from_u32(height));
    let angle = buf[a + SLOT].plus(S::ratio(PHASE_STEP_HUNDREDTHS, 100));
    let r = S::from_u32(ORBIT_RADIUS);
    let ox = r.times(angle.cos());
    let oy = r.times(angle.sin());
    buf.set(a + X, cx.plus(ox));
    buf.set(a + Y, cy.plus(oy));
    buf.set(a + SLOT, angle);
    buf.set(b + X, cx.minus(ox));
    buf.set(b + Y, cy.minus(oy));
    buf.set(b + VX, avx);
    buf.set(b + VY, avy);
}

/// Value `f` of particle `i` as seeded from its sample `u` in `uniform`:
/// `u · width` and `u · height` for the position, `(u − ½) · 2` for each
/// velocity component, and for the slot `u · 2 + ½` (a mass) or `u · 2π`
/// (a phase).
pub open spec fn seeded<S: Scalar>(
    uniform: Seq<S>,
    i: int,
    f: int,
    width: u32,
    height: u32,
    seed: SlotSeed,
) -> S {
    let u = field(uniform, i, f);
    let half = S::spec_ratio(1, 2);
    let two = S::spec_from_u32(2);
    if f == X as int {
        u.spec_times(S::spec_from_u32(width))
    } else if f == Y as int {
        u.spec_times(S::spec_from_u32(height))
    } else if f == VX as int || f == VY as int {
        u.spec_minus(half).spec_times(two)
    } else {
        match seed {
            SlotSeed::Mass => u.spec_times(two).spec_plus(half),
            SlotSeed::Phase => u.spec_times(S::spec_pi().spec_times(two)).spec_plus(S::spec_from_u32(0)),
        }
    }
}

impl<S: Scalar> Engine<S> {
    /// Width of the simulated area.
    pub closed spec fn spec_width(&self) -> u32 {
        self.width
    }

    /// Height of the simulated area.
    pub closed spec fn spec_height(&self) -> u32 {
        self.height
    }

    /// Number of particles, fixed for the engine's life.
    pub closed spec fn spec_count(&self) -> nat {
        self.count as nat
    }

    /// The particle buffer: `x, y, vx, vy, slot` of each particle in turn.
    pub closed spec fn buffer(&self) -> Seq<S> {
        self.particles@
    }

    /// The pointer position that the next tick reacts to.
    pub closed spec fn spec_pointer(&self) -> (S, S) {
        (self.mouse_x, self.mouse_y)
    }

    pub closed spec fn spec_mode(&self) -> Mode {
        self.mode
    }

    pub closed spec fn spec_profile(&self) -> Profile {
        self.profile
    }

    /// The buffer holds exactly five values per particle.
    pub open spec fn wf(&self) -> bool {
        self.buffer().len() == STRIDE * self.spec_count()
    }

    /// Both engines hold the same bounds, count, buffer, pointer, mode and
    /// profile.
    pub open spec fn same_state(self, other: Self) -> bool {
        &&& self.spec_width() == other.spec_width()
        &&& self.spec_height() == other.spec_height()
        &&& self.spec_count() == other.spec_count()
        &&& self.buffer() == other.buffer()
        &&& self.spec_pointer() == other.spec_pointer()
        &&& self.spec_mode() == other.spec_mode()
        &&& self.spec_profile() == other.spec_profile()
    }

    /// The buffer holds, for each particle, the values that `seeded` maps
    /// its five samples in `uniform` to.
    pub open spec fn seeded_from(&self, uniform: Seq<S>) -> bool {
        forall|i: int, f: int|
            0 <= i < self.spec_count() && 0 <= f < STRIDE ==> #[trigger] field(self.buffer(), i, f)
                == seeded(uniform, i, f, self.spec_width(), self.spec_height(), self.spec_profile().slot_seed)
    }

    /// `next` is this engine one frame later. Bounds, count, pointer, mode
    /// and profile stay; in modes 0 and 1 every particle moves as
    /// `particle_step` says; in mode 2 every pair moves as `pair_ticked`
    /// says and, with an odd count, the last particle stays as it was.
    pub open spec fn ticked(self, next: Self) -> bool {
        let p = self.buffer();
        let q = next.buffer();
        let n = self.spec_count();
        let w = self.spec_width();
        let h = self.spec_height();
        &&& next.wf()
        &&& next.spec_width() == w
        &&& next.spec_height() == h
        &&& next.spec_count() == n
        &&& next.spec_pointer() == self.spec_pointer()
        &&& next.spec_mode() == self.spec_mode()
        &&& next.spec_profile() == self.spec_profile()
        &&& q.len() == p.len()
        &&& self.spec_mode() != Mode::Entangle ==> forall|i: int|
            0 <= i < n ==> #[trigger] particle_ticked(
                p,
                q,
                i,
                self.spec_pointer(),
                w,
                h,
                self.spec_profile(),
                self.spec_mode(),
            )
        &&& self.spec_mode() == Mode::Entangle ==> forall|k: int|
            0 <= k < n / 2 ==> #[trigger] pair_ticked(p, q, k, w, h)
        &&& self.spec_mode() == Mode::Entangle && n % 2 == 1 ==> forall|f: int|
            0 <= f < STRIDE ==> #[trigger] field(q, n - 1, f) == field(p, n - 1, f)
    }

    /// Builds an engine over `width × height` with `count` particles, seeded
    /// from `uniform`: five samples per particle, each drawn uniformly from
    /// `[0, 1)`. A particle's samples give its position in the area, each
    /// velocity component in `[-1, 1)`, and its slot as the profile's
    /// `slot_seed` asks (a mass in `[0.5, 2.5)` or a phase in `[0, 2π)`).
    /// The engine starts in mode 0 with the pointer far off the canvas.
    pub fn new(width: u32, height: u32, count: usize, profile: Profile, uniform: &Vec<S>) -> (r:
        Result<Engine<S>, BuildError>)
        ensures
            STRIDE * count > usize::MAX ==> r == Err::<Engine<S>, BuildError>(
                BuildError::CountTooLarge,
            ),
            STRIDE * count <= usize::MAX && uniform@.len() != STRIDE * count ==> r == Err::<
                Engine<S>,
                BuildError,
            >(BuildError::SampleCountMismatch),
            STRIDE * count <= usize::MAX && uniform@.len() == STRIDE * count ==> r is Ok,
            r matches Ok(e) ==> {
                &&& e.wf()
                &&& e.spec_width() == width
                &&& e.spec_height() == height
                &&& e.spec_count() == count
                &&& e.spec_mode() == Mode::Repel
                &&& e.spec_profile() == profile
                &&& e.spec_pointer() == (S::spec_ratio(POINTER_AWAY, 1), S::spec_ratio(POINTER_AWAY, 1))
                &&& e.seeded_from(uniform@)
            },
    {
        if count > usize::MAX / STRIDE {
            return Err(BuildError::CountTooLarge);
        }
        let len = count * STRIDE;
        if uniform.len() != len {
            return Err(BuildError::SampleCountMismatch);
        }
        let w = S::from_u32(width);
        let h = S::from_u32(height);
        let half = S::ratio(1, 2);
        let two = S::from_u32(2);
        let slot_scale = match profile.slot_seed {
            SlotSeed::Mass => two,
            SlotSeed::Phase => S::pi().times(two),
        };
        let slot_offset = match profile.slot_seed {
            SlotSeed::Mass => half,
            SlotSeed::Phase => S::from_u32(0),
        };
        let mut particles: Vec<S> = Vec::with_capacity(len);
        let mut base: usize = 0;
        let mut i: usize = 0;
        while base < len
            invariant
                len == 5 * count,
                uniform@.len() == len,
                base == 5 * i,
                i <= count,
                particles@.len() == base,
                w == S::spec_from_u32(width),
                h == S::spec_from_u32(height),
                half == S::spec_ratio(1, 2),
                two == S::spec_from_u32(2),
                slot_scale == match profile.slot_seed {
                    SlotSeed::Mass => two,
                    SlotSeed::Phase => S::spec_pi().spec_times(two),
                },
                slot_offset == match profile.slot_seed {
                    SlotSeed::Mass => half,
                    SlotSeed::Phase => S::spec_from_u32(0),
                },
                forall|j: int, f: int|
                    0 <= j < i && 0 <= f < STRIDE ==> #[trigger] field(particles@, j, f) == seeded(
                        uniform@,
                        j,
                        f,
                        width,
                        height,
                        profile.slot_seed,
                    ),
            decreases len - base,
        {
            let ghost before = particles@;
            particles.push(uniform[base + X].times(w));
            particles.push(uniform[base + Y].times(h));
            particles.push(uniform[base + VX].minus(half).times(two));
            particles.push(uniform[base + VY].minus(half).times(two));
            particles.push(uniform[base + SLOT].times(slot_scale).plus(slot_offset));
            proof {
                assert forall|j: int, f: int| 0 <= j < i + 1 && 0 <= f < STRIDE implies #[trigger] field(
                    particles@,
                    j,
                    f,
                ) == seeded(uniform@, j, f, width, height, profile.slot_seed) by {
                    if j < i {
                        assert(particles@[5 * j + f] == before[5 * j + f]);
                        assert(field(before, j, f) == seeded(uniform@, j, f, width, height, profile.slot_seed));
                    }
                }
            }
            base = base + STRIDE;
            i = i + 1;
        }
        let away = S::ratio(POINTER_AWAY, 1);
        Ok(Engine {
            width,
            height,
            count,
            particles,
            mouse_x: away,
            mouse_y: away,
            mode: Mode::Repel,
            profile,
        })
    }

    /// Moves the pointer that the next tick reacts to; nothing else changes.
    pub fn update_mouse(&mut self, x: S, y: S)
        ensures
            final(self).spec_pointer() == (x, y),
            final(self).buffer() == old(self).buffer(),
            final(self).spec_width() == old(self).spec_width(),
            final(self).spec_height() == old(self).spec_height(),
            final(self).spec_count() == old(self).spec_count(),
            final(self).spec_mode() == old(self).spec_mode(),
            final(self).spec_profile() == old(self).spec_profile(),
    {
        self.mouse_x = x;
        self.mouse_y = y;
    }

    /// Selects the rule of the next ticks by its number: 0 repels, 2
    /// entangles pairs, and any other number coasts. Nothing else changes.
    pub fn set_mode(&mut self, code: u32)
        ensures
            final(self).spec_mode() == mode_of(code),
            final(self).buffer() == old(self).buffer(),
            final(self).spec_pointer() == old(self).spec_pointer(),
            final(self).spec_width() == old(self).spec_width(),
            final(self).spec_height() == old(self).spec_height(),
            final(self).spec_count() == old(self).spec_count(),
            final(self).spec_profile() == old(self).spec_profile(),
    {
        self.mode = Mode::from_code(code);
    }

    /// Advances every particle by one frame under the active mode: the
    /// transition that `ticked` describes. Every read and write stays inside
    /// the buffer of `5 × count` values, whose length never changes.
    pub fn tick(&mut self)
        requires
            old(self).wf(),
        ensures
            old(self).ticked(*final(self)),
    {
        let ghost start = self.particles@;
        let len = self.particles.len();
        let width = self.width;
        let height = self.height;
        match self.mode {
            Mode::Entangle => {
                let pairs = self.count / 2;
                let mut k: usize = 0;
                while k < pairs
                    invariant
                        self.width == old(self).width,
                        self.height == old(self).height,
                        self.count == old(self).count,
                        self.mouse_x == old(self).mouse_x,
                        self.mouse_y == old(self).mouse_y,
                        self.mode == old(self).mode,
                        self.profile == old(self).profile,
                        width == self.width,
                        height == self.height,
                        len == start.len(),
                        len == 5 * self.count,
                        pairs == self.count / 2,
                        k <= pairs,
                        self.particles@.len() == len,
                        forall|j: int| 10 * k <= j < len ==> #[trigger] self.particles@[j] == start[j],
                        forall|m: int|
                            0 <= m < k ==> #[trigger] pair_ticked(start, self.particles@, m, width, height),
                    decreases pairs - k,
                {
                    let ghost before = self.particles@;
                    entangle_pair(&mut self.particles, k, width, height);
                    proof {
                        assert forall|m: int| 0 <= m < k + 1 implies #[trigger] pair_ticked(
                            start,
                            self.particles@,
                            m,
                            width,
                            height,
                        ) by {
                            if m < k {
                                assert(pair_ticked(start, before, m, width, height));
                            }
                        }
                    }
                    k = k + 1;
                }
            },
            _ => {
                let pointer = (self.mouse_x, self.mouse_y);
                let profile = self.profile;
                let mode = self.mode;
                let mut i: usize = 0;
                while i < self.count
                    invariant
                        self.width == old(self).width,
                        self.height == old(self).height,
                        self.count == old(self).count,
                        self.mouse_x == old(self).mouse_x,
                        self.mouse_y == old(self).mouse_y,
                        self.mode == old(self).mode,
                        self.profile == old(self).profile,
                        width == self.width,
                        height == self.height,
                        len == start.len(),
                        len == 5 * self.count,
                        i <= self.count,
                        pointer == (self.mouse_x, self.mouse_y),
                        profile == self.profile,
                        mode == self.mode,
                        self.particles@.len() == len,
                        forall|j: int| 5 * i <= j < len ==> #[trigger] self.particles@[j] == start[j],
                        forall|j: int|
                            0 <= j < i ==> #[trigger] particle_ticked(
                                start,
                                self.particles@,
                                j,
                                pointer,
                                width,
                                height,
                                profile,
                                mode,
                            ),
                    decreases self.count - i,
                {
                    let ghost before = self.particles@;
                    step_particle(&mut self.particles, i, pointer, width, height, profile, mode);
                    proof {
                        assert forall|j: int| 0 <= j < i + 1 implies #[trigger] particle_ticked(
                            start,
                            self.particles@,
                            j,
                            pointer,
                            width,
                            height,
                            profile,
                            mode,
                        ) by {
                            if j < i {
                                assert(particle_ticked(start, before, j, pointer, width, height, profile, mode));
                            }
                        }
                    }
                    i = i + 1;
                }
            },
        }
    }

    /// The particle buffer, five values per particle in index order, for the
    /// renderer to read in place.
    pub fn particles(&self) -> (r: &Vec<S>)
        ensures
            r@ == self.buffer(),
    {
        &self.particles
    }

    pub fn width(&self) -> (r: u32)
        ensures
            r == self.spec_width(),
    {
        self.width
    }

    pub fn height(&self) -> (r: u32)
        ensures
            r == self.spec_height(),
    {
        self.height
    }

    pub fn count(&self) -> (r: usize)
        ensures
            r == self.spec_count(),
    {
        self.count
    }

    pub fn mode(&self) -> (r: Mode)
        ensures
            r == self.spec_mode(),
    {
        self.mode
    }

    pub fn profile(&self) -> (r: Profile)
        ensures
            r == self.spec_profile(),
    {
        self.profile
    }

    pub fn pointer(&self) -> (r: (S, S))
        ensures
            r == self.spec_pointer(),
    {
        (self.mouse_x, self.mouse_y)
    }
}

/// A frame depends on the engine's state alone: two engines in the same
/// state are, after one tick each, again in the same state, so any number
/// of ticks keeps them equal.
pub proof fn lemma_tick_deterministic<S: Scalar>(
    a: Engine<S>,
    b: Engine<S>,
    a_next: Engine<S>,
    b_next: Engine<S>,
)
    requires
        a.wf(),
        a.same_state(b),
        a.ticked(a_next),
        b.ticked(b_next),
    ensures
        a_next.same_state(b_next),
{
    let p = a.buffer();
    let q1 = a_next.buffer();
    let q2 = b_next.buffer();
    let n = a.spec_count();
    assert forall|j: int| 0 <= j < q1.len() implies q1[j] == q2[j] by {
        if a.spec_mode() != Mode::Entangle {
            let i = j / 5;
            assert(j == 5 * i + j % 5);
            assert(particle_ticked(p, q1, i, a.spec_pointer(), a.spec_width(), a.spec_height(), a.spec_profile(), a.spec_mode()));
            assert(particle_ticked(p, q2, i, a.spec_pointer(), a.spec_width(), a.spec_height(), a.spec_profile(), a.spec_mode()));
        } else if j < 10 * (n / 2) {
            let k = j / 10;
            assert(j == 10 * k + j % 10);
            assert(pair_ticked(p, q1, k, a.spec_width(), a.spec_height()));
            assert(pair_ticked(p, q2, k, a.spec_width(), a.spec_height()));
        } else {
            assert(n % 2 == 1);
            assert(field(q1, n - 1, j - 5 * (n - 1)) == field(p, n - 1, j - 5 * (n - 1)));
            assert(field(q2, n - 1, j - 5 * (n - 1)) == field(p, n - 1, j - 5 * (n - 1)));
        }
    }
    assert(q1 =~= q2);
}

} // verus!
