//! Behaviour modes and the tunable profile of the simulation.
use vstd::prelude::*;

verus! {

/// The force rule applied on each tick.
#[derive(Clone, Copy, Debug, PartialEq, Eq, Structural)]
pub enum Mode {
    /// Pointer repulsion with wall handling.
    Repel,
    /// No force rule: particles coast and decay.
    PassThrough,
    /// Pairs `(2k, 2k + 1)` orbit a shared, drifting center.
    Entangle,
}

/// The mode that a host's mode number selects: 0, 1 and 2 name the three
/// rules, and any other number falls back to pass-through.
pub open spec fn mode_of(code: u32) -> Mode {
    if code == 0 {
        Mode::Repel
    } else if code == 2 {
        Mode::Entangle
    } else {
        Mode::PassThrough
    }
}

impl Mode {
    pub fn from_code(code: u32) -> (r: Mode)
        ensures
            r == mode_of(code),
    {
        if code == 0 {
            Mode::Repel
        } else if code == 2 {
            Mode::Entangle
        } else {
            Mode::PassThrough
        }
    }
}

} // verus!

verus! {

/// What the mode-0 wall check does to a particle found outside the bounds.
#[derive(Clone, Copy, Debug, PartialEq, Eq, Structural)]
pub enum BoundaryPolicy {
    /// Invert the velocity component; the position is left as it is.
    ReflectOnly,
    /// Put the position back on the wall and invert the velocity component,
    /// both before the move and once more after it, so that every position
    /// ends the frame inside the bounds.
    ClampAndReflect,
}

/// How the fifth value of each particle is seeded at construction.
#[derive(Clone, Copy, Debug, PartialEq, Eq, Structural)]
pub enum SlotSeed {
    /// A cosmetic mass in `[0.5, 2.5)`, never read by the physics.
    Mass,
    /// A phase angle in `[0, 2π)`, the pair's angle in entanglement mode.
    Phase,
}

/// The tunable part of the simulation.
#[derive(Clone, Copy, Debug, PartialEq, Eq, Structural)]
pub struct Profile {
    /// Distance from the pointer within which a particle is pushed away.
    pub interaction_radius: u32,
    /// Strength of the push, in hundredths of a unit of velocity per frame.
    pub impulse_gain_percent: u32,
    pub boundary: BoundaryPolicy,
    pub slot_seed: SlotSeed,
}

/// Velocity kept from one frame to the next, in hundredths.
pub const FRICTION_PERCENT: u32 = 99;

/// Phase added to an entangled pair's angle each frame, in hundredths of a
/// radian.
pub const PHASE_STEP_HUNDREDTHS: i32 = 15;

/// Distance of each entangled particle from its pair's center.
pub const ORBIT_RADIUS: u32 = 25;

/// Pointer coordinate used until the host reports one: far off the canvas,
/// so that nothing is pushed before the pointer first moves.
pub const POINTER_AWAY: i32 = -1000;

impl Profile {
    /// Wide, strong push with walls that clamp: radius 200, gain 0.8.
    pub fn standard() -> (r: Profile)
        ensures
            r.interaction_radius == 200,
            r.impulse_gain_percent == 80,
            r.boundary == BoundaryPolicy::ClampAndReflect,
            r.slot_seed == SlotSeed::Mass,
    {
        Profile {
            interaction_radius: 200,
            impulse_gain_percent: 80,
            boundary: BoundaryPolicy::ClampAndReflect,
            slot_seed: SlotSeed::Mass,
        }
    }

    /// Narrow, soft push with walls that only reflect: radius 150, gain 0.5,
    /// and each particle seeded with a phase for entanglement mode.
    pub fn gentle() -> (r: Profile)
        ensures
            r.interaction_radius == 150,
            r.impulse_gain_percent == 50,
            r.boundary == BoundaryPolicy::ReflectOnly,
            r.slot_seed == SlotSeed::Phase,
    {
        Profile {
            interaction_radius: 150,
            impulse_gain_percent: 50,
            boundary: BoundaryPolicy::ReflectOnly,
            slot_seed: SlotSeed::Phase,
        }
    }
}

} // verus!
