//! The simulated rigid bodies: their physical and visual attributes and the
//! invariant every body keeps for its whole lifetime.

use vstd::prelude::*;
use crate::fixed::{Vec2F, SCALE};

verus! {

/// Half-extent of every body's square collider: 25 units.
pub const HALF_EXTENT: i64 = 25_000;

/// Linear and angular damping coefficient of every body: 0.5.
pub const BODY_DAMPING: i64 = 500;

/// Largest magnitude of a per-frame linear impulse component: 10000 units.
pub const IMPULSE_MAG: i64 = 10_000_000;

/// Largest magnitude of a per-frame torque impulse: ten times `IMPULSE_MAG`.
pub const TORQUE_MAG: i64 = 100_000_000;

/// An RGB color; each channel lies in `[0, SCALE)`.
#[derive(Clone, Copy, Debug, PartialEq, Eq, Structural)]
pub struct ColorF {
    pub r: i64,
    pub g: i64,
    pub b: i64,
}

/// One dynamic rigid body of the swarm. The pending impulse is overwritten,
/// never accumulated, each frame; the physics engine consumes it once per
/// step. Positions, velocities and damping are fixed-point scalars.
#[derive(Clone, Copy, Debug, PartialEq, Eq, Structural)]
pub struct Body {
    pub position: Vec2F,
    pub rotation: i64,
    pub velocity: Vec2F,
    pub ang_velocity: i64,
    pub impulse: Vec2F,
    pub torque_impulse: i64,
    pub half_extent: i64,
    pub gravity_scale: i64,
    pub linear_damping: i64,
    pub angular_damping: i64,
    pub sleep_disabled: bool,
    pub color: ColorF,
}

impl Body {
    /// Every body keeps nonnegative damping, a positive collider extent,
    /// zero gravity scale, and must never be put to sleep (the Brownian
    /// forcing has to keep applying).
    pub open spec fn wf(self) -> bool {
        &&& self.linear_damping >= 0
        &&& self.angular_damping >= 0
        &&& self.half_extent > 0
        &&& self.gravity_scale == 0
        &&& self.sleep_disabled
    }

    /// Each color channel lies in the unit interval.
    pub open spec fn color_in_unit(self) -> bool {
        &&& 0 <= self.color.r < SCALE
        &&& 0 <= self.color.g < SCALE
        &&& 0 <= self.color.b < SCALE
    }

    /// The two bodies agree on every field but the pending impulse.
    pub open spec fn same_but_impulse(self, other: Body) -> bool {
        &&& self.position == other.position
        &&& self.rotation == other.rotation
        &&& self.velocity == other.velocity
        &&& self.ang_velocity == other.ang_velocity
        &&& self.half_extent == other.half_extent
        &&& self.gravity_scale == other.gravity_scale
        &&& self.linear_damping == other.linear_damping
        &&& self.angular_damping == other.angular_damping
        &&& self.sleep_disabled == other.sleep_disabled
        &&& self.color == other.color
    }
}

} // verus!
