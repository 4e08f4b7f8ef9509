//! The startup systems: they run exactly once and populate the world with
//! the camera, the anchor, and the randomized swarm of bodies. Every body is
//! fully initialized before the first simulation tick.

use vstd::prelude::*;
use crate::anchor::Anchor;
use crate::body::{Body, ColorF, BODY_DAMPING, HALF_EXTENT};
use crate::camera::Camera;
use crate::fixed::{Vec2F, SCALE};
use crate::rng::sample_range;
use crate::world::World;

verus! {

/// Number of bodies created at startup.
pub const BODY_COUNT: usize = 50;

/// Half-width of the square region initial positions are drawn from: 300 units.
pub const POS_RANGE: i64 = 300_000;

/// Largest magnitude of an initial linear velocity component: 50 units/s.
pub const VEL_RANGE: i64 = 50_000;

/// Largest magnitude of an initial angular velocity: 5/s.
pub const ANGVEL_RANGE: i64 = 5_000;

/// The ranges initial kinematic state is drawn from.
pub open spec fn in_setup_ranges(b: Body) -> bool {
    &&& -POS_RANGE <= b.position.x < POS_RANGE
    &&& -POS_RANGE <= b.position.y < POS_RANGE
    &&& -VEL_RANGE <= b.velocity.x < VEL_RANGE
    &&& -VEL_RANGE <= b.velocity.y < VEL_RANGE
    &&& -ANGVEL_RANGE <= b.ang_velocity < ANGVEL_RANGE
}

/// Creates the player anchor, at the origin.
pub fn setup_world(world: &mut World)
    ensures
        final(world).bodies == old(world).bodies,
        final(world).cameras == old(world).cameras,
        final(world).anchors@ == old(world).anchors@.push(Anchor { x: 0, y: 0, z: 0 }),
{
    world.anchors.push(Anchor { x: 0, y: 0, z: 0 });
}

/// Creates the camera, at the origin with unit zoom scale.
pub fn setup_camera(world: &mut World)
    ensures
        final(world).bodies == old(world).bodies,
        final(world).anchors == old(world).anchors,
        final(world).cameras@ == old(world).cameras@.push(Camera { x: 0, y: 0, z: 0, scale: SCALE }),
{
    world.cameras.push(Camera { x: 0, y: 0, z: 0, scale: SCALE });
}

/// Creates one body: the given kinematic state, the fixed collider extent,
/// zero gravity, the fixed damping, sleep disabled, an empty impulse slot,
/// and a random color (cosmetic: it never feeds back into the physics).
pub fn square(
    world: &mut World,
    rng: &mut rand::rngs::StdRng,
    position: Vec2F,
    velocity: Vec2F,
    ang_velocity: i64,
)
    ensures
        final(world).anchors == old(world).anchors,
        final(world).cameras == old(world).cameras,
        final(world).bodies@.len() == old(world).bodies@.len() + 1,
        forall|i: int|
            0 <= i < old(world).bodies@.len() ==> final(world).bodies@[i] == old(world).bodies@[i],
        ({
            let b = final(world).bodies@.last();
            &&& b.position == position
            &&& b.rotation == 0
            &&& b.velocity == velocity
            &&& b.ang_velocity == ang_velocity
            &&& b.impulse == (Vec2F { x: 0, y: 0 })
            &&& b.torque_impulse == 0
            &&& b.half_extent == HALF_EXTENT
            &&& b.gravity_scale == 0
            &&& b.linear_damping == BODY_DAMPING
            &&& b.angular_damping == BODY_DAMPING
            &&& b.sleep_disabled
            &&& b.color_in_unit()
            &&& b.wf()
        }),
{
    let r = sample_range(rng, 0, SCALE);
    let g = sample_range(rng, 0, SCALE);
    let b = sample_range(rng, 0, SCALE);
    world.bodies.push(
        Body {
            position,
            rotation: 0,
            velocity,
            ang_velocity,
            impulse: Vec2F { x: 0, y: 0 },
            torque_impulse: 0,
            half_extent: HALF_EXTENT,
            gravity_scale: 0,
            linear_damping: BODY_DAMPING,
            angular_damping: BODY_DAMPING,
            sleep_disabled: true,
            color: ColorF { r, g, b },
        },
    );
}

/// Creates the swarm: exactly `BODY_COUNT` bodies, each with its initial
/// position, linear velocity and angular velocity drawn uniformly from the
/// configured ranges.
pub fn setup_physics(world: &mut World, rng: &mut rand::rngs::StdRng)
    ensures
        final(world).anchors == old(world).anchors,
        final(world).cameras == old(world).cameras,
        final(world).bodies@.len() == old(world).bodies@.len() + BODY_COUNT,
        forall|i: int|
            0 <= i < old(world).bodies@.len() ==> final(world).bodies@[i] == old(world).bodies@[i],
        forall|i: int|
            old(world).bodies@.len() <= i < final(world).bodies@.len() ==> {
                &&& (#[trigger] final(world).bodies@[i]).wf()
                &&& in_setup_ranges(final(world).bodies@[i])
                &&& final(world).bodies@[i].color_in_unit()
            },
        old(world).wf() ==> final(world).wf(),
{
    let base = world.bodies.len();
    let mut k: usize = 0;
    while k < BODY_COUNT
        invariant
            k <= BODY_COUNT,
            world.anchors == old(world).anchors,
            world.cameras == old(world).cameras,
            world.bodies@.len() == old(world).bodies@.len() + k,
            base == old(world).bodies@.len(),
            forall|i: int|
                0 <= i < old(world).bodies@.len() ==> world.bodies@[i] == old(world).bodies@[i],
            forall|i: int|
                old(world).bodies@.len() <= i < world.bodies@.len() ==> {
                    &&& (#[trigger] world.bodies@[i]).wf()
                    &&& in_setup_ranges(world.bodies@[i])
                    &&& world.bodies@[i].color_in_unit()
                },
        decreases BODY_COUNT - k,
    {
        let px = sample_range(rng, -POS_RANGE, POS_RANGE);
        let py = sample_range(rng, -POS_RANGE, POS_RANGE);
        let vx = sample_range(rng, -VEL_RANGE, VEL_RANGE);
        let vy = sample_range(rng, -VEL_RANGE, VEL_RANGE);
        let av = sample_range(rng, -ANGVEL_RANGE, ANGVEL_RANGE);
        square(world, rng, Vec2F { x: px, y: py }, Vec2F { x: vx, y: vy }, av);
        k += 1;
    }
}

} // verus!
