//! The per-frame systems: Brownian impulse generation, the anchor move, the
//! camera's smoothed tracking, and the zoom. Each runs once per frame; a
//! system whose camera or anchor is missing, or ambiguous (zero or several
//! candidates where exactly one is expected), skips its update for the frame
//! with no error and no partial mutation.

use vstd::prelude::*;
use crate::anchor::{
    Anchor,
    moved_x_spec,
    moved_y_spec,
    normalized_direction,
    DirInput,
    ANCHOR_SPEED,
};
use crate::body::{Body, IMPULSE_MAG, TORQUE_MAG};
use crate::camera::{
    nudged_spec,
    zoom_delta_spec,
    zoom_total_spec,
    Camera,
    ScrollEvent,
    CAMERA_ZOOM_SPEED,
};
use crate::fixed::{fp_mul, lemma_abs_mul_le, Vec2F, SCALE};
use crate::rng::sample_range;
use crate::world::{World, COORD_LIMIT, MAX_DT, MAX_EVENTS, MAX_SCROLL, STEP_ROOM};

verus! {

/// The body's pending impulse lies in the generator's ranges.
pub open spec fn impulse_in_range(b: Body) -> bool {
    &&& -IMPULSE_MAG <= b.impulse.x < IMPULSE_MAG
    &&& -IMPULSE_MAG <= b.impulse.y < IMPULSE_MAG
    &&& -TORQUE_MAG <= b.torque_impulse < TORQUE_MAG
}

/// Overwrites every body's pending impulse with a fresh uniform draw: both
/// linear components from `[-IMPULSE_MAG, IMPULSE_MAG)` and the torque from
/// `[-TORQUE_MAG, TORQUE_MAG)`. Nothing is accumulated across frames, no
/// other field is touched, and an empty population is a no-op.
pub fn brownian_motion(world: &mut World, rng: &mut rand::rngs::StdRng)
    ensures
        final(world).anchors == old(world).anchors,
        final(world).cameras == old(world).cameras,
        final(world).bodies@.len() == old(world).bodies@.len(),
        forall|i: int|
            0 <= i < old(world).bodies@.len() ==> {
                &&& impulse_in_range(#[trigger] final(world).bodies@[i])
                &&& final(world).bodies@[i].same_but_impulse(old(world).bodies@[i])
            },
        old(world).wf() ==> final(world).wf(),
{
    let n = world.bodies.len();
    let mut i: usize = 0;
    while i < n
        invariant
            i <= n,
            n == old(world).bodies@.len(),
            world.anchors == old(world).anchors,
            world.cameras == old(world).cameras,
            world.bodies@.len() == n,
            forall|j: int|
                0 <= j < i ==> {
                    &&& impulse_in_range(#[trigger] world.bodies@[j])
                    &&& world.bodies@[j].same_but_impulse(old(world).bodies@[j])
                },
            forall|j: int| i <= j < n ==> world.bodies@[j] == old(world).bodies@[j],
        decreases n - i,
    {
        let lx = sample_range(rng, -IMPULSE_MAG, IMPULSE_MAG);
        let ly = sample_range(rng, -IMPULSE_MAG, IMPULSE_MAG);
        let torque = sample_range(rng, -TORQUE_MAG, TORQUE_MAG);
        let mut b = world.bodies[i];
        b.impulse = Vec2F { x: lx, y: ly };
        b.torque_impulse = torque;
        world.bodies[i] = b;
        i += 1;
    }
    proof {
        if old(world).wf() {
            assert forall|i2: int| 0 <= i2 < world.bodies@.len() implies (#[trigger] world
                .bodies@[i2]).wf() by {
                assert(old(world).bodies@[i2].wf());
            }
        }
    }
}

/// Takes back one body's kinematic state from the external physics engine
/// after a step. The pending impulse was consumed by that step, exactly
/// once, so its slot is cleared; every static attribute (collider extent,
/// damping, gravity scale, sleep policy, color) is untouched.
pub fn apply_physics_step(
    world: &mut World,
    i: usize,
    position: Vec2F,
    rotation: i64,
    velocity: Vec2F,
    ang_velocity: i64,
)
    requires
        i < old(world).bodies@.len(),
    ensures
        final(world).anchors == old(world).anchors,
        final(world).cameras == old(world).cameras,
        final(world).bodies@.len() == old(world).bodies@.len(),
        forall|j: int|
            0 <= j < old(world).bodies@.len() && j != i ==> final(world).bodies@[j] == old(
                world,
            ).bodies@[j],
        ({
            let b = final(world).bodies@[i as int];
            &&& b.position == position
            &&& b.rotation == rotation
            &&& b.velocity == velocity
            &&& b.ang_velocity == ang_velocity
            &&& b.impulse == (Vec2F { x: 0, y: 0 })
            &&& b.torque_impulse == 0
            &&& b.half_extent == old(world).bodies@[i as int].half_extent
            &&& b.gravity_scale == old(world).bodies@[i as int].gravity_scale
            &&& b.linear_damping == old(world).bodies@[i as int].linear_damping
            &&& b.angular_damping == old(world).bodies@[i as int].angular_damping
            &&& b.sleep_disabled == old(world).bodies@[i as int].sleep_disabled
            &&& b.color == old(world).bodies@[i as int].color
        }),
        old(world).wf() ==> final(world).wf(),
{
    let mut b = world.bodies[i];
    b.position = position;
    b.rotation = rotation;
    b.velocity = velocity;
    b.ang_velocity = ang_velocity;
    b.impulse = Vec2F { x: 0, y: 0 };
    b.torque_impulse = 0;
    world.bodies[i] = b;
    proof {
        if old(world).wf() {
            assert forall|j: int| 0 <= j < world.bodies@.len() implies (#[trigger] world
                .bodies@[j]).wf() by {
                assert(old(world).bodies@[j].wf());
            }
        }
    }
}

/// Moves the anchor by one frame of directional input: the normalized
/// direction, scaled by `ANCHOR_SPEED` and the frame time, is added to the
/// anchor's position, so displacement per second is the same at every frame
/// rate and on diagonals. Skipped silently unless exactly one anchor exists.
pub fn move_camera(world: &mut World, input: DirInput, dt: i64)
    requires
        0 <= dt <= MAX_DT,
        old(world).anchors@.len() == 1 ==> {
            &&& -COORD_LIMIT <= old(world).anchors@[0].x <= COORD_LIMIT
            &&& -COORD_LIMIT <= old(world).anchors@[0].y <= COORD_LIMIT
        },
    ensures
        final(world).bodies == old(world).bodies,
        final(world).cameras == old(world).cameras,
        final(world).anchors@.len() == old(world).anchors@.len(),
        old(world).anchors@.len() != 1 ==> final(world).anchors == old(world).anchors,
        old(world).anchors@.len() == 1 ==> {
            &&& final(world).anchors@[0].x == moved_x_spec(old(world).anchors@[0], input, dt as int)
            &&& final(world).anchors@[0].y == moved_y_spec(old(world).anchors@[0], input, dt as int)
            &&& final(world).anchors@[0].z == old(world).anchors@[0].z
            &&& -(COORD_LIMIT + STEP_ROOM) <= final(world).anchors@[0].x <= COORD_LIMIT + STEP_ROOM
            &&& -(COORD_LIMIT + STEP_ROOM) <= final(world).anchors@[0].y <= COORD_LIMIT + STEP_ROOM
        },
{
    if world.anchors.len() != 1 {
        return ;
    }
    let v = normalized_direction(input);
    let sdt = fp_mul(ANCHOR_SPEED, dt);
    proof {
        lemma_abs_mul_le(v.x as int, sdt as int, SCALE as int, 30_000_001);
        lemma_abs_mul_le(v.y as int, sdt as int, SCALE as int, 30_000_001);
    }
    let dx = fp_mul(v.x, sdt);
    let dy = fp_mul(v.y, sdt);
    let a = world.anchors[0];
    world.anchors[0] = Anchor { x: a.x + dx, y: a.y + dy, z: a.z };
}

/// One frame of smoothed tracking: the camera's x/y move the fraction
/// `blend / SCALE` of their remaining distance to the anchor; its z and its
/// zoom scale are untouched. The caller derives `blend` from the decay rate
/// and the frame time (`SCALE` times `1 - exp(-CAMERA_DECAY_RATE/SCALE * dt)`),
/// which makes the approach frame-rate independent. Skipped silently, with
/// every camera position unchanged, unless exactly one camera and exactly
/// one anchor exist.
pub fn update_camera(world: &mut World, blend: i64)
    requires
        0 <= blend <= SCALE,
        (old(world).cameras@.len() == 1 && old(world).anchors@.len() == 1) ==> {
            &&& -(COORD_LIMIT + STEP_ROOM) <= old(world).cameras@[0].x <= COORD_LIMIT + STEP_ROOM
            &&& -(COORD_LIMIT + STEP_ROOM) <= old(world).cameras@[0].y <= COORD_LIMIT + STEP_ROOM
            &&& -(COORD_LIMIT + STEP_ROOM) <= old(world).anchors@[0].x <= COORD_LIMIT + STEP_ROOM
            &&& -(COORD_LIMIT + STEP_ROOM) <= old(world).anchors@[0].y <= COORD_LIMIT + STEP_ROOM
        },
    ensures
        final(world).bodies == old(world).bodies,
        final(world).anchors == old(world).anchors,
        !(old(world).cameras@.len() == 1 && old(world).anchors@.len() == 1) ==> final(world)
            .cameras == old(world).cameras,
        (old(world).cameras@.len() == 1 && old(world).anchors@.len() == 1) ==> {
            &&& final(world).cameras@.len() == 1
            &&& final(world).cameras@[0].x == nudged_spec(
                old(world).cameras@[0].x as int,
                old(world).anchors@[0].x as int,
                blend as int,
            )
            &&& final(world).cameras@[0].y == nudged_spec(
                old(world).cameras@[0].y as int,
                old(world).anchors@[0].y as int,
                blend as int,
            )
            &&& final(world).cameras@[0].z == old(world).cameras@[0].z
            &&& final(world).cameras@[0].scale == old(world).cameras@[0].scale
        },
{
    if world.cameras.len() != 1 {
        return ;
    }
    if world.anchors.len() != 1 {
        return ;
    }
    let cam = world.cameras[0];
    let a = world.anchors[0];
    let dx = a.x - cam.x;
    let dy = a.y - cam.y;
    proof {
        lemma_abs_mul_le(dx as int, blend as int, 2 * (COORD_LIMIT + STEP_ROOM) as int, SCALE as int);
        lemma_abs_mul_le(dy as int, blend as int, 2 * (COORD_LIMIT + STEP_ROOM) as int, SCALE as int);
    }
    let sx = fp_mul(dx, blend);
    let sy = fp_mul(dy, blend);
    world.cameras[0] = Camera { x: cam.x + sx, y: cam.y + sy, z: cam.z, scale: cam.scale };
}

/// Drains the frame's scroll events in arrival order: each event's delta,
/// scaled by `CAMERA_ZOOM_SPEED` and the frame time, is subtracted from the
/// camera's uniform scale, cumulatively. No bound is placed on the scale
/// itself (callers wanting a zoom clamp must clamp externally). With no
/// pending events the scale is unchanged. Skipped silently unless exactly
/// one camera exists.
pub fn zoom_camera(world: &mut World, events: &Vec<ScrollEvent>, dt: i64)
    requires
        0 <= dt <= MAX_DT,
        events@.len() <= MAX_EVENTS,
        forall|i: int| 0 <= i < events@.len() ==> -MAX_SCROLL <= (#[trigger] events@[i]).y
            <= MAX_SCROLL,
        old(world).cameras@.len() == 1 ==> -COORD_LIMIT <= old(world).cameras@[0].scale
            <= COORD_LIMIT,
    ensures
        final(world).bodies == old(world).bodies,
        final(world).anchors == old(world).anchors,
        old(world).cameras@.len() != 1 ==> final(world).cameras == old(world).cameras,
        old(world).cameras@.len() == 1 ==> {
            &&& final(world).cameras@.len() == 1
            &&& final(world).cameras@[0].x == old(world).cameras@[0].x
            &&& final(world).cameras@[0].y == old(world).cameras@[0].y
            &&& final(world).cameras@[0].z == old(world).cameras@[0].z
            &&& final(world).cameras@[0].scale == old(world).cameras@[0].scale - zoom_total_spec(
                events@,
                dt as int,
            )
        },
{
    if world.cameras.len() != 1 {
        return ;
    }
    let cam = world.cameras[0];
    let mut scale = cam.scale;
    let mut j: usize = 0;
    while j < events.len()
        invariant
            j <= events@.len(),
            events@.len() <= MAX_EVENTS,
            0 <= dt <= MAX_DT,
            forall|i: int| 0 <= i < events@.len() ==> -MAX_SCROLL <= (#[trigger] events@[i]).y
                <= MAX_SCROLL,
            -COORD_LIMIT <= cam.scale <= COORD_LIMIT,
            scale == cam.scale - zoom_total_spec(events@.take(j as int), dt as int),
            -COORD_LIMIT - (j as int) * 180_000_000_000 <= scale <= COORD_LIMIT + (j as int)
                * 180_000_000_000,
        decreases events@.len() - j,
    {
        let y = events[j].y;
        let d1 = fp_mul(y, CAMERA_ZOOM_SPEED);
        proof {
            lemma_abs_mul_le(d1 as int, dt as int, 3_000_000_000, MAX_DT as int);
        }
        let delta = fp_mul(d1, dt);
        proof {
            assert(events@.take(j as int + 1).drop_last() =~= events@.take(j as int));
            assert(events@.take(j as int + 1).last() == events@[j as int]);
            assert(zoom_total_spec(events@.take(j as int + 1), dt as int) == zoom_total_spec(
                events@.take(j as int),
                dt as int,
            ) + zoom_delta_spec(events@[j as int].y as int, dt as int));
        }
        scale = scale - delta;
        j += 1;
    }
    proof {
        assert(events@.take(events@.len() as int) =~= events@);
    }
    world.cameras[0] = Camera { x: cam.x, y: cam.y, z: cam.z, scale };
}

} // verus!
