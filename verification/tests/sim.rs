use rand::SeedableRng;
use swarm_sim::anchor::{normalized_direction, Anchor, DirInput, ANCHOR_SPEED, DIAG};
use swarm_sim::body::{IMPULSE_MAG, TORQUE_MAG};
use swarm_sim::camera::{Camera, ScrollEvent, CAMERA_ZOOM_SPEED};
use swarm_sim::fixed::{fp_mul, Vec2F, SCALE};
use swarm_sim::frame::{frame_update, FrameInput};
use swarm_sim::setup::{
    setup_camera, setup_physics, setup_world, square, ANGVEL_RANGE, BODY_COUNT, POS_RANGE,
    VEL_RANGE,
};
use swarm_sim::systems::{
    apply_physics_step, brownian_motion, move_camera, update_camera, zoom_camera,
};
use swarm_sim::world::World;

fn seeded(seed: u64) -> rand::rngs::StdRng {
    rand::rngs::StdRng::seed_from_u64(seed)
}

fn dir(up: bool, down: bool, left: bool, right: bool) -> DirInput {
    DirInput { up, down, left, right }
}

#[test]
fn fp_mul_is_exact_on_multiples() {
    assert_eq!(fp_mul(1000, 3000), 3000);
    assert_eq!(fp_mul(-500, 3000), -1500);
    assert_eq!(fp_mul(500_000, 100), 50_000);
    assert_eq!(fp_mul(0, 123_456), 0);
}

#[test]
fn fp_mul_truncates_toward_zero() {
    assert_eq!(fp_mul(999, 1), 0);
    assert_eq!(fp_mul(-999, 1), 0);
    assert_eq!(fp_mul(1001, 1), 1);
    assert_eq!(fp_mul(-1001, 1), -1);
}

#[test]
fn startup_creates_configured_population() {
    let mut world = World::new();
    let mut rng = seeded(7);
    setup_camera(&mut world);
    setup_world(&mut world);
    setup_physics(&mut world, &mut rng);

    assert_eq!(world.bodies.len(), BODY_COUNT);
    assert_eq!(world.anchors.len(), 1);
    assert_eq!(world.cameras.len(), 1);
    assert_eq!(world.anchors[0], Anchor { x: 0, y: 0, z: 0 });
    assert_eq!(world.cameras[0], Camera { x: 0, y: 0, z: 0, scale: SCALE });

    for b in &world.bodies {
        assert!(-POS_RANGE <= b.position.x && b.position.x < POS_RANGE);
        assert!(-POS_RANGE <= b.position.y && b.position.y < POS_RANGE);
        assert!(-VEL_RANGE <= b.velocity.x && b.velocity.x < VEL_RANGE);
        assert!(-VEL_RANGE <= b.velocity.y && b.velocity.y < VEL_RANGE);
        assert!(-ANGVEL_RANGE <= b.ang_velocity && b.ang_velocity < ANGVEL_RANGE);
        assert!(b.half_extent > 0);
        assert_eq!(b.gravity_scale, 0);
        assert!(b.linear_damping >= 0 && b.angular_damping >= 0);
        assert!(b.sleep_disabled);
        assert_eq!(b.impulse, Vec2F { x: 0, y: 0 });
        assert_eq!(b.torque_impulse, 0);
        assert!(0 <= b.color.r && b.color.r < SCALE);
        assert!(0 <= b.color.g && b.color.g < SCALE);
        assert!(0 <= b.color.b && b.color.b < SCALE);
    }
}

#[test]
fn impulses_are_in_range_and_touch_nothing_else() {
    let mut world = World::new();
    let mut rng = seeded(11);
    setup_physics(&mut world, &mut rng);
    let before = world.bodies.clone();

    brownian_motion(&mut world, &mut rng);

    assert_eq!(world.bodies.len(), before.len());
    for (b, ob) in world.bodies.iter().zip(before.iter()) {
        assert!(-IMPULSE_MAG <= b.impulse.x && b.impulse.x < IMPULSE_MAG);
        assert!(-IMPULSE_MAG <= b.impulse.y && b.impulse.y < IMPULSE_MAG);
        assert!(-TORQUE_MAG <= b.torque_impulse && b.torque_impulse < TORQUE_MAG);
        assert_eq!(b.position, ob.position);
        assert_eq!(b.velocity, ob.velocity);
        assert_eq!(b.ang_velocity, ob.ang_velocity);
        assert_eq!(b.color, ob.color);
    }
}

#[test]
fn impulses_are_overwritten_not_accumulated() {
    let mut world = World::new();
    let mut rng = seeded(13);
    square(
        &mut world,
        &mut rng,
        Vec2F { x: 0, y: 0 },
        Vec2F { x: 0, y: 0 },
        0,
    );
    brownian_motion(&mut world, &mut rng);
    let first = world.bodies[0].impulse;
    brownian_motion(&mut world, &mut rng);
    let second = world.bodies[0].impulse;
    // Still in range after two frames: the slot was overwritten, not summed.
    assert!(-IMPULSE_MAG <= second.x && second.x < IMPULSE_MAG);
    assert!(-IMPULSE_MAG <= second.y && second.y < IMPULSE_MAG);
    // And the stream moved on: over both frames the draws are not all equal.
    assert!(first != second);
}

#[test]
fn impulse_draws_vary_across_bodies() {
    let mut world = World::new();
    let mut rng = seeded(17);
    setup_physics(&mut world, &mut rng);
    brownian_motion(&mut world, &mut rng);
    let first = world.bodies[0].impulse.x;
    assert!(world.bodies.iter().any(|b| b.impulse.x != first));
}

#[test]
fn direction_is_normalized_for_all_sixteen_inputs() {
    for mask in 0..16u32 {
        let input = dir(mask & 1 != 0, mask & 2 != 0, mask & 4 != 0, mask & 8 != 0);
        let v = normalized_direction(input);
        let cancels = (input.up == input.down) && (input.left == input.right);
        let sq: i64 = v.x * v.x + v.y * v.y;
        if cancels {
            assert_eq!(v, Vec2F { x: 0, y: 0 });
        } else if v.x == 0 || v.y == 0 {
            assert_eq!(sq, SCALE * SCALE);
        } else {
            assert_eq!(sq, 2 * DIAG * DIAG);
            assert_eq!(SCALE * SCALE - sq, 302);
        }
    }
}

#[test]
fn anchor_moves_at_speed_on_axes_and_diagonals() {
    // dt = 0.1 s; speed 500 units/s: 50 units per frame on an axis.
    let dt: i64 = 100;
    let sdt: i64 = fp_mul(ANCHOR_SPEED, dt);
    assert_eq!(sdt, 50_000);

    let mut world = World::new();
    setup_world(&mut world);
    move_camera(&mut world, dir(true, false, false, false), dt);
    assert_eq!(world.anchors[0], Anchor { x: 0, y: 50_000, z: 0 });

    move_camera(&mut world, dir(false, false, true, false), dt);
    assert_eq!(world.anchors[0], Anchor { x: -50_000, y: 50_000, z: 0 });

    // A diagonal move advances each axis by 50 / sqrt(2) = 35.35 units.
    let mut world2 = World::new();
    setup_world(&mut world2);
    move_camera(&mut world2, dir(true, false, false, true), dt);
    assert_eq!(world2.anchors[0], Anchor { x: 35_350, y: 35_350, z: 0 });

    // Canceling signals move nothing.
    move_camera(&mut world2, dir(true, true, true, true), dt);
    assert_eq!(world2.anchors[0], Anchor { x: 35_350, y: 35_350, z: 0 });
}

#[test]
fn anchor_move_skipped_without_a_single_anchor() {
    let mut world = World::new();
    move_camera(&mut world, dir(true, false, false, false), 100);
    assert_eq!(world.anchors.len(), 0);

    setup_world(&mut world);
    setup_world(&mut world);
    move_camera(&mut world, dir(true, false, false, false), 100);
    assert_eq!(world.anchors[0], Anchor { x: 0, y: 0, z: 0 });
    assert_eq!(world.anchors[1], Anchor { x: 0, y: 0, z: 0 });
}

#[test]
fn tracking_skipped_with_zero_or_two_cameras() {
    // Zero cameras: nothing to update, no error.
    let mut world = World::new();
    setup_world(&mut world);
    update_camera(&mut world, 500);
    assert_eq!(world.cameras.len(), 0);

    // Two cameras: ambiguous singleton, every camera stays unchanged.
    let mut world2 = World::new();
    setup_world(&mut world2);
    world2.anchors[0].x = 77_000;
    setup_camera(&mut world2);
    setup_camera(&mut world2);
    world2.cameras[1].x = 5_000;
    let before0 = world2.cameras[0];
    let before1 = world2.cameras[1];
    update_camera(&mut world2, 500);
    assert_eq!(world2.cameras[0], before0);
    assert_eq!(world2.cameras[1], before1);
}

#[test]
fn tracking_skipped_with_zero_or_two_anchors() {
    let mut world = World::new();
    setup_camera(&mut world);
    update_camera(&mut world, 500);
    assert_eq!(world.cameras[0], Camera { x: 0, y: 0, z: 0, scale: SCALE });

    setup_world(&mut world);
    setup_world(&mut world);
    world.anchors[0].x = 9_000;
    update_camera(&mut world, 500);
    assert_eq!(world.cameras[0], Camera { x: 0, y: 0, z: 0, scale: SCALE });
}

#[test]
fn tracking_moves_a_fraction_of_the_distance() {
    let mut world = World::new();
    setup_camera(&mut world);
    setup_world(&mut world);
    world.anchors[0].x = 100_000;
    world.anchors[0].y = -40_000;

    // Half blend: half the remaining distance, z and scale untouched.
    update_camera(&mut world, 500);
    assert_eq!(world.cameras[0], Camera { x: 50_000, y: -20_000, z: 0, scale: SCALE });

    // Full blend: lands exactly on the anchor.
    update_camera(&mut world, SCALE);
    assert_eq!(world.cameras[0], Camera { x: 100_000, y: -40_000, z: 0, scale: SCALE });

    // Zero blend: no movement at all.
    update_camera(&mut world, 0);
    assert_eq!(world.cameras[0], Camera { x: 100_000, y: -40_000, z: 0, scale: SCALE });
}

fn blend_for(dt_subunits: i64) -> i64 {
    // SCALE * (1 - exp(-decay_rate * dt)), the frame-rate independent form.
    let dt = dt_subunits as f64 / 1000.0;
    ((1.0 - (-8.0 * dt).exp()) * 1000.0).round() as i64
}

#[test]
fn tracking_converges_independent_of_frame_rate() {
    // A stationary anchor at the origin and a camera 1000 units away,
    // followed for one second in 10 frames and again in 1000 frames: both
    // runs must end near 1000 * exp(-8) = 0.335 units, and near each other.
    let d0: i64 = 1_000_000;
    let mut ends: Vec<i64> = Vec::new();
    for &(steps, dt) in &[(10i64, 100i64), (1000i64, 1i64)] {
        let mut world = World::new();
        setup_camera(&mut world);
        setup_world(&mut world);
        world.cameras[0].x = d0;
        let blend = blend_for(dt);
        for _ in 0..steps {
            update_camera(&mut world, blend);
        }
        ends.push(world.cameras[0].x);
    }
    for &end in &ends {
        assert!(end > 250 && end < 450, "end distance {} out of tolerance", end);
    }
    // The two frame rates agree within 0.01% of the starting distance.
    assert!((ends[0] - ends[1]).abs() <= d0 / 10_000);
}

#[test]
fn tracking_never_overshoots() {
    let mut world = World::new();
    setup_camera(&mut world);
    setup_world(&mut world);
    world.anchors[0].x = 1_000;
    let mut last: i64 = 0;
    for _ in 0..200 {
        update_camera(&mut world, 900);
        let x = world.cameras[0].x;
        assert!(last <= x && x <= 1_000);
        last = x;
    }
}

#[test]
fn zoom_accumulates_scroll_events_in_one_frame() {
    // Two events with y = 1.0 and y = -0.5, zoom speed 3.0, dt = 0.1:
    // the scale changes by exactly -(1.0*3*0.1) - (-0.5*3*0.1) = -0.15.
    let mut world = World::new();
    setup_camera(&mut world);
    let events = vec![ScrollEvent { y: 1000 }, ScrollEvent { y: -500 }];
    zoom_camera(&mut world, &events, 100);
    assert_eq!(world.cameras[0].scale, SCALE - 150);
    assert_eq!(world.cameras[0].x, 0);
    assert_eq!(world.cameras[0].y, 0);
    assert_eq!(world.cameras[0].z, 0);
}

#[test]
fn zoom_with_no_events_changes_nothing() {
    let mut world = World::new();
    setup_camera(&mut world);
    let events: Vec<ScrollEvent> = Vec::new();
    zoom_camera(&mut world, &events, 100);
    assert_eq!(world.cameras[0].scale, SCALE);
}

#[test]
fn zoom_skipped_without_a_single_camera() {
    let mut world = World::new();
    let events = vec![ScrollEvent { y: 1000 }];
    zoom_camera(&mut world, &events, 100);
    assert_eq!(world.cameras.len(), 0);

    setup_camera(&mut world);
    setup_camera(&mut world);
    zoom_camera(&mut world, &events, 100);
    assert_eq!(world.cameras[0].scale, SCALE);
    assert_eq!(world.cameras[1].scale, SCALE);
}

#[test]
fn zoom_delta_uses_speed_and_dt() {
    assert_eq!(fp_mul(fp_mul(1000, CAMERA_ZOOM_SPEED), 100), 300);
}

#[test]
fn physics_step_consumes_the_impulse_once() {
    let mut world = World::new();
    let mut rng = seeded(23);
    square(
        &mut world,
        &mut rng,
        Vec2F { x: 1_000, y: 2_000 },
        Vec2F { x: 0, y: 0 },
        0,
    );
    brownian_motion(&mut world, &mut rng);
    assert!(world.bodies[0].impulse != Vec2F { x: 0, y: 0 });
    let color = world.bodies[0].color;

    apply_physics_step(
        &mut world,
        0,
        Vec2F { x: 1_500, y: 2_500 },
        250,
        Vec2F { x: 5_000, y: 5_000 },
        100,
    );
    let b = &world.bodies[0];
    assert_eq!(b.impulse, Vec2F { x: 0, y: 0 });
    assert_eq!(b.torque_impulse, 0);
    assert_eq!(b.position, Vec2F { x: 1_500, y: 2_500 });
    assert_eq!(b.rotation, 250);
    assert_eq!(b.velocity, Vec2F { x: 5_000, y: 5_000 });
    assert_eq!(b.ang_velocity, 100);
    assert_eq!(b.color, color);
}

#[test]
fn frame_reads_the_anchor_of_its_own_frame() {
    // With a full blend the camera must land exactly on the anchor position
    // of this frame -- after the move, not before it.
    let mut world = World::new();
    setup_camera(&mut world);
    setup_world(&mut world);
    let input = FrameInput {
        dir: dir(true, false, false, true),
        scrolls: vec![ScrollEvent { y: 1000 }],
        dt: 100,
        blend: SCALE,
    };
    frame_update(&mut world, &input);
    assert_eq!(world.anchors[0], Anchor { x: 35_350, y: 35_350, z: 0 });
    assert_eq!(world.cameras[0].x, 35_350);
    assert_eq!(world.cameras[0].y, 35_350);
    assert_eq!(world.cameras[0].z, 0);
    assert_eq!(world.cameras[0].scale, SCALE - 300);
}

#[test]
fn frame_update_never_touches_bodies() {
    let mut world = World::new();
    let mut rng = seeded(31);
    setup_camera(&mut world);
    setup_world(&mut world);
    setup_physics(&mut world, &mut rng);
    let before = world.bodies.clone();
    let input = FrameInput {
        dir: dir(false, true, true, false),
        scrolls: Vec::new(),
        dt: 16,
        blend: blend_for(16),
    };
    frame_update(&mut world, &input);
    assert_eq!(world.bodies, before);
}
