//! The frame scheduler: one fixed-order pass per rendered frame. The host
//! loop generates the impulses, has the physics engine integrate, then runs
//! this chain — anchor move, camera tracking, zoom — so that the camera
//! always reads the frame's own post-move anchor state, never stale state
//! from the previous frame.

use vstd::prelude::*;
use crate::anchor::{moved_x_spec, moved_y_spec, DirInput};
use crate::camera::{nudged_spec, zoom_total_spec, ScrollEvent};
use crate::fixed::SCALE;
use crate::systems::{move_camera, update_camera, zoom_camera};
use crate::world::{World, COORD_LIMIT, MAX_DT, MAX_EVENTS, MAX_SCROLL};

verus! {

/// Everything one frame hands the scheduler: the four directional signals,
/// the frame's pending scroll events in arrival order, the frame time, and
/// the tracking blend fraction, which the host derives from the decay rate
/// and the frame time.
pub struct FrameInput {
    pub dir: DirInput,
    pub scrolls: Vec<ScrollEvent>,
    pub dt: i64,
    pub blend: i64,
}

impl FrameInput {
    /// The bounds the per-frame systems accept.
    pub open spec fn wf(self) -> bool {
        &&& 0 <= self.dt <= MAX_DT
        &&& 0 <= self.blend <= SCALE
        &&& self.scrolls@.len() <= MAX_EVENTS
        &&& forall|i: int| 0 <= i < self.scrolls@.len() ==> -MAX_SCROLL <= (#[trigger] self
            .scrolls@[i]).y <= MAX_SCROLL
    }
}

/// The world's coordinates are small enough for one frame of updates.
pub open spec fn frame_bounds_ok(w: World) -> bool {
    &&& w.anchors@.len() == 1 ==> {
        &&& -COORD_LIMIT <= w.anchors@[0].x <= COORD_LIMIT
        &&& -COORD_LIMIT <= w.anchors@[0].y <= COORD_LIMIT
    }
    &&& w.cameras@.len() == 1 ==> {
        &&& -COORD_LIMIT <= w.cameras@[0].x <= COORD_LIMIT
        &&& -COORD_LIMIT <= w.cameras@[0].y <= COORD_LIMIT
        &&& -COORD_LIMIT <= w.cameras@[0].scale <= COORD_LIMIT
    }
}

/// Runs the frame's chained systems in their fixed order: the anchor moves
/// by the frame's input, then the camera tracks the anchor position of this
/// frame, then the zoom drains the frame's scroll events. Bodies are never
/// touched here. Each system keeps its own skip rule when its camera or
/// anchor is missing or ambiguous.
pub fn frame_update(world: &mut World, input: &FrameInput)
    requires
        input.wf(),
        frame_bounds_ok(*old(world)),
    ensures
        final(world).bodies == old(world).bodies,
        final(world).anchors@.len() == old(world).anchors@.len(),
        old(world).anchors@.len() != 1 ==> final(world).anchors == old(world).anchors,
        old(world).anchors@.len() == 1 ==> {
            &&& final(world).anchors@[0].x == moved_x_spec(
                old(world).anchors@[0],
                input.dir,
                input.dt as int,
            )
            &&& final(world).anchors@[0].y == moved_y_spec(
                old(world).anchors@[0],
                input.dir,
                input.dt as int,
            )
            &&& final(world).anchors@[0].z == old(world).anchors@[0].z
        },
        old(world).cameras@.len() != 1 ==> final(world).cameras == old(world).cameras,
        old(world).cameras@.len() == 1 ==> {
            &&& final(world).cameras@.len() == 1
            &&& final(world).cameras@[0].z == old(world).cameras@[0].z
            &&& final(world).cameras@[0].scale == old(world).cameras@[0].scale - zoom_total_spec(
                input.scrolls@,
                input.dt as int,
            )
            &&& old(world).anchors@.len() == 1 ==> {
                &&& final(world).cameras@[0].x == nudged_spec(
                    old(world).cameras@[0].x as int,
                    moved_x_spec(old(world).anchors@[0], input.dir, input.dt as int),
                    input.blend as int,
                )
                &&& final(world).cameras@[0].y == nudged_spec(
                    old(world).cameras@[0].y as int,
                    moved_y_spec(old(world).anchors@[0], input.dir, input.dt as int),
                    input.blend as int,
                )
            }
            &&& old(world).anchors@.len() != 1 ==> {
                &&& final(world).cameras@[0].x == old(world).cameras@[0].x
                &&& final(world).cameras@[0].y == old(world).cameras@[0].y
            }
        },
{
    move_camera(world, input.dir, input.dt);
    update_camera(world, input.blend);
    zoom_camera(world, &input.scrolls, input.dt);
}

} // verus!
