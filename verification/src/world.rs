//! The simulation world: an explicit registry of bodies, plus the anchor and
//! camera slots. The anchor and the camera are each created exactly once at
//! startup, but the registry holds a vector for both, so that the
//! "zero or several candidates" condition the per-frame systems must skip
//! over is an explicit, testable state.

use vstd::prelude::*;
use crate::anchor::Anchor;
use crate::body::Body;
use crate::camera::Camera;

verus! {

/// Largest coordinate magnitude the per-frame systems accept.
pub const COORD_LIMIT: i64 = 1_000_000_000_000;

/// Headroom above `COORD_LIMIT` that covers one frame's anchor move.
pub const STEP_ROOM: i64 = 100_000_000;

/// Longest frame time the per-frame systems accept: 60 seconds.
pub const MAX_DT: i64 = 60_000;

/// Largest scroll-event magnitude the zoom system accepts.
pub const MAX_SCROLL: i64 = 1_000_000_000;

/// Most scroll events one frame can carry.
pub const MAX_EVENTS: usize = 1024;

/// The simulation world. No entity holds a reference to another: all
/// cross-entity effects go through the per-frame systems.
pub struct World {
    pub bodies: Vec<Body>,
    pub anchors: Vec<Anchor>,
    pub cameras: Vec<Camera>,
}

impl World {
    /// Every body of the registry keeps its invariant.
    pub open spec fn wf(self) -> bool {
        forall|i: int| 0 <= i < self.bodies@.len() ==> (#[trigger] self.bodies@[i]).wf()
    }

    /// An empty world, before the startup systems run.
    pub fn new() -> (w: World)
        ensures
            w.bodies@.len() == 0,
            w.anchors@.len() == 0,
            w.cameras@.len() == 0,
            w.wf(),
    {
        World { bodies: Vec::new(), anchors: Vec::new(), cameras: Vec::new() }
    }
}

} // verus!
