//! The camera: a position whose x/y smoothly track the anchor while z stays
//! fixed, and a uniform zoom scale driven by scroll events.

use vstd::prelude::*;
use vstd::arithmetic::div_mod::{
    lemma_div_multiples_vanish,
    lemma_div_pos_is_pos,
    lemma_fundamental_div_mod,
    lemma_mod_bound,
};
use vstd::arithmetic::mul::lemma_mul_inequality;
use crate::fixed::{abs_i, fp_mul_spec, SCALE};

verus! {

/// Decay rate of the camera's tracking: 8 per second. The per-frame blend
/// fraction handed to the tracking update is derived from it by the caller,
/// as `SCALE` times `1 - exp(-CAMERA_DECAY_RATE/SCALE * dt)`.
pub const CAMERA_DECAY_RATE: i64 = 8_000;

/// Zoom speed: scroll delta to scale change, 3 per second.
pub const CAMERA_ZOOM_SPEED: i64 = 3_000;

/// The camera's view transform: a 3D position whose z never changes across
/// the run, and a uniform (isotropic) zoom scale.
#[derive(Clone, Copy, Debug, PartialEq, Eq, Structural)]
pub struct Camera {
    pub x: i64,
    pub y: i64,
    pub z: i64,
    pub scale: i64,
}

/// One scroll-wheel event: a signed vertical delta, consumed once.
#[derive(Clone, Copy, Debug, PartialEq, Eq, Structural)]
pub struct ScrollEvent {
    pub y: i64,
}

/// One exponential-smoothing step of a coordinate `p` toward a target `t`:
/// `p` moves the fraction `blend / SCALE` of the remaining distance.
pub open spec fn nudged_spec(p: int, t: int, blend: int) -> int {
    p + fp_mul_spec(t - p, blend)
}

/// The scale change one scroll event contributes in a frame of length `dt`.
pub open spec fn zoom_delta_spec(y: int, dt: int) -> int {
    fp_mul_spec(fp_mul_spec(y, CAMERA_ZOOM_SPEED as int), dt)
}

/// The scale change a whole frame's scroll events contribute, drained in
/// arrival order; each event applies cumulatively.
pub open spec fn zoom_total_spec(events: Seq<ScrollEvent>, dt: int) -> int
    decreases events.len(),
{
    if events.len() == 0 {
        0
    } else {
        zoom_total_spec(events.drop_last(), dt) + zoom_delta_spec(events.last().y as int, dt)
    }
}

/// A smoothing step never overshoots: the nudged coordinate stays between
/// the start and the target, so the distance to a stationary target never
/// grows; a zero blend leaves the coordinate unchanged, and a full blend
/// reaches the target exactly.
pub proof fn lemma_tracking_no_overshoot(p: int, t: int, blend: int)
    requires
        0 <= blend <= SCALE,
    ensures
        p <= t ==> p <= nudged_spec(p, t, blend) <= t,
        t <= p ==> t <= nudged_spec(p, t, blend) <= p,
        abs_i(t - nudged_spec(p, t, blend)) <= abs_i(t - p),
        blend == 0 ==> nudged_spec(p, t, blend) == p,
        blend == SCALE ==> nudged_spec(p, t, blend) == t,
{
    let d = t - p;
    if d >= 0 {
        lemma_mul_inequality(0, d, blend);
        let prod = d * blend;
        let q = prod / 1000;
        lemma_div_pos_is_pos(prod, 1000);
        lemma_fundamental_div_mod(prod, 1000);
        lemma_mod_bound(prod, 1000);
        lemma_mul_inequality(blend, SCALE as int, d);
        assert(1000 * q <= prod <= 1000 * d);
        assert(fp_mul_spec(d, blend) == q);
        if blend == SCALE {
            lemma_div_multiples_vanish(d, 1000);
            assert(prod == 1000 * d);
        }
    } else {
        lemma_mul_inequality(d, 0, blend);
        let m = -(d * blend);
        let q = m / 1000;
        lemma_div_pos_is_pos(m, 1000);
        lemma_fundamental_div_mod(m, 1000);
        lemma_mod_bound(m, 1000);
        assert(-(d * blend) == (-d) * blend) by (nonlinear_arith);
        lemma_mul_inequality(blend, SCALE as int, -d);
        assert(blend * (-d) == (-d) * blend) by (nonlinear_arith);
        assert(1000 * q <= m);
        assert(m <= 1000 * (-d));
        if d * blend >= 0 {
            assert(d * blend == 0);
            assert(fp_mul_spec(d, blend) == 0);
        } else {
            assert(fp_mul_spec(d, blend) == -q);
        }
        if blend == SCALE {
            lemma_div_multiples_vanish(-d, 1000);
            assert(m == 1000 * (-d));
        }
    }
}

} // verus!
