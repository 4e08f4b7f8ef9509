//! The player-driven anchor point the camera tracks, and the translation of
//! the four directional input signals into a unit direction.

use vstd::prelude::*;
use vstd::arithmetic::div_mod::lemma_div_multiples_vanish;
use crate::fixed::{fp_mul_spec, Vec2F, SCALE};

verus! {

/// Anchor speed: 500 units per second.
pub const ANCHOR_SPEED: i64 = 500_000;

/// `SCALE / sqrt(2)`, truncated: the component of a diagonal unit direction.
pub const DIAG: i64 = 707;

/// The logical point the camera tracks. The depth coordinate is carried but
/// never read by the simulation.
#[derive(Clone, Copy, Debug, PartialEq, Eq, Structural)]
pub struct Anchor {
    pub x: i64,
    pub y: i64,
    pub z: i64,
}

/// The four directional input signals of one frame.
#[derive(Clone, Copy, Debug, PartialEq, Eq, Structural)]
pub struct DirInput {
    pub up: bool,
    pub down: bool,
    pub left: bool,
    pub right: bool,
}

/// Horizontal sum of the input's unit contributions: one of -1, 0, 1.
pub open spec fn dir_x_spec(i: DirInput) -> int {
    (if i.right { 1int } else { 0int }) - (if i.left { 1int } else { 0int })
}

/// Vertical sum of the input's unit contributions: one of -1, 0, 1.
pub open spec fn dir_y_spec(i: DirInput) -> int {
    (if i.up { 1int } else { 0int }) - (if i.down { 1int } else { 0int })
}

/// Horizontal component of the fixed-point unit direction: a null direction
/// stays null, an axis move has magnitude `SCALE`, a diagonal move `DIAG`.
pub open spec fn norm_x_spec(i: DirInput) -> int {
    if dir_y_spec(i) == 0 {
        dir_x_spec(i) * (SCALE as int)
    } else {
        dir_x_spec(i) * (DIAG as int)
    }
}

/// Vertical component of the fixed-point unit direction.
pub open spec fn norm_y_spec(i: DirInput) -> int {
    if dir_x_spec(i) == 0 {
        dir_y_spec(i) * (SCALE as int)
    } else {
        dir_y_spec(i) * (DIAG as int)
    }
}

/// Squared magnitude of the fixed-point unit direction.
pub open spec fn norm_sq_spec(i: DirInput) -> int {
    norm_x_spec(i) * norm_x_spec(i) + norm_y_spec(i) * norm_y_spec(i)
}

/// Horizontal coordinate of the anchor after one frame of input: the unit
/// direction, scaled by the anchor speed and the frame time, is added on.
pub open spec fn moved_x_spec(a: Anchor, i: DirInput, dt: int) -> int {
    a.x + fp_mul_spec(norm_x_spec(i), fp_mul_spec(ANCHOR_SPEED as int, dt))
}

/// Vertical coordinate of the anchor after one frame of input.
pub open spec fn moved_y_spec(a: Anchor, i: DirInput, dt: int) -> int {
    a.y + fp_mul_spec(norm_y_spec(i), fp_mul_spec(ANCHOR_SPEED as int, dt))
}

/// On a single-axis move the anchor's displacement is exactly
/// `ANCHOR_SPEED / SCALE` units (500) times the frame time, with no
/// truncation loss: summing frames that partition a time span gives the
/// same total displacement at every frame rate, and the other axis does
/// not move at all.
pub proof fn lemma_axis_move_exact(a: Anchor, i: DirInput, dt: int)
    requires
        0 <= dt,
    ensures
        dir_y_spec(i) == 0 ==> {
            &&& moved_x_spec(a, i, dt) == a.x + dir_x_spec(i) * (500 * dt)
            &&& moved_y_spec(a, i, dt) == a.y
        },
        dir_x_spec(i) == 0 ==> {
            &&& moved_y_spec(a, i, dt) == a.y + dir_y_spec(i) * (500 * dt)
            &&& moved_x_spec(a, i, dt) == a.x
        },
{
    let s = 500 * dt;
    assert((ANCHOR_SPEED as int) * dt == 1000 * s);
    lemma_div_multiples_vanish(s, 1000);
    assert(fp_mul_spec(ANCHOR_SPEED as int, dt) == s);
    let dx = dir_x_spec(i);
    let dy = dir_y_spec(i);
    assert(dx == -1 || dx == 0 || dx == 1);
    assert(dy == -1 || dy == 0 || dy == 1);
    if dy == 0 {
        assert(norm_y_spec(i) == 0);
        assert(fp_mul_spec(0, s) == 0);
        if dx == 1 {
            assert(norm_x_spec(i) == 1000);
            assert(fp_mul_spec(1000, s) == s) by {
                lemma_div_multiples_vanish(s, 1000);
            }
        } else if dx == -1 {
            assert(norm_x_spec(i) == -1000);
            assert(fp_mul_spec(-1000, s) == -s) by {
                lemma_div_multiples_vanish(s, 1000);
            }
        } else {
            assert(fp_mul_spec(0, s) == 0);
        }
    }
    if dx == 0 {
        assert(norm_x_spec(i) == 0);
        assert(fp_mul_spec(0, s) == 0);
        if dy == 1 {
            assert(norm_y_spec(i) == 1000);
            assert(fp_mul_spec(1000, s) == s) by {
                lemma_div_multiples_vanish(s, 1000);
            }
        } else if dy == -1 {
            assert(norm_y_spec(i) == -1000);
            assert(fp_mul_spec(-1000, s) == -s) by {
                lemma_div_multiples_vanish(s, 1000);
            }
        }
    }
}

/// The direction for one frame's input, normalized in fixed point: each
/// active signal adds a unit contribution to its axis, opposite signals
/// cancel, and a non-null sum is brought to unit length (a null sum is
/// left null, not normalized).
pub fn normalized_direction(input: DirInput) -> (v: Vec2F)
    ensures
        v.x == norm_x_spec(input),
        v.y == norm_y_spec(input),
        -SCALE <= v.x <= SCALE,
        -SCALE <= v.y <= SCALE,
{
    let mut dx: i64 = 0;
    let mut dy: i64 = 0;
    if input.up {
        dy += 1;
    }
    if input.down {
        dy -= 1;
    }
    if input.left {
        dx -= 1;
    }
    if input.right {
        dx += 1;
    }
    let nx: i64 = if dy == 0 { dx * SCALE } else { dx * DIAG };
    let ny: i64 = if dx == 0 { dy * SCALE } else { dy * DIAG };
    Vec2F { x: nx, y: ny }
}

/// For every combination of the four directional signals, the normalized
/// direction is null exactly when the signals cancel axis by axis; any
/// other combination gives a direction of unit length: squared magnitude
/// `SCALE * SCALE` for an axis move, and `2 * DIAG * DIAG` for a diagonal
/// move, which is the nearest fixed-point square below it (diagonal speed
/// equals axis speed, with no square-root-of-two bias).
pub proof fn lemma_anchor_normalization(i: DirInput)
    ensures
        (norm_x_spec(i) == 0 && norm_y_spec(i) == 0) <==> (i.up == i.down && i.left == i.right),
        norm_sq_spec(i) == 0 || norm_sq_spec(i) == SCALE * SCALE || norm_sq_spec(i) == 2 * DIAG
            * DIAG,
        (i.up == i.down && i.left == i.right) ==> norm_sq_spec(i) == 0,
        (dir_x_spec(i) != 0 && dir_y_spec(i) == 0) ==> norm_sq_spec(i) == SCALE * SCALE,
        (dir_x_spec(i) == 0 && dir_y_spec(i) != 0) ==> norm_sq_spec(i) == SCALE * SCALE,
        (dir_x_spec(i) != 0 && dir_y_spec(i) != 0) ==> norm_sq_spec(i) == 2 * DIAG * DIAG,
        SCALE * SCALE - 302 == 2 * DIAG * DIAG,
{
    let dx = dir_x_spec(i);
    let dy = dir_y_spec(i);
    assert(dx == -1 || dx == 0 || dx == 1);
    assert(dy == -1 || dy == 0 || dy == 1);
    if dx == 0 && dy == 0 {
        assert(norm_sq_spec(i) == 0);
    } else if dy == 0 {
        assert(norm_x_spec(i) == 1000 || norm_x_spec(i) == -1000);
        assert(norm_y_spec(i) == 0);
        assert(norm_sq_spec(i) == SCALE * SCALE);
    } else if dx == 0 {
        assert(norm_y_spec(i) == 1000 || norm_y_spec(i) == -1000);
        assert(norm_x_spec(i) == 0);
        assert(norm_sq_spec(i) == SCALE * SCALE);
    } else {
        assert(norm_x_spec(i) == 707 || norm_x_spec(i) == -707);
        assert(norm_y_spec(i) == 707 || norm_y_spec(i) == -707);
        assert(norm_sq_spec(i) == 2 * DIAG * DIAG);
    }
}

} // verus!
