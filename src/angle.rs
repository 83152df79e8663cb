use vstd::prelude::*;
use crate::geometry::{Vec2, WORLD_LIMIT};

verus! {

/// Half a turn, in milliradians.
pub const PI_MRAD: i64 = 3142;

/// A full turn, in milliradians.
pub const TAU_MRAD: i64 = 6284;

/// Number of compass directions that headings resolve to (one every 5 degrees).
pub const DIRECTIONS: u32 = 72;

/// Sine of `5 * k` degrees for `0 <= k <= 18`, in thousandths.
pub open spec fn sin_quarter(k: int) -> int {
    if k <= 0 { 0 }
    else if k == 1 { 87 }
    else if k == 2 { 174 }
    else if k == 3 { 259 }
    else if k == 4 { 342 }
    else if k == 5 { 423 }
    else if k == 6 { 500 }
    else if k == 7 { 574 }
    else if k == 8 { 643 }
    else if k == 9 { 707 }
    else if k == 10 { 766 }
    else if k == 11 { 819 }
    else if k == 12 { 866 }
    else if k == 13 { 906 }
    else if k == 14 { 940 }
    else if k == 15 { 966 }
    else if k == 16 { 985 }
    else if k == 17 { 996 }
    else { 1000 }
}

/// Sine of direction `d` (that is, of `5 * d` degrees), in thousandths, for `0 <= d < 72`.
pub open spec fn sin_dir(d: int) -> int {
    if d <= 18 {
        sin_quarter(d)
    } else if d <= 36 {
        sin_quarter(36 - d)
    } else if d <= 54 {
        -sin_quarter(d - 36)
    } else {
        -sin_quarter(72 - d)
    }
}

/// Cosine of direction `d`, in thousandths.
pub open spec fn cos_dir(d: int) -> int {
    sin_dir((d + 18) % 72)
}

fn sin_quarter_exec(k: u32) -> (r: i64)
    requires
        k <= 18,
    ensures
        r == sin_quarter(k as int),
        0 <= r <= 1000,
{
    if k == 0 { 0 }
    else if k == 1 { 87 }
    else if k == 2 { 174 }
    else if k == 3 { 259 }
    else if k == 4 { 342 }
    else if k == 5 { 423 }
    else if k == 6 { 500 }
    else if k == 7 { 574 }
    else if k == 8 { 643 }
    else if k == 9 { 707 }
    else if k == 10 { 766 }
    else if k == 11 { 819 }
    else if k == 12 { 866 }
    else if k == 13 { 906 }
    else if k == 14 { 940 }
    else if k == 15 { 966 }
    else if k == 16 { 985 }
    else if k == 17 { 996 }
    else { 1000 }
}

/// Sine of direction `d`, in thousandths.
pub fn sin_of_dir(d: u32) -> (r: i64)
    requires
        d < DIRECTIONS,
    ensures
        r == sin_dir(d as int),
        -1000 <= r <= 1000,
{
    if d <= 18 {
        sin_quarter_exec(d)
    } else if d <= 36 {
        sin_quarter_exec(36 - d)
    } else if d <= 54 {
        -sin_quarter_exec(d - 36)
    } else {
        -sin_quarter_exec(72 - d)
    }
}

/// Cosine of direction `d`, in thousandths.
pub fn cos_of_dir(d: u32) -> (r: i64)
    requires
        d < DIRECTIONS,
    ensures
        r == cos_dir(d as int),
        -1000 <= r <= 1000,
{
    sin_of_dir((d + 18) % 72)
}

/// Brings an angle that is at most one turn outside `[-PI, PI]` back into it.
pub open spec fn wrap_once(a: int) -> int {
    if a > PI_MRAD {
        a - TAU_MRAD
    } else if a < -PI_MRAD {
        a + TAU_MRAD
    } else {
        a
    }
}

/// The direction nearest to angle `a` (milliradians, any sign).
pub open spec fn dir_of_angle(a: int) -> int {
    ((a % (TAU_MRAD as int)) * 72 + TAU_MRAD / 2) / (TAU_MRAD as int) % 72
}

/// The angle of direction `d`, in milliradians, within `(-PI, PI]`.
pub open spec fn angle_of_dir(d: int) -> int {
    wrap_once(d * TAU_MRAD / 72)
}

/// How well direction `d` points along `v`: the dot product of its unit vector with `v`.
pub open spec fn aim_score(d: int, v: Vec2) -> int {
    cos_dir(d) * v.x + sin_dir(d) * v.y
}

/// The direction that best points along `v`: the first of those with the greatest score.
pub open spec fn is_aim_dir(d: int, v: Vec2) -> bool {
    &&& 0 <= d < 72
    &&& forall|e: int| 0 <= e < 72 ==> aim_score(e, v) <= aim_score(d, v)
    &&& forall|e: int| 0 <= e < d ==> aim_score(e, v) < aim_score(d, v)
}

/// The best aiming direction along `v`.
pub open spec fn aim_dir(v: Vec2) -> int {
    choose|d: int| is_aim_dir(d, v)
}

/// At most one direction is the best aiming direction along a vector.
pub proof fn lemma_aim_dir_unique(d1: int, d2: int, v: Vec2)
    requires
        is_aim_dir(d1, v),
        is_aim_dir(d2, v),
    ensures
        d1 == d2,
{
    if d1 < d2 {
        assert(aim_score(d1, v) < aim_score(d2, v));
    } else if d2 < d1 {
        assert(aim_score(d2, v) < aim_score(d1, v));
    }
}

/// The direction nearest to the angle `a`, for `-2 * TAU <= a <= 2 * TAU`.
pub fn direction_of_angle(a: i64) -> (d: u32)
    requires
        -2 * TAU_MRAD <= a <= 2 * TAU_MRAD,
    ensures
        d as int == dir_of_angle(a as int),
        d < DIRECTIONS,
{
    let mut n: i64 = a;
    if n < 0 {
        n = n + TAU_MRAD;
    }
    if n < 0 {
        n = n + TAU_MRAD;
    }
    if n >= TAU_MRAD {
        n = n - TAU_MRAD;
    }
    if n >= TAU_MRAD {
        n = n - TAU_MRAD;
    }
    assert(n as int == (a as int) % (TAU_MRAD as int));
    (((n * 72 + TAU_MRAD / 2) / TAU_MRAD) % 72) as u32
}

/// The angle of direction `d`, in milliradians, within `(-PI, PI]`.
pub fn angle_of_direction(d: u32) -> (a: i64)
    requires
        d < DIRECTIONS,
    ensures
        a == angle_of_dir(d as int),
        -PI_MRAD <= a <= PI_MRAD,
{
    let raw: i64 = (d as i64) * TAU_MRAD / 72;
    if raw > PI_MRAD {
        raw - TAU_MRAD
    } else {
        raw
    }
}

/// The direction that best points along `v` (the discrete counterpart of `atan2`).
pub fn direction_toward(v: Vec2) -> (d: u32)
    requires
        -2 * WORLD_LIMIT <= v.x <= 2 * WORLD_LIMIT,
        -2 * WORLD_LIMIT <= v.y <= 2 * WORLD_LIMIT,
    ensures
        is_aim_dir(d as int, v),
        d as int == aim_dir(v),
        d < DIRECTIONS,
{
    let mut best: u32 = 0;
    let mut best_score: i64 = cos_of_dir(0) * v.x + sin_of_dir(0) * v.y;
    let mut e: u32 = 1;
    while e < DIRECTIONS
        invariant
            1 <= e <= DIRECTIONS,
            best < e,
            best_score == aim_score(best as int, v),
            -2 * WORLD_LIMIT <= v.x <= 2 * WORLD_LIMIT,
            -2 * WORLD_LIMIT <= v.y <= 2 * WORLD_LIMIT,
            forall|k: int| 0 <= k < e ==> aim_score(k, v) <= aim_score(best as int, v),
            forall|k: int| 0 <= k < best ==> aim_score(k, v) < aim_score(best as int, v),
        decreases DIRECTIONS - e,
    {
        let c = cos_of_dir(e);
        let s = sin_of_dir(e);
        assert(-200_000_000_000 <= c * v.x <= 200_000_000_000) by (nonlinear_arith)
            requires -1000 <= c <= 1000, -200_000_000 <= v.x <= 200_000_000;
        assert(-200_000_000_000 <= s * v.y <= 200_000_000_000) by (nonlinear_arith)
            requires -1000 <= s <= 1000, -200_000_000 <= v.y <= 200_000_000;
        let score = c * v.x + s * v.y;
        if score > best_score {
            best = e;
            best_score = score;
        }
        e = e + 1;
    }
    proof {
        assert(is_aim_dir(best as int, v));
        let c = aim_dir(v);
        lemma_aim_dir_unique(best as int, c, v);
    }
    best
}

/// The heading after one steering step toward `target`: the angle error, taken the short
/// way round, is closed by a tenth (rounded toward zero), and the result is kept in
/// `[-PI, PI]`.
pub open spec fn steer_spec(rotation: int, target: int) -> int {
    let err = wrap_once(target - rotation);
    let turn = if err >= 0 { err / 10 } else { -((-err) / 10) };
    wrap_once(rotation + turn)
}

/// One steering step of a heading `rotation` toward the angle `target`.
pub fn steer(rotation: i64, target: i64) -> (r: i64)
    requires
        -PI_MRAD <= rotation <= PI_MRAD,
        -PI_MRAD <= target <= PI_MRAD,
    ensures
        r == steer_spec(rotation as int, target as int),
        -PI_MRAD <= r <= PI_MRAD,
{
    let raw = target - rotation;
    let err = if raw > PI_MRAD {
        raw - TAU_MRAD
    } else if raw < -PI_MRAD {
        raw + TAU_MRAD
    } else {
        raw
    };
    let turn = if err >= 0 { err / 10 } else { -((-err) / 10) };
    let next = rotation + turn;
    if next > PI_MRAD {
        next - TAU_MRAD
    } else if next < -PI_MRAD {
        next + TAU_MRAD
    } else {
        next
    }
}

} // verus!
