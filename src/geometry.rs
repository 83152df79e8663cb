use vstd::prelude::*;

verus! {

/// Milli-pixels in one logical pixel: every simulated length is held in milli-pixels.
pub const UNIT: i64 = 1000;

/// Width of the logical playfield, in logical pixels.
pub const BASE_WINDOW_WIDTH: i64 = 1024;

/// Height of the logical playfield, in logical pixels.
pub const BASE_WINDOW_HEIGHT: i64 = 768;

/// Width of the logical playfield, in milli-pixels.
pub const FIELD_WIDTH: i64 = 1_024_000;

/// Height of the logical playfield, in milli-pixels.
pub const FIELD_HEIGHT: i64 = 768_000;

/// Largest window dimension, in physical pixels, that the scale arithmetic admits.
pub const MAX_WINDOW_DIM: u32 = 16384;

/// Enemy and pickup speed, in logical pixels per second, before window scaling.
pub const ENEMY_SPEED: i64 = 120;

/// Bound on the magnitude of any simulated coordinate, in milli-pixels.
pub const WORLD_LIMIT: i64 = 100_000_000;

/// Bound on the magnitude of a per-frame velocity component, in milli-pixels.
pub const SPEED_LIMIT: i64 = 1_000_000;

/// Bound on an entity's width or height, in milli-pixels.
pub const SIZE_LIMIT: i64 = 1_000_000;

/// A point or a displacement in the logical plane, in milli-pixels.
#[derive(Clone, Copy, Debug, PartialEq, Eq, Structural)]
pub struct Vec2 {
    pub x: i64,
    pub y: i64,
}

impl Vec2 {
    pub fn new(x: i64, y: i64) -> (r: Vec2)
        ensures
            r.x == x,
            r.y == y,
    {
        Vec2 { x, y }
    }

    pub fn zero() -> (r: Vec2)
        ensures
            r.x == 0,
            r.y == 0,
    {
        Vec2 { x: 0, y: 0 }
    }
}

/// `v * num / den`, rounded toward zero.
pub open spec fn scale_trunc(v: int, num: int, den: int) -> int {
    if v >= 0 {
        v * num / den
    } else {
        -((-v) * num / den)
    }
}

/// Computes `v * num / den` rounded toward zero.
pub fn mul_div_trunc(v: i64, num: i64, den: i64) -> (r: i64)
    requires
        0 <= num <= 1_000_000_000,
        0 < den,
        -1_000_000_000 <= v <= 1_000_000_000,
    ensures
        r == scale_trunc(v as int, num as int, den as int),
        v >= 0 ==> 0 <= r,
        v <= 0 ==> r <= 0,
        num <= den && v >= 0 ==> r <= v,
        num <= den && v <= 0 ==> v <= r,
{
    let m: i128 = if v >= 0 { v as i128 } else { -(v as i128) };
    let n: i128 = num as i128;
    let d: i128 = den as i128;
    assert(0 <= m * n <= 1_000_000_000 * 1_000_000_000) by (nonlinear_arith)
        requires 0 <= m <= 1_000_000_000, 0 <= n <= 1_000_000_000;
    let q: i128 = (m * n) / d;
    assert(q <= m * n) by (nonlinear_arith)
        requires 0 <= m * n, 0 < d, q as int == (m * n) as int / d as int;
    proof {
        if m == 0 {
            assert(m * n == 0) by (nonlinear_arith)
                requires m == 0;
        }
        if num <= den {
            assert(q <= m) by (nonlinear_arith)
                requires 0 <= m, 0 <= n <= d, 0 < d, q as int == (m * n) as int / d as int;
        }
    }
    if v >= 0 {
        q as i64
    } else {
        -(q as i64)
    }
}

/// The physical window, in pixels, onto which the logical playfield is scaled.
#[derive(Clone, Copy, Debug, PartialEq, Eq, Structural)]
pub struct WindowSize {
    pub width: u32,
    pub height: u32,
}

impl WindowSize {
    /// Both dimensions are positive and within the supported range.
    pub open spec fn wf(&self) -> bool {
        1 <= self.width <= MAX_WINDOW_DIM && 1 <= self.height <= MAX_WINDOW_DIM
    }

    pub fn new(width: u32, height: u32) -> (r: WindowSize)
        requires
            1 <= width <= MAX_WINDOW_DIM,
            1 <= height <= MAX_WINDOW_DIM,
        ensures
            r.wf(),
            r.width == width,
            r.height == height,
    {
        WindowSize { width, height }
    }

    /// The physical image of a logical vector: x scaled by width / 1024, y by height / 768.
    pub open spec fn scaled(&self, v: Vec2) -> Vec2 {
        Vec2 {
            x: scale_trunc(v.x as int, self.width as int, BASE_WINDOW_WIDTH as int) as i64,
            y: scale_trunc(v.y as int, self.height as int, BASE_WINDOW_HEIGHT as int) as i64,
        }
    }

    /// The logical preimage of a physical vector: x scaled by 1024 / width, y by 768 / height.
    pub open spec fn unscaled(&self, v: Vec2) -> Vec2 {
        Vec2 {
            x: scale_trunc(v.x as int, BASE_WINDOW_WIDTH as int, self.width as int) as i64,
            y: scale_trunc(v.y as int, BASE_WINDOW_HEIGHT as int, self.height as int) as i64,
        }
    }

    pub fn scale_vec2(&self, v: Vec2) -> (r: Vec2)
        requires
            self.wf(),
            -WORLD_LIMIT <= v.x <= WORLD_LIMIT,
            -WORLD_LIMIT <= v.y <= WORLD_LIMIT,
        ensures
            r == self.scaled(v),
    {
        Vec2 {
            x: mul_div_trunc(v.x, self.width as i64, BASE_WINDOW_WIDTH),
            y: mul_div_trunc(v.y, self.height as i64, BASE_WINDOW_HEIGHT),
        }
    }

    pub fn unscale_vec2(&self, v: Vec2) -> (r: Vec2)
        requires
            self.wf(),
            -WORLD_LIMIT <= v.x <= WORLD_LIMIT,
            -WORLD_LIMIT <= v.y <= WORLD_LIMIT,
        ensures
            r == self.unscaled(v),
    {
        Vec2 {
            x: mul_div_trunc(v.x, BASE_WINDOW_WIDTH, self.width as i64),
            y: mul_div_trunc(v.y, BASE_WINDOW_HEIGHT, self.height as i64),
        }
    }

    /// Player speed per frame: 5 logical pixels scaled by width / 1024, in milli-pixels.
    pub open spec fn player_speed_spec(&self) -> int {
        5 * UNIT as int * self.width as int / BASE_WINDOW_WIDTH as int
    }

    /// Straight bullet speed per frame: 8 logical pixels scaled by height / 768.
    pub open spec fn bullet_speed_spec(&self) -> int {
        8 * UNIT as int * self.height as int / BASE_WINDOW_HEIGHT as int
    }

    /// Enemy and pickup speed per second: 120 logical pixels scaled by height / 768, in
    /// milli-pixels.
    pub open spec fn enemy_speed_spec(&self) -> int {
        ENEMY_SPEED * UNIT as int * self.height as int / BASE_WINDOW_HEIGHT as int
    }

    /// Numerator of the smaller of the two scale factors, over 1024 * 768.
    pub open spec fn min_scale_num(&self) -> int {
        let sx = self.width as int * BASE_WINDOW_HEIGHT as int;
        let sy = self.height as int * BASE_WINDOW_WIDTH as int;
        if sx <= sy {
            sx
        } else {
            sy
        }
    }

    pub fn player_speed(&self) -> (r: i64)
        requires
            self.wf(),
        ensures
            r == self.player_speed_spec(),
            0 <= r <= 80_000,
    {
        5 * UNIT * (self.width as i64) / BASE_WINDOW_WIDTH
    }

    pub fn bullet_speed(&self) -> (r: i64)
        requires
            self.wf(),
        ensures
            r == self.bullet_speed_spec(),
            0 <= r <= 180_000,
    {
        8 * UNIT * (self.height as i64) / BASE_WINDOW_HEIGHT
    }

    pub fn enemy_speed(&self) -> (r: i64)
        requires
            self.wf(),
        ensures
            r == self.enemy_speed_spec(),
            0 <= r <= 2_560_000,
    {
        ENEMY_SPEED * UNIT * (self.height as i64) / BASE_WINDOW_HEIGHT
    }

    pub fn min_scale_numerator(&self) -> (r: i64)
        requires
            self.wf(),
        ensures
            r == self.min_scale_num(),
            BASE_WINDOW_HEIGHT <= r <= MAX_WINDOW_DIM * BASE_WINDOW_WIDTH,
    {
        let sx = (self.width as i64) * BASE_WINDOW_HEIGHT;
        let sy = (self.height as i64) * BASE_WINDOW_WIDTH;
        if sx <= sy {
            sx
        } else {
            sy
        }
    }
}

} // verus!
