use vstd::prelude::*;
use crate::angle::{cos_dir, cos_of_dir, sin_dir, sin_of_dir, DIRECTIONS};
use crate::geometry::{
    mul_div_trunc, scale_trunc, Vec2, WindowSize, BASE_WINDOW_HEIGHT, BASE_WINDOW_WIDTH,
    SIZE_LIMIT, SPEED_LIMIT, UNIT, WORLD_LIMIT,
};
use crate::random::random_in_range;

verus! {

/// How long a particle lives, in microseconds.
pub const PARTICLE_LIFETIME: i64 = 500_000;

/// Particles requested by one burst.
pub const EXPLOSION_PARTICLES: usize = 10;

/// Nominal particle speed, in logical pixels per second, before display scaling.
pub const PARTICLE_SPEED: i64 = 50;

/// Nominal particle size, in logical pixels, before display scaling.
pub const PARTICLE_SIZE: i64 = 2;

/// Capacity of the particle pool.
pub const MAX_PARTICLES: usize = 1000;

/// Microseconds in one second.
pub const MICROS_PER_SECOND: i64 = 1_000_000;

/// A colour with red, green, blue and alpha channels, each in thousandths.
#[derive(Clone, Copy, Debug, PartialEq, Eq, Structural)]
pub struct Color {
    pub r: u32,
    pub g: u32,
    pub b: u32,
    pub a: u32,
}

impl Color {
    pub open spec fn wf(&self) -> bool {
        self.r <= 1000 && self.g <= 1000 && self.b <= 1000 && self.a <= 1000
    }

    pub fn new(r: u32, g: u32, b: u32, a: u32) -> (c: Color)
        ensures
            c.r == r,
            c.g == g,
            c.b == b,
            c.a == a,
    {
        Color { r, g, b, a }
    }
}

/// A short-lived decoration. `vel` is in milli-pixels per second, `lifetime` in
/// microseconds and `size` in milli-pixels.
#[derive(Clone, Copy, Debug, PartialEq, Eq, Structural)]
pub struct Particle {
    pub pos: Vec2,
    pub vel: Vec2,
    pub color: Color,
    pub lifetime: i64,
    pub size: i64,
}

pub open spec fn clamp_coord(v: int) -> int {
    if v < -WORLD_LIMIT {
        -WORLD_LIMIT as int
    } else if v > WORLD_LIMIT {
        WORLD_LIMIT as int
    } else {
        v
    }
}

/// A particle after `dt` microseconds: it moves by `vel * dt` (unless it expires in this
/// step), its lifetime drops by `dt` (saturating at the least `i64`), its alpha becomes the
/// fraction of lifetime left (zero once expired), and its size shrinks by that fraction,
/// but never below a tenth.
pub open spec fn particle_step(p: Particle, dt: int) -> Particle {
    let life = if p.lifetime - dt < i64::MIN { i64::MIN as int } else { p.lifetime - dt };
    let frac = if life > 0 { life * 1000 / (PARTICLE_LIFETIME as int) } else { 0 };
    Particle {
        pos: if life > 0 {
            Vec2 {
                x: clamp_coord(p.pos.x + scale_trunc(p.vel.x as int, dt, MICROS_PER_SECOND as int))
                    as i64,
                y: clamp_coord(p.pos.y + scale_trunc(p.vel.y as int, dt, MICROS_PER_SECOND as int))
                    as i64,
            }
        } else {
            p.pos
        },
        vel: p.vel,
        color: Color { a: (if frac < 1000 { frac } else { 1000 }) as u32, ..p.color },
        lifetime: life as i64,
        size: (p.size * (if frac > 100 { frac } else { 100 }) / 1000) as i64,
    }
}

/// Whether a particle is still alive.
pub open spec fn alive(p: Particle) -> bool {
    p.lifetime > 0
}

/// Base speed of a burst's particles in milli-pixels per second: the nominal speed scaled
/// by the smaller display scale factor.
pub open spec fn burst_speed(w: WindowSize) -> int {
    PARTICLE_SPEED * UNIT * w.min_scale_num() / (BASE_WINDOW_WIDTH * BASE_WINDOW_HEIGHT)
}

/// Base size of a burst's particles in milli-pixels, scaled like `burst_speed`.
pub open spec fn burst_size(w: WindowSize) -> int {
    PARTICLE_SIZE * UNIT * w.min_scale_num() / (BASE_WINDOW_WIDTH * BASE_WINDOW_HEIGHT)
}

/// The velocity of speed `s` along direction `d`.
pub open spec fn velocity_along(d: int, s: int) -> Vec2 {
    Vec2 { x: scale_trunc(cos_dir(d), s, 1000) as i64, y: scale_trunc(sin_dir(d), s, 1000) as i64 }
}

/// A fresh particle of a burst at `pos` in colour `color`: a random direction, a speed in
/// `[base / 2, base)` and a size in `[size / 2, 3 * size / 2)`.
pub open spec fn is_burst_particle(p: Particle, pos: Vec2, color: Color, w: WindowSize) -> bool {
    &&& p.pos == pos
    &&& p.color == color
    &&& p.lifetime == PARTICLE_LIFETIME
    &&& burst_size(w) / 2 <= p.size < burst_size(w) * 3 / 2
    &&& exists|d: int, s: int|
        0 <= d < 72 && burst_speed(w) / 2 <= s < burst_speed(w) && #[trigger] velocity_along(d, s)
            == p.vel
}

/// How many particles a burst adds to a pool that holds `len`.
pub open spec fn burst_count(len: int) -> int {
    let room = MAX_PARTICLES - len;
    if room < EXPLOSION_PARTICLES {
        room
    } else {
        EXPLOSION_PARTICLES as int
    }
}

/// `after` is `before` followed by one burst at `pos` in colour `color`: as many fresh
/// particles as the cap leaves room for, up to `EXPLOSION_PARTICLES`.
pub open spec fn is_burst_after(
    before: Seq<Particle>,
    after: Seq<Particle>,
    pos: Vec2,
    color: Color,
    w: WindowSize,
) -> bool {
    &&& after.len() == before.len() + burst_count(before.len() as int)
    &&& after.take(before.len() as int) == before
    &&& forall|i: int|
        before.len() <= i < after.len() ==> is_burst_particle(#[trigger] after[i], pos, color, w)
}

/// `after` is `before` followed by one burst at each of `spots` (a place and a colour),
/// in order.
pub open spec fn burst_chain(
    before: Seq<Particle>,
    after: Seq<Particle>,
    spots: Seq<(Vec2, Color)>,
    w: WindowSize,
) -> bool
    decreases spots.len(),
{
    if spots.len() == 0 {
        after == before
    } else {
        exists|mid: Seq<Particle>|
            burst_chain(before, mid, spots.drop_last(), w) && #[trigger] is_burst_after(
                mid,
                after,
                spots.last().0,
                spots.last().1,
                w,
            )
    }
}

/// One more burst extends a chain of bursts by one spot.
pub proof fn lemma_burst_chain_push(
    before: Seq<Particle>,
    mid: Seq<Particle>,
    after: Seq<Particle>,
    spots: Seq<(Vec2, Color)>,
    pos: Vec2,
    color: Color,
    w: WindowSize,
)
    requires
        burst_chain(before, mid, spots, w),
        is_burst_after(mid, after, pos, color, w),
    ensures
        burst_chain(before, after, spots.push((pos, color)), w),
{
    let longer = spots.push((pos, color));
    assert(longer.drop_last() =~= spots);
    assert(longer.last() == (pos, color));
    assert(burst_chain(before, mid, longer.drop_last(), w));
    assert(is_burst_after(mid, after, longer.last().0, longer.last().1, w));
}

impl Particle {
    pub open spec fn wf(&self) -> bool {
        &&& -WORLD_LIMIT <= self.pos.x <= WORLD_LIMIT
        &&& -WORLD_LIMIT <= self.pos.y <= WORLD_LIMIT
        &&& -SPEED_LIMIT <= self.vel.x <= SPEED_LIMIT
        &&& -SPEED_LIMIT <= self.vel.y <= SPEED_LIMIT
        &&& self.lifetime <= PARTICLE_LIFETIME
        &&& 0 <= self.size <= SIZE_LIMIT
        &&& self.color.wf()
    }

    pub fn new(pos: Vec2, vel: Vec2, color: Color, size: i64) -> (p: Particle)
        ensures
            p.pos == pos,
            p.vel == vel,
            p.color == color,
            p.lifetime == PARTICLE_LIFETIME,
            p.size == size,
    {
        Particle { pos, vel, color, lifetime: PARTICLE_LIFETIME, size }
    }

    /// Advances the particle by `dt` microseconds.
    pub fn update(&mut self, dt: u64)
        requires
            old(self).wf(),
        ensures
            *final(self) == particle_step(*old(self), dt as int),
            final(self).wf(),
    {
        let l: i128 = self.lifetime as i128 - dt as i128;
        let life: i64 = if l < i64::MIN as i128 {
            i64::MIN
        } else {
            l as i64
        };
        if life > 0 {
            let t = dt as i64;
            let mx = mul_div_trunc(self.vel.x, t, MICROS_PER_SECOND);
            let my = mul_div_trunc(self.vel.y, t, MICROS_PER_SECOND);
            let nx = self.pos.x + mx;
            let ny = self.pos.y + my;
            self.pos = Vec2 {
                x: if nx < -WORLD_LIMIT {
                    -WORLD_LIMIT
                } else if nx > WORLD_LIMIT {
                    WORLD_LIMIT
                } else {
                    nx
                },
                y: if ny < -WORLD_LIMIT {
                    -WORLD_LIMIT
                } else if ny > WORLD_LIMIT {
                    WORLD_LIMIT
                } else {
                    ny
                },
            };
        }
        let frac = if life > 0 { life * 1000 / PARTICLE_LIFETIME } else { 0 };
        self.lifetime = life;
        self.color.a = if frac < 1000 { frac as u32 } else { 1000 };
        let keep = if frac > 100 { frac } else { 100 };
        assert(0 <= self.size * keep <= SIZE_LIMIT * 1000) by (nonlinear_arith)
            requires 0 <= self.size <= SIZE_LIMIT, 0 <= keep <= 1000;
        assert(self.size * keep / 1000 <= self.size) by (nonlinear_arith)
            requires 0 <= self.size, 0 <= keep <= 1000;
        self.size = self.size * keep / 1000;
    }
}

/// A pool of particles that never holds more than `MAX_PARTICLES`.
pub struct ParticleSystem {
    pub particles: Vec<Particle>,
}

impl ParticleSystem {
    pub open spec fn wf(&self) -> bool {
        &&& self.particles@.len() <= MAX_PARTICLES
        &&& forall|i: int| 0 <= i < self.particles@.len() ==> (#[trigger] self.particles@[i]).wf()
    }

    pub fn new() -> (s: ParticleSystem)
        ensures
            s.wf(),
            s.particles@.len() == 0,
    {
        ParticleSystem { particles: Vec::new() }
    }

    /// Advances every particle by `dt` microseconds and drops those whose lifetime ran out.
    pub fn update(&mut self, dt: u64)
        requires
            old(self).wf(),
        ensures
            final(self).wf(),
            final(self).particles@ == old(self).particles@.map_values(
                |p: Particle| particle_step(p, dt as int),
            ).filter(|p: Particle| alive(p)),
    {
        let ghost stepped = self.particles@.map_values(|p: Particle| particle_step(p, dt as int));
        let mut kept: Vec<Particle> = Vec::new();
        let n = self.particles.len();
        let mut i: usize = 0;
        while i < n
            invariant
                n == self.particles@.len(),
                self.particles@ == old(self).particles@,
                old(self).wf(),
                i <= n,
                stepped == old(self).particles@.map_values(
                    |p: Particle| particle_step(p, dt as int),
                ),
                kept@ == stepped.take(i as int).filter(|p: Particle| alive(p)),
                kept@.len() <= i,
                forall|k: int| 0 <= k < kept@.len() ==> (#[trigger] kept@[k]).wf(),
            decreases n - i,
        {
            let mut p = self.particles[i];
            p.update(dt);
            proof {
                let pred = |q: Particle| alive(q);
                let prefix = stepped.take(i as int);
                assert(stepped.take(i as int + 1).drop_last() =~= prefix);
                assert(stepped.take(i as int + 1).last() == p);
                reveal(Seq::filter);
                assert(stepped.take(i as int + 1).filter(pred) == (if alive(p) {
                    prefix.filter(pred).push(p)
                } else {
                    prefix.filter(pred)
                }));
            }
            if p.lifetime > 0 {
                kept.push(p);
            }
            i = i + 1;
        }
        assert(stepped.take(n as int) =~= stepped);
        self.particles = kept;
    }

    /// Requests a burst of `EXPLOSION_PARTICLES` particles at `pos` in colour `color`; the
    /// burst is cut short where the pool would otherwise exceed `MAX_PARTICLES`.
    pub fn add_explosion(&mut self, pos: Vec2, color: Color, window_size: &WindowSize)
        requires
            old(self).wf(),
            window_size.wf(),
            color.wf(),
            -WORLD_LIMIT <= pos.x <= WORLD_LIMIT,
            -WORLD_LIMIT <= pos.y <= WORLD_LIMIT,
        ensures
            final(self).wf(),
            final(self).particles@.len() <= MAX_PARTICLES,
            is_burst_after(old(self).particles@, final(self).particles@, pos, color, *window_size),
    {
        let len = self.particles.len();
        let room = MAX_PARTICLES - len;
        let count = if room < EXPLOSION_PARTICLES {
            room
        } else {
            EXPLOSION_PARTICLES
        };
        let m = window_size.min_scale_numerator();
        assert(768 <= m <= 16_777_216);
        assert(0 <= PARTICLE_SPEED * UNIT * m <= 50_000 * 16_777_216) by (nonlinear_arith)
            requires 768 <= m <= 16_777_216, PARTICLE_SPEED == 50, UNIT == 1000;
        assert(0 <= PARTICLE_SIZE * UNIT * m <= 2_000 * 16_777_216) by (nonlinear_arith)
            requires 768 <= m <= 16_777_216, PARTICLE_SIZE == 2, UNIT == 1000;
        let base_speed = PARTICLE_SPEED * UNIT * m / (BASE_WINDOW_WIDTH * BASE_WINDOW_HEIGHT);
        let base_size = PARTICLE_SIZE * UNIT * m / (BASE_WINDOW_WIDTH * BASE_WINDOW_HEIGHT);
        assert(m <= 12_582_912);
        assert(48 <= base_speed <= 800_000) by (nonlinear_arith)
            requires
                768 <= m <= 12_582_912,
                base_speed == 50_000 * m / 786_432;
        assert(1 <= base_size <= 32_000) by (nonlinear_arith)
            requires
                768 <= m <= 12_582_912,
                base_size == 2_000 * m / 786_432;
        let mut k: usize = 0;
        while k < count
            invariant
                len == old(self).particles@.len(),
                count == burst_count(len as int),
                k <= count,
                self.particles@.len() == len + k,
                self.particles@.take(len as int) == old(self).particles@,
                base_speed == burst_speed(*window_size),
                base_size == burst_size(*window_size),
                48 <= base_speed <= 800_000,
                1 <= base_size <= 32_000,
                old(self).wf(),
                color.wf(),
                -WORLD_LIMIT <= pos.x <= WORLD_LIMIT,
                -WORLD_LIMIT <= pos.y <= WORLD_LIMIT,
                forall|i: int| 0 <= i < self.particles@.len() ==> (#[trigger] self.particles@[i]).wf(),
                forall|i: int|
                    len <= i < self.particles@.len() ==> is_burst_particle(
                        #[trigger] self.particles@[i],
                        pos,
                        color,
                        *window_size,
                    ),
            decreases count - k,
        {
            let d = random_in_range(0, DIRECTIONS as u64) as u32;
            let s = random_in_range((base_speed / 2) as u64, base_speed as u64) as i64;
            let sz = random_in_range((base_size / 2) as u64, (base_size * 3 / 2) as u64) as i64;
            let vel = Vec2 {
                x: mul_div_trunc(cos_of_dir(d), s, 1000),
                y: mul_div_trunc(sin_of_dir(d), s, 1000),
            };
            assert(vel == velocity_along(d as int, s as int));
            assert(-SPEED_LIMIT <= vel.x <= SPEED_LIMIT) by (nonlinear_arith)
                requires
                    -1000 <= cos_dir(d as int) <= 1000,
                    0 <= s <= 800_000,
                    vel.x == scale_trunc(cos_dir(d as int), s as int, 1000);
            assert(-SPEED_LIMIT <= vel.y <= SPEED_LIMIT) by (nonlinear_arith)
                requires
                    -1000 <= sin_dir(d as int) <= 1000,
                    0 <= s <= 800_000,
                    vel.y == scale_trunc(sin_dir(d as int), s as int, 1000);
            let p = Particle::new(pos, vel, color, sz);
            let ghost before = self.particles@;
            self.particles.push(p);
            assert(self.particles@.take(len as int) =~= before.take(len as int));
            k = k + 1;
        }
    }
}

} // verus!
