use vstd::prelude::*;
use crate::angle::{
    aim_dir, angle_of_dir, angle_of_direction, cos_dir, cos_of_dir, dir_of_angle,
    direction_of_angle, direction_toward, sin_dir, sin_of_dir, steer, steer_spec, PI_MRAD,
};
use crate::geometry::{
    mul_div_trunc, scale_trunc, Vec2, WindowSize, BASE_WINDOW_HEIGHT, BASE_WINDOW_WIDTH,
    SIZE_LIMIT, SPEED_LIMIT, UNIT, WORLD_LIMIT,
};

verus! {

/// A guided missile's speed per frame, in logical pixels, before window scaling.
pub const MISSILE_SPEED: i64 = 4;

/// What an entity is; the kind fixes its hit radius and how it moves.
#[derive(Clone, Copy, Debug, PartialEq, Eq, Structural)]
pub enum GameObjectType {
    Player,
    Bullet,
    Enemy,
    GuidedMissile,
    MissileAmmo,
    SpreadShot,
    SpreadAmmo,
}

/// Hit radius of each kind, in thousandths of the entity's half-width.
pub open spec fn radius_permille(kind: GameObjectType) -> int {
    match kind {
        GameObjectType::Bullet => 800,
        GameObjectType::Enemy => 450,
        GameObjectType::Player => 400,
        GameObjectType::GuidedMissile => 1000,
        GameObjectType::MissileAmmo => 600,
        GameObjectType::SpreadShot => 800,
        GameObjectType::SpreadAmmo => 600,
    }
}

impl GameObjectType {
    pub fn radius_permille(&self) -> (r: i64)
        ensures
            r == radius_permille(*self),
            400 <= r <= 1000,
    {
        match self {
            GameObjectType::Bullet => 800,
            GameObjectType::Enemy => 450,
            GameObjectType::Player => 400,
            GameObjectType::GuidedMissile => 1000,
            GameObjectType::MissileAmmo => 600,
            GameObjectType::SpreadShot => 800,
            GameObjectType::SpreadAmmo => 600,
        }
    }
}

/// An entity of the playfield. `pos` is the centre of its sprite and `base_size` the
/// sprite's width and height, both in logical milli-pixels; `rotation` is in
/// milliradians; a guided missile steers toward the enemy whose `id` is its `target`.
#[derive(Clone, Copy, Debug, PartialEq, Eq, Structural)]
pub struct GameObject {
    pub pos: Vec2,
    pub base_size: Vec2,
    pub speed: Vec2,
    pub rotation: i64,
    pub object_type: GameObjectType,
    pub target: Option<u64>,
    pub id: u64,
}

/// The hit radius of an entity, in milli-pixels: a fixed fraction of its half-width.
pub open spec fn hit_radius(o: GameObject) -> int {
    o.base_size.x * radius_permille(o.object_type) / 2000
}

/// Circle-overlap test, carried out in window pixels: the centres' offset is scaled by
/// the window's two scale factors and the radii by the smaller of them; both sides are
/// multiplied by `1024 * 768` so that the comparison is exact.
pub open spec fn collides(a: GameObject, b: GameObject, w: WindowSize) -> bool {
    let dx = (a.pos.x - b.pos.x) * w.width * BASE_WINDOW_HEIGHT;
    let dy = (a.pos.y - b.pos.y) * w.height * BASE_WINDOW_WIDTH;
    let r = (hit_radius(a) + hit_radius(b)) * w.min_scale_num();
    dx * dx + dy * dy < r * r
}

/// Whether two entities collide does not depend on their order.
pub proof fn lemma_collides_symmetric(a: GameObject, b: GameObject, w: WindowSize)
    ensures
        collides(a, b, w) == collides(b, a, w),
{
    let p = (a.pos.x - b.pos.x) * w.width * BASE_WINDOW_HEIGHT;
    let q = (b.pos.x - a.pos.x) * w.width * BASE_WINDOW_HEIGHT;
    let s = (a.pos.y - b.pos.y) * w.height * BASE_WINDOW_WIDTH;
    let t = (b.pos.y - a.pos.y) * w.height * BASE_WINDOW_WIDTH;
    assert(q == -p) by (nonlinear_arith)
        requires
            p == (a.pos.x - b.pos.x) * w.width * BASE_WINDOW_HEIGHT,
            q == (b.pos.x - a.pos.x) * w.width * BASE_WINDOW_HEIGHT;
    assert(t == -s) by (nonlinear_arith)
        requires
            s == (a.pos.y - b.pos.y) * w.height * BASE_WINDOW_WIDTH,
            t == (b.pos.y - a.pos.y) * w.height * BASE_WINDOW_WIDTH;
    assert(q * q == p * p) by (nonlinear_arith)
        requires q == -p;
    assert(t * t == s * s) by (nonlinear_arith)
        requires t == -s;
}

/// A guided missile's speed per frame along x and along y, in milli-pixels.
pub open spec fn missile_speed_x(w: WindowSize) -> int {
    MISSILE_SPEED as int * UNIT as int * w.width as int / BASE_WINDOW_WIDTH as int
}

pub open spec fn missile_speed_y(w: WindowSize) -> int {
    MISSILE_SPEED as int * UNIT as int * w.height as int / BASE_WINDOW_HEIGHT as int
}

/// A missile after one steering step toward `target`: its heading turns by a tenth of
/// the angle error toward the target's direction, and its velocity points along the new
/// heading. A missile that sits on its target keeps its heading and velocity.
pub open spec fn steered(m: GameObject, target: GameObject, w: WindowSize) -> GameObject {
    let d = Vec2 { x: (target.pos.x - m.pos.x) as i64, y: (target.pos.y - m.pos.y) as i64 };
    if d.x == 0 && d.y == 0 {
        m
    } else {
        let rot = steer_spec(m.rotation as int, angle_of_dir(aim_dir(d)));
        GameObject { rotation: rot as i64, speed: missile_velocity_spec(rot, w), ..m }
    }
}

/// The first index of an entity with the given id, if any.
pub open spec fn is_first_with_id(s: Seq<GameObject>, id: u64, i: int) -> bool {
    &&& 0 <= i < s.len()
    &&& s[i].id == id
    &&& forall|j: int| 0 <= j < i ==> s[j].id != id
}

/// Finds the first entity of `s` whose id is `id`.
pub fn find_by_id(s: &Vec<GameObject>, id: u64) -> (r: Option<usize>)
    ensures
        match r {
            Some(i) => is_first_with_id(s@, id, i as int),
            None => forall|j: int| 0 <= j < s@.len() ==> s@[j].id != id,
        },
{
    let mut i: usize = 0;
    while i < s.len()
        invariant
            i <= s@.len(),
            forall|j: int| 0 <= j < i ==> s@[j].id != id,
        decreases s@.len() - i,
    {
        if s[i].id == id {
            return Some(i);
        }
        i = i + 1;
    }
    None
}

/// The velocity of a guided missile flying along heading `rotation`.
pub open spec fn missile_velocity_spec(rotation: int, w: WindowSize) -> Vec2 {
    let h = dir_of_angle(rotation);
    Vec2 {
        x: scale_trunc(cos_dir(h), missile_speed_x(w), 1000) as i64,
        y: scale_trunc(sin_dir(h), missile_speed_y(w), 1000) as i64,
    }
}

fn missile_velocity(rotation: i64, w: &WindowSize) -> (r: Vec2)
    requires
        -PI_MRAD <= rotation <= PI_MRAD,
        w.wf(),
    ensures
        r == missile_velocity_spec(rotation as int, *w),
        -SPEED_LIMIT <= r.x <= SPEED_LIMIT,
        -SPEED_LIMIT <= r.y <= SPEED_LIMIT,
{
    let heading = direction_of_angle(rotation);
    let sx = MISSILE_SPEED * UNIT * (w.width as i64) / BASE_WINDOW_WIDTH;
    let sy = MISSILE_SPEED * UNIT * (w.height as i64) / BASE_WINDOW_HEIGHT;
    let c = cos_of_dir(heading);
    let s = sin_of_dir(heading);
    let x = mul_div_trunc(c, sx, 1000);
    let y = mul_div_trunc(s, sy, 1000);
    assert(-SPEED_LIMIT <= x <= SPEED_LIMIT) by (nonlinear_arith)
        requires
            -1000 <= c <= 1000,
            0 <= sx <= 70_000,
            x == scale_trunc(c as int, sx as int, 1000);
    assert(-SPEED_LIMIT <= y <= SPEED_LIMIT) by (nonlinear_arith)
        requires
            -1000 <= s <= 1000,
            0 <= sy <= 90_000,
            y == scale_trunc(s as int, sy as int, 1000);
    Vec2 { x, y }
}

/// At most one index is the first with a given id.
pub proof fn lemma_first_with_id_unique(s: Seq<GameObject>, id: u64, i: int, j: int)
    requires
        is_first_with_id(s, id, i),
        is_first_with_id(s, id, j),
    ensures
        i == j,
{
}

/// A guided missile after one steering step: toward the first enemy that carries its
/// target's id, if there is one; unchanged otherwise.
pub open spec fn guided(m: GameObject, enemies: Seq<GameObject>, w: WindowSize) -> GameObject {
    match m.target {
        None => m,
        Some(id) => if exists|i: int| is_first_with_id(enemies, id, i) {
            steered(m, enemies[choose|i: int| is_first_with_id(enemies, id, i)], w)
        } else {
            m
        },
    }
}

impl GameObject {
    /// Coordinates, size, speed and heading lie within the simulation's limits.
    pub open spec fn wf(&self) -> bool {
        &&& -WORLD_LIMIT <= self.pos.x <= WORLD_LIMIT
        &&& -WORLD_LIMIT <= self.pos.y <= WORLD_LIMIT
        &&& 0 <= self.base_size.x <= SIZE_LIMIT
        &&& 0 <= self.base_size.y <= SIZE_LIMIT
        &&& -SPEED_LIMIT <= self.speed.x <= SPEED_LIMIT
        &&& -SPEED_LIMIT <= self.speed.y <= SPEED_LIMIT
        &&& -PI_MRAD <= self.rotation <= PI_MRAD
    }

    /// A resting entity of the given kind centred at `(x, y)`; an enemy faces down.
    pub fn new(x: i64, y: i64, width: i64, height: i64, kind: GameObjectType) -> (r: GameObject)
        ensures
            r.pos.x == x,
            r.pos.y == y,
            r.base_size.x == width,
            r.base_size.y == height,
            r.speed.x == 0,
            r.speed.y == 0,
            r.rotation == (if kind == GameObjectType::Enemy { PI_MRAD } else { 0 }),
            r.object_type == kind,
            r.target == Option::<u64>::None,
            r.id == 0,
    {
        let rotation = match kind {
            GameObjectType::Enemy => PI_MRAD,
            _ => 0,
        };
        GameObject {
            pos: Vec2 { x, y },
            base_size: Vec2 { x: width, y: height },
            speed: Vec2 { x: 0, y: 0 },
            rotation,
            object_type: kind,
            target: None,
            id: 0,
        }
    }

    pub fn hit_radius(&self) -> (r: i64)
        requires
            self.wf(),
        ensures
            r == hit_radius(*self),
            0 <= r <= SIZE_LIMIT / 2,
    {
        let p = self.object_type.radius_permille();
        assert(0 <= self.base_size.x * p <= SIZE_LIMIT * 1000) by (nonlinear_arith)
            requires 0 <= self.base_size.x <= SIZE_LIMIT, 0 <= p <= 1000;
        self.base_size.x * p / 2000
    }

    /// Whether this entity's hit circle overlaps `other`'s.
    pub fn intersects(&self, other: &GameObject, window_size: &WindowSize) -> (r: bool)
        requires
            self.wf(),
            other.wf(),
            window_size.wf(),
        ensures
            r == collides(*self, *other, *window_size),
    {
        let w = window_size.width as i128;
        let h = window_size.height as i128;
        let ddx = (self.pos.x as i128) - (other.pos.x as i128);
        let ddy = (self.pos.y as i128) - (other.pos.y as i128);
        assert(-200_000_000 * 16384 * 768 <= ddx * w * 768 <= 200_000_000 * 16384 * 768)
            by (nonlinear_arith)
            requires -200_000_000 <= ddx <= 200_000_000, 1 <= w <= 16384;
        assert(-200_000_000 * 16384 * 1024 <= ddy * h * 1024 <= 200_000_000 * 16384 * 1024)
            by (nonlinear_arith)
            requires -200_000_000 <= ddy <= 200_000_000, 1 <= h <= 16384;
        let dx = ddx * w * 768;
        let dy = ddy * h * 1024;
        let m = window_size.min_scale_numerator() as i128;
        let rs = (self.hit_radius() as i128) + (other.hit_radius() as i128);
        assert(0 <= rs * m <= 1_000_000 * 16384 * 1024) by (nonlinear_arith)
            requires 0 <= rs <= 1_000_000, 0 <= m <= 16384 * 1024;
        let r = rs * m;
        assert(0 <= dx * dx <= 12_000_000_000_000_000_000_000_000_000_000) by (nonlinear_arith)
            requires -200_000_000 * 16384 * 1024 <= dx <= 200_000_000 * 16384 * 1024;
        assert(0 <= dy * dy <= 12_000_000_000_000_000_000_000_000_000_000) by (nonlinear_arith)
            requires -200_000_000 * 16384 * 1024 <= dy <= 200_000_000 * 16384 * 1024;
        assert(0 <= r * r <= 1_000_000 * 16384 * 1024 * 1_000_000 * 16384 * 1024)
            by (nonlinear_arith)
            requires 0 <= r <= 1_000_000 * 16384 * 1024;
        dx * dx + dy * dy < r * r
    }

    /// One steering step of a guided missile toward the enemy that it targets. Nothing
    /// changes where the missile has no target, its target is gone, or it sits on it.
    pub fn update_guided_missile(&mut self, enemies: &Vec<GameObject>, window_size: &WindowSize)
        requires
            old(self).wf(),
            window_size.wf(),
            forall|i: int| 0 <= i < enemies@.len() ==> (#[trigger] enemies@[i]).wf(),
        ensures
            final(self).wf(),
            *final(self) == guided(*old(self), enemies@, *window_size),
            match old(self).target {
                None => *final(self) == *old(self),
                Some(id) => {
                    &&& (forall|j: int| 0 <= j < enemies@.len() ==> enemies@[j].id != id)
                        ==> *final(self) == *old(self)
                    &&& forall|i: int| is_first_with_id(enemies@, id, i)
                        ==> *final(self) == steered(*old(self), enemies@[i], *window_size)
                },
            },
    {
        if let Some(id) = self.target {
            match find_by_id(enemies, id) {
                Some(i) => {
                    let target = &enemies[i];
                    let d = Vec2 { x: target.pos.x - self.pos.x, y: target.pos.y - self.pos.y };
                    if d.x != 0 || d.y != 0 {
                        let aim = direction_toward(d);
                        let target_angle = angle_of_direction(aim);
                        let rot = steer(self.rotation, target_angle);
                        self.rotation = rot;
                        self.speed = missile_velocity(rot, window_size);
                    }
                    proof {
                        assert(is_first_with_id(enemies@, id, i as int));
                        let c = choose|k: int| is_first_with_id(enemies@, id, k);
                        lemma_first_with_id_unique(enemies@, id, i as int, c);
                        assert(forall|k: int| is_first_with_id(enemies@, id, k) ==> k == i);
                    }
                },
                None => {},
            }
        }
    }
}

} // verus!
