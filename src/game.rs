use vstd::prelude::*;
use crate::angle::{cos_dir, cos_of_dir, sin_dir, sin_of_dir, PI_MRAD};
use crate::collision::{ids_ordered, keeps, in_field, is_scan, lemma_filter_ids_ordered, lemma_unmarked_ids_ordered, remove_marked, retain_by, scan_collisions, unmarked, Retention};
use crate::entity::{collides, guided, GameObject, GameObjectType};
use crate::geometry::{
    mul_div_trunc, scale_trunc, Vec2, WindowSize, BASE_WINDOW_HEIGHT, FIELD_HEIGHT, FIELD_WIDTH,
    SPEED_LIMIT, WORLD_LIMIT,
};
use crate::particles::{alive, burst_chain, is_burst_after, lemma_burst_chain_push, particle_step, Color, Particle, ParticleSystem};
use crate::random::{coin_flip, random_in_range};

verus! {

/// Delay between two shots, in microseconds.
pub const SHOOT_COOLDOWN: u64 = 250_000;

/// Delay between two missile launches, in microseconds.
pub const MISSILE_COOLDOWN: u64 = 1_000_000;

/// Time between two enemy spawns, in microseconds.
pub const ENEMY_SPAWN_INTERVAL: u64 = 1_000_000;

/// Time between two pickup spawns, in microseconds.
pub const AMMO_SPAWN_INTERVAL: u64 = 15_000_000;

/// Missiles that a session starts with.
pub const INITIAL_MISSILE_AMMO: u32 = 5;

/// Missiles that one missile-ammo pickup grants.
pub const AMMO_PER_PICKUP: u32 = 3;

/// Points for an enemy destroyed by a bullet or a spread shot.
pub const BULLET_POINTS: u64 = 10;

/// Points for an enemy destroyed by a guided missile.
pub const MISSILE_POINTS: u64 = 20;

/// Sprite sizes and spawn places, in milli-pixels.
pub const PLAYER_WIDTH: i64 = 50_000;
pub const PLAYER_HEIGHT: i64 = 60_000;
pub const PLAYER_START_X: i64 = 512_000;
pub const PLAYER_START_Y: i64 = 738_000;
pub const ENEMY_SIZE: i64 = 40_000;
pub const ENEMY_START_Y: i64 = -50_000;
pub const BULLET_WIDTH: i64 = 5_000;
pub const BULLET_HEIGHT: i64 = 20_000;
pub const MISSILE_WIDTH: i64 = 8_000;
pub const MISSILE_HEIGHT: i64 = 24_000;
pub const MISSILE_AMMO_SIZE: i64 = 20_000;
pub const SPREAD_AMMO_SIZE: i64 = 25_000;
pub const PICKUP_START_Y: i64 = -30_000;

/// Pickups enter at a horizontal place in `[0, FIELD_WIDTH - PICKUP_SPAWN_MARGIN)`.
pub const PICKUP_SPAWN_MARGIN: i64 = 20_000;

/// Longest stretch of time, in microseconds, that one frame moves enemies and pickups by.
pub const MAX_STEP_MICROS: u64 = 1_000_000;

/// Number of background stars.
pub const STAR_COUNT: usize = 100;

/// Direction (of 72) and heading (milliradians) of the `k`-th bullet of a spread shot:
/// -30, -15, 0, 15 and 30 degrees from straight up.
pub open spec fn spread_dir(k: int) -> int {
    if k == 0 { 66 } else if k == 1 { 69 } else if k == 2 { 0 } else if k == 3 { 3 } else { 6 }
}

pub open spec fn spread_rotation(k: int) -> int {
    if k == 0 { -524 } else if k == 1 { -262 } else if k == 2 { 0 } else if k == 3 { 262 } else { 524 }
}

/// Where a shot leaves the player: the top centre of its sprite.
pub open spec fn muzzle(p: GameObject) -> Vec2 {
    Vec2 { x: p.pos.x, y: (p.pos.y - p.base_size.y / 2) as i64 }
}

/// The `k`-th bullet of a spread shot from `p`: it flies along its heading at bullet speed.
pub open spec fn spread_bullet(p: GameObject, k: int, w: WindowSize) -> GameObject {
    let d = spread_dir(k);
    let s = w.bullet_speed_spec();
    GameObject {
        pos: muzzle(p),
        base_size: Vec2 { x: BULLET_WIDTH, y: BULLET_HEIGHT },
        speed: Vec2 {
            x: scale_trunc(sin_dir(d), s, 1000) as i64,
            y: scale_trunc(-cos_dir(d), s, 1000) as i64,
        },
        rotation: spread_rotation(k) as i64,
        object_type: GameObjectType::SpreadShot,
        target: None,
        id: 0,
    }
}

/// The straight bullet of a plain shot from `p`, half a bullet width left of the muzzle.
pub open spec fn plain_bullet(p: GameObject) -> GameObject {
    GameObject {
        pos: Vec2 { x: (muzzle(p).x - BULLET_WIDTH / 2) as i64, y: muzzle(p).y },
        base_size: Vec2 { x: BULLET_WIDTH, y: BULLET_HEIGHT },
        speed: Vec2 { x: 0, y: 0 },
        rotation: 0,
        object_type: GameObjectType::Bullet,
        target: None,
        id: 0,
    }
}

/// The bullets of one shot: five fanned ones with the spread shot, else one.
pub open spec fn shot(p: GameObject, spread: bool, w: WindowSize) -> Seq<GameObject> {
    if spread {
        Seq::new(5, |k: int| spread_bullet(p, k, w))
    } else {
        seq![plain_bullet(p)]
    }
}

/// A shot holds five bullets with the spread shot and one without.
pub proof fn lemma_shot_size(p: GameObject, spread: bool, w: WindowSize)
    ensures
        shot(p, spread, w).len() == (if spread { 5int } else { 1int }),
{
}

/// The square of the distance between the centres of two entities.
pub open spec fn dist2(a: GameObject, b: GameObject) -> int {
    (a.pos.x - b.pos.x) * (a.pos.x - b.pos.x) + (a.pos.y - b.pos.y) * (a.pos.y - b.pos.y)
}

/// `i` is the first of the enemies nearest to `p`.
pub open spec fn is_nearest(enemies: Seq<GameObject>, p: GameObject, i: int) -> bool {
    &&& 0 <= i < enemies.len()
    &&& forall|j: int| 0 <= j < enemies.len() ==> dist2(enemies[i], p) <= #[trigger] dist2(enemies[j], p)
    &&& forall|j: int| 0 <= j < i ==> dist2(enemies[i], p) < #[trigger] dist2(enemies[j], p)
}

/// The first of the enemies nearest to `p`.
pub open spec fn nearest(enemies: Seq<GameObject>, p: GameObject) -> int {
    choose|i: int| is_nearest(enemies, p, i)
}

/// At most one enemy is the first of the nearest.
pub proof fn lemma_nearest_unique(enemies: Seq<GameObject>, p: GameObject, i: int, j: int)
    requires
        is_nearest(enemies, p, i),
        is_nearest(enemies, p, j),
    ensures
        i == j,
{
    if i < j {
        assert(dist2(enemies[j], p) < dist2(enemies[i], p));
    } else if j < i {
        assert(dist2(enemies[i], p) < dist2(enemies[j], p));
    }
}

/// A guided missile launched by `p` at the enemy with id `id`.
pub open spec fn missile_for(p: GameObject, id: u64) -> GameObject {
    GameObject {
        pos: muzzle(p),
        base_size: Vec2 { x: MISSILE_WIDTH, y: MISSILE_HEIGHT },
        speed: Vec2 { x: 0, y: 0 },
        rotation: 0,
        object_type: GameObjectType::GuidedMissile,
        target: Some(id),
        id: 0,
    }
}

/// An enemy entering at horizontal centre `x`.
pub open spec fn enemy_at(x: int, id: u64) -> GameObject {
    GameObject {
        pos: Vec2 { x: x as i64, y: ENEMY_START_Y },
        base_size: Vec2 { x: ENEMY_SIZE, y: ENEMY_SIZE },
        speed: Vec2 { x: 0, y: 0 },
        rotation: PI_MRAD,
        object_type: GameObjectType::Enemy,
        target: None,
        id,
    }
}

/// The enemies after a spawn at `x` under id `id`; none is added once ids are spent.
pub open spec fn with_enemy(s: Seq<GameObject>, x: int, id: u64) -> Seq<GameObject> {
    if id < u64::MAX {
        s.push(enemy_at(x, id))
    } else {
        s
    }
}

/// The next unused enemy id after a spawn.
pub open spec fn next_id_after(id: u64) -> u64 {
    if id < u64::MAX {
        (id + 1) as u64
    } else {
        id
    }
}

/// The colour of the burst at the muzzle: orange with the spread shot, yellow without.
pub open spec fn muzzle_color(spread: bool) -> Color {
    if spread {
        Color { r: 1000, g: 500, b: 0, a: 500 }
    } else {
        Color { r: 1000, g: 1000, b: 0, a: 500 }
    }
}

/// The colour of an explosion burst.
pub open spec fn explosion_color() -> Color {
    Color { r: 1000, g: 500, b: 0, a: 1000 }
}

/// The colour of the burst when a pickup of the given kind is collected.
pub open spec fn pickup_color(kind: GameObjectType) -> Color {
    if kind == GameObjectType::SpreadAmmo {
        Color { r: 1000, g: 500, b: 0, a: 1000 }
    } else {
        Color { r: 0, g: 1000, b: 1000, a: 1000 }
    }
}

/// Where the explosions of a scan go, in bullet order: at each destroyed enemy.
pub open spec fn hit_spots(enemies: Seq<GameObject>, hit: Seq<Option<usize>>) -> Seq<(Vec2, Color)>
    decreases hit.len(),
{
    if hit.len() == 0 {
        Seq::empty()
    } else {
        let rest = hit_spots(enemies, hit.drop_last());
        match hit.last() {
            Some(e) => rest.push((enemies[e as int].pos, explosion_color())),
            None => rest,
        }
    }
}

/// Where the bursts of collected pickups go, in order: at each missile-ammo or spread-ammo
/// pickup that touches the player.
pub open spec fn pickup_spots(items: Seq<GameObject>, p: GameObject, w: WindowSize) -> Seq<(Vec2, Color)>
    decreases items.len(),
{
    if items.len() == 0 {
        Seq::empty()
    } else {
        let rest = pickup_spots(items.drop_last(), p, w);
        let a = items.last();
        if collides(a, p, w) && (a.object_type == GameObjectType::MissileAmmo
            || a.object_type == GameObjectType::SpreadAmmo) {
            rest.push((a.pos, pickup_color(a.object_type)))
        } else {
            rest
        }
    }
}

/// A pickup of the given kind entering at horizontal centre `x`.
pub open spec fn pickup_at(kind: GameObjectType, x: int) -> GameObject {
    let size = if kind == GameObjectType::SpreadAmmo { SPREAD_AMMO_SIZE } else { MISSILE_AMMO_SIZE };
    GameObject {
        pos: Vec2 { x: x as i64, y: PICKUP_START_Y },
        base_size: Vec2 { x: size, y: size },
        speed: Vec2 { x: 0, y: 0 },
        rotation: 0,
        object_type: kind,
        target: None,
        id: 0,
    }
}

pub open spec fn clamp(v: int, lo: int, hi: int) -> int {
    if v < lo {
        lo
    } else if v > hi {
        hi
    } else {
        v
    }
}

/// The player keeps its whole sprite inside the playfield.
pub open spec fn player_in_bounds(p: GameObject) -> bool {
    &&& p.base_size.x / 2 <= p.pos.x <= FIELD_WIDTH - p.base_size.x / 2
    &&& p.base_size.y / 2 <= p.pos.y <= FIELD_HEIGHT - p.base_size.y / 2
}

/// Displacement along one axis: `s` toward the positive side when its key is held, and
/// `s` toward the negative side when that key is held.
pub open spec fn axis_step(s: int, negative: bool, positive: bool) -> int {
    (if positive { s } else { 0 }) - (if negative { s } else { 0 })
}

/// The pause flag after a frame: the pause key toggles it on the frame it goes down.
pub open spec fn toggled(paused: bool, was_held: bool, held: bool) -> bool {
    if held && !was_held {
        !paused
    } else {
        paused
    }
}

/// The player after one frame's movement: each held direction key moves it by the
/// player speed, and the result is clamped so that its whole sprite stays inside the
/// playfield.
pub open spec fn moved_player(p: GameObject, w: WindowSize, input: FrameInput) -> GameObject {
    let s = w.player_speed_spec();
    GameObject {
        pos: Vec2 {
            x: clamp(p.pos.x + axis_step(s, input.left, input.right), p.base_size.x / 2, FIELD_WIDTH - p.base_size.x / 2) as i64,
            y: clamp(p.pos.y + axis_step(s, input.up, input.down), p.base_size.y / 2, FIELD_HEIGHT - p.base_size.y / 2) as i64,
        },
        ..p
    }
}

pub open spec fn sat_sub(a: u64, b: u64) -> u64 {
    if a >= b { (a - b) as u64 } else { 0 }
}

pub open spec fn sat_add(a: int, b: int) -> int {
    if a + b > u64::MAX { u64::MAX as int } else { a + b }
}

/// The keys held during one frame, and the time it took.
#[derive(Clone, Copy, Debug, PartialEq, Eq, Structural)]
pub struct FrameInput {
    pub left: bool,
    pub right: bool,
    pub up: bool,
    pub down: bool,
    pub fire: bool,
    pub missile: bool,
    pub pause: bool,
    /// Elapsed time since the previous frame, in microseconds.
    pub dt: u64,
}

/// The sound cues that one frame asks for.
#[derive(Clone, Copy, Debug, PartialEq, Eq, Structural)]
pub struct FrameEvents {
    pub shoot_sound: bool,
    pub explosion_sound: bool,
}

/// A background star: position and radius in milli-pixels.
#[derive(Clone, Copy, Debug, PartialEq, Eq, Structural)]
pub struct Star {
    pub pos: Vec2,
    pub size: i64,
}

/// A star after one frame: it drifts down half a pixel, scaled by height / 768, and
/// re-enters at the top once past the bottom edge.
pub open spec fn star_step(s: Star, w: WindowSize) -> Star {
    let y = s.pos.y + 500 * w.height / BASE_WINDOW_HEIGHT as int;
    Star { pos: Vec2 { x: s.pos.x, y: (if y > FIELD_HEIGHT { 0 } else { y }) as i64 }, ..s }
}

pub open spec fn star_wf(s: Star) -> bool {
    0 <= s.pos.y <= FIELD_HEIGHT
}

/// The whole state of a session.
pub struct MainState {
    pub window_size: WindowSize,
    pub player: GameObject,
    pub bullets: Vec<GameObject>,
    pub enemies: Vec<GameObject>,
    pub score: u64,
    /// Time since the last enemy spawn, in microseconds.
    pub spawn_timer: u64,
    pub game_over: bool,
    pub paused: bool,
    /// Time until the next shot may be fired, in microseconds.
    pub shoot_cooldown: u64,
    pub star_field: Vec<Star>,
    pub particles: ParticleSystem,
    /// Time until the next missile may be launched, in microseconds.
    pub missile_cooldown: u64,
    pub missile_ammo: u32,
    /// Time since the last pickup spawn, in microseconds.
    pub ammo_spawn_timer: u64,
    pub ammo_items: Vec<GameObject>,
    /// Whether the pause key was held in the previous frame.
    pub p_key_pressed: bool,
    pub has_spread_shot: bool,
    /// The id that the next enemy gets.
    pub next_enemy_id: u64,
}

/// Appends the five fanned bullets of a spread shot from `player`.
fn push_spread(bullets: &mut Vec<GameObject>, player: &GameObject, w: &WindowSize, muzzle_pos: Vec2)
    requires
        w.wf(),
        player.wf(),
        player_in_bounds(*player),
        muzzle_pos == muzzle(*player),
        forall|i: int| 0 <= i < old(bullets)@.len() ==> (#[trigger] old(bullets)@[i]).wf() && in_field(old(bullets)@[i]),
    ensures
        final(bullets)@ == old(bullets)@ + shot(*player, true, *w),
        forall|i: int| 0 <= i < final(bullets)@.len() ==> (#[trigger] final(bullets)@[i]).wf() && in_field(final(bullets)@[i]),
{
    let ghost before = bullets@;
    let speed = w.bullet_speed();
    let mut k: usize = 0;
    while k < 5
        invariant
            k <= 5,
            0 <= speed <= 180_000,
            speed == w.bullet_speed_spec(),
            player.wf(),
            player_in_bounds(*player),
            muzzle_pos == muzzle(*player),
            bullets@ == before + Seq::new(k as nat, |j: int| spread_bullet(*player, j, *w)),
            forall|i: int| 0 <= i < bullets@.len() ==> (#[trigger] bullets@[i]).wf() && in_field(bullets@[i]),
        decreases 5 - k,
    {
        let (d, rotation): (u32, i64) = if k == 0 {
            (66, -524)
        } else if k == 1 {
            (69, -262)
        } else if k == 2 {
            (0, 0)
        } else if k == 3 {
            (3, 262)
        } else {
            (6, 524)
        };
        let sn = sin_of_dir(d);
        let cs = cos_of_dir(d);
        let vx = mul_div_trunc(sn, speed, 1000);
        let vy = mul_div_trunc(-cs, speed, 1000);
        assert(-SPEED_LIMIT <= vx <= SPEED_LIMIT) by (nonlinear_arith)
            requires -1000 <= sn <= 1000, 0 <= speed <= 180_000, vx == scale_trunc(sn as int, speed as int, 1000);
        assert(-SPEED_LIMIT <= vy <= SPEED_LIMIT) by (nonlinear_arith)
            requires -1000 <= cs <= 1000, 0 <= speed <= 180_000, vy == scale_trunc(-cs as int, speed as int, 1000);
        let mut bullet = GameObject::new(muzzle_pos.x, muzzle_pos.y, BULLET_WIDTH, BULLET_HEIGHT, GameObjectType::SpreadShot);
        bullet.speed = Vec2 { x: vx, y: vy };
        bullet.rotation = rotation;
        assert(bullet == spread_bullet(*player, k as int, *w));
        bullets.push(bullet);
        assert(bullets@ =~= before + Seq::new((k + 1) as nat, |j: int| spread_bullet(*player, j, *w)));
        k = k + 1;
    }
}

/// A projectile after one frame's movement: a straight bullet climbs at the current
/// bullet speed, a spread bullet moves by its own velocity, and a guided missile first
/// steers and then moves by its new velocity.
pub open spec fn bullet_step(b: GameObject, enemies: Seq<GameObject>, w: WindowSize) -> GameObject {
    match b.object_type {
        GameObjectType::Bullet => GameObject {
            pos: Vec2 { x: b.pos.x, y: (b.pos.y - w.bullet_speed_spec()) as i64 },
            ..b
        },
        GameObjectType::SpreadShot => GameObject {
            pos: Vec2 { x: (b.pos.x + b.speed.x) as i64, y: (b.pos.y + b.speed.y) as i64 },
            ..b
        },
        GameObjectType::GuidedMissile => {
            let g = guided(b, enemies, w);
            GameObject {
                pos: Vec2 { x: (g.pos.x + g.speed.x) as i64, y: (g.pos.y + g.speed.y) as i64 },
                ..g
            }
        },
        _ => b,
    }
}

/// An enemy or a pickup after descending by `speed`.
pub open spec fn descended(o: GameObject, speed: int) -> GameObject {
    GameObject { pos: Vec2 { x: o.pos.x, y: (o.pos.y + speed) as i64 }, ..o }
}

/// Points that a hit by bullet `b` scores.
pub open spec fn points_for(b: GameObject) -> int {
    if b.object_type == GameObjectType::GuidedMissile {
        MISSILE_POINTS as int
    } else {
        BULLET_POINTS as int
    }
}

/// The points that a scan's hits score in all.
pub open spec fn hit_points(bullets: Seq<GameObject>, hit: Seq<Option<usize>>) -> int
    decreases bullets.len(),
{
    if bullets.len() == 0 || hit.len() < bullets.len() {
        0
    } else {
        hit_points(bullets.drop_last(), hit) + (if hit[bullets.len() - 1].is_some() {
            points_for(bullets.last())
        } else {
            0
        })
    }
}

/// How many pickups of the given kind in `s` touch the player.
pub open spec fn pickups_taken(s: Seq<GameObject>, p: GameObject, w: WindowSize, kind: GameObjectType) -> int
    decreases s.len(),
{
    if s.len() == 0 {
        0
    } else {
        pickups_taken(s.drop_last(), p, w, kind) + (if s.last().object_type == kind && collides(
            s.last(),
            p,
            w,
        ) {
            1int
        } else {
            0int
        })
    }
}

pub open spec fn sat_add_u32(a: int, b: int) -> int {
    if a + b > u32::MAX { u32::MAX as int } else { a + b }
}

/// Moves every projectile by one frame.
fn step_bullets(bullets: &mut Vec<GameObject>, enemies: &Vec<GameObject>, w: &WindowSize)
    requires
        w.wf(),
        forall|i: int| 0 <= i < old(bullets)@.len() ==> (#[trigger] old(bullets)@[i]).wf() && in_field(old(bullets)@[i]),
        forall|i: int| 0 <= i < enemies@.len() ==> (#[trigger] enemies@[i]).wf(),
    ensures
        final(bullets)@ == Seq::new(old(bullets)@.len(), |i: int| bullet_step(old(bullets)@[i], enemies@, *w)),
        forall|i: int| 0 <= i < final(bullets)@.len() ==> (#[trigger] final(bullets)@[i]).wf(),
{
    let n = bullets.len();
    let mut i: usize = 0;
    while i < n
        invariant
            n == bullets@.len(),
            n == old(bullets)@.len(),
            i <= n,
            w.wf(),
            forall|j: int| 0 <= j < enemies@.len() ==> (#[trigger] enemies@[j]).wf(),
            forall|j: int| i <= j < n ==> bullets@[j] == old(bullets)@[j],
            forall|j: int| 0 <= j < n ==> (#[trigger] old(bullets)@[j]).wf() && in_field(old(bullets)@[j]),
            forall|j: int| 0 <= j < i ==> bullets@[j] == bullet_step(old(bullets)@[j], enemies@, *w),
            forall|j: int| 0 <= j < i ==> (#[trigger] bullets@[j]).wf(),
        decreases n - i,
    {
        let mut b = bullets[i];
        match b.object_type {
            GameObjectType::Bullet => {
                let speed = w.bullet_speed();
                b.pos = Vec2 { x: b.pos.x, y: b.pos.y - speed };
            },
            GameObjectType::SpreadShot => {
                b.pos = Vec2 { x: b.pos.x + b.speed.x, y: b.pos.y + b.speed.y };
            },
            GameObjectType::GuidedMissile => {
                b.update_guided_missile(enemies, w);
                b.pos = Vec2 { x: b.pos.x + b.speed.x, y: b.pos.y + b.speed.y };
            },
            _ => {},
        }
        bullets.set(i, b);
        i = i + 1;
    }
    assert(bullets@ =~= Seq::new(old(bullets)@.len(), |i: int| bullet_step(old(bullets)@[i], enemies@, *w)));
}

/// Moves every enemy or pickup down by `speed`.
fn descend(items: &mut Vec<GameObject>, speed: i64)
    requires
        0 <= speed <= 2_560_000,
        forall|i: int| 0 <= i < old(items)@.len() ==> (#[trigger] old(items)@[i]).wf() && old(items)@[i].pos.y < FIELD_HEIGHT,
    ensures
        final(items)@ == Seq::new(old(items)@.len(), |i: int| descended(old(items)@[i], speed as int)),
        forall|i: int| 0 <= i < final(items)@.len() ==> (#[trigger] final(items)@[i]).wf(),
{
    let n = items.len();
    let mut i: usize = 0;
    while i < n
        invariant
            n == items@.len(),
            n == old(items)@.len(),
            i <= n,
            0 <= speed <= 2_560_000,
            forall|j: int| i <= j < n ==> items@[j] == old(items)@[j],
            forall|j: int| 0 <= j < n ==> (#[trigger] old(items)@[j]).wf() && old(items)@[j].pos.y < FIELD_HEIGHT,
            forall|j: int| 0 <= j < i ==> items@[j] == descended(old(items)@[j], speed as int),
            forall|j: int| 0 <= j < i ==> (#[trigger] items@[j]).wf(),
        decreases n - i,
    {
        let mut o = items[i];
        o.pos = Vec2 { x: o.pos.x, y: o.pos.y + speed };
        items.set(i, o);
        i = i + 1;
    }
    assert(items@ =~= Seq::new(old(items)@.len(), |i: int| descended(old(items)@[i], speed as int)));
}

/// Whether any of `items` touches the player.
fn any_touches(items: &Vec<GameObject>, player: &GameObject, w: &WindowSize) -> (r: bool)
    requires
        w.wf(),
        player.wf(),
        forall|i: int| 0 <= i < items@.len() ==> (#[trigger] items@[i]).wf(),
    ensures
        r == exists|i: int| 0 <= i < items@.len() && collides(#[trigger] items@[i], *player, *w),
{
    let mut i: usize = 0;
    while i < items.len()
        invariant
            i <= items@.len(),
            w.wf(),
            player.wf(),
            forall|j: int| 0 <= j < items@.len() ==> (#[trigger] items@[j]).wf(),
            forall|j: int| 0 <= j < i ==> !collides(#[trigger] items@[j], *player, *w),
        decreases items@.len() - i,
    {
        if items[i].intersects(player, w) {
            return true;
        }
        i = i + 1;
    }
    false
}

/// Scrolls the background stars by one frame.
fn scroll_stars(stars: &mut Vec<Star>, w: &WindowSize)
    requires
        w.wf(),
        forall|i: int| 0 <= i < old(stars)@.len() ==> star_wf(#[trigger] old(stars)@[i]),
    ensures
        final(stars)@ == Seq::new(old(stars)@.len(), |i: int| star_step(old(stars)@[i], *w)),
        forall|i: int| 0 <= i < final(stars)@.len() ==> star_wf(#[trigger] final(stars)@[i]),
{
    let n = stars.len();
    let drift = 500 * (w.height as i64) / BASE_WINDOW_HEIGHT;
    let mut i: usize = 0;
    while i < n
        invariant
            n == stars@.len(),
            n == old(stars)@.len(),
            i <= n,
            w.wf(),
            drift == 500 * w.height / BASE_WINDOW_HEIGHT as int,
            forall|j: int| i <= j < n ==> stars@[j] == old(stars)@[j],
            forall|j: int| 0 <= j < n ==> star_wf(#[trigger] old(stars)@[j]),
            forall|j: int| 0 <= j < i ==> stars@[j] == star_step(old(stars)@[j], *w),
            forall|j: int| 0 <= j < i ==> star_wf(#[trigger] stars@[j]),
        decreases n - i,
    {
        let mut st = stars[i];
        let y = st.pos.y + drift;
        st.pos = Vec2 { x: st.pos.x, y: if y > FIELD_HEIGHT { 0 } else { y } };
        stars.set(i, st);
        i = i + 1;
    }
    assert(stars@ =~= Seq::new(old(stars)@.len(), |i: int| star_step(old(stars)@[i], *w)));
}

/// Applies what the pickups that touch the player grant: three missiles for missile
/// ammo (saturating), the spread shot for spread ammo, each with a coloured burst at the
/// pickup; returns the pickups that remain.
fn collect(
    items: &Vec<GameObject>,
    player: &GameObject,
    w: &WindowSize,
    missile_ammo: &mut u32,
    has_spread_shot: &mut bool,
    particles: &mut ParticleSystem,
) -> (kept: Vec<GameObject>)
    requires
        w.wf(),
        player.wf(),
        old(particles).wf(),
        forall|i: int| 0 <= i < items@.len() ==> (#[trigger] items@[i]).wf() && items@[i].pos.y < FIELD_HEIGHT,
    ensures
        kept@ == items@.filter(|a: GameObject| !collides(a, *player, *w)),
        forall|i: int| 0 <= i < kept@.len() ==> (#[trigger] kept@[i]).wf() && kept@[i].pos.y < FIELD_HEIGHT,
        *final(missile_ammo) == sat_add_u32(*old(missile_ammo) as int, 3 * pickups_taken(items@, *player, *w, GameObjectType::MissileAmmo)),
        *final(has_spread_shot) == (*old(has_spread_shot) || pickups_taken(items@, *player, *w, GameObjectType::SpreadAmmo) > 0),
        final(particles).wf(),
        burst_chain(old(particles).particles@, final(particles).particles@, pickup_spots(items@, *player, *w), *w),
{
    let mut kept: Vec<GameObject> = Vec::new();
    let n = items.len();
    let mut i: usize = 0;
    while i < n
        invariant
            n == items@.len(),
            i <= n,
            w.wf(),
            player.wf(),
            particles.wf(),
            forall|j: int| 0 <= j < items@.len() ==> (#[trigger] items@[j]).wf() && items@[j].pos.y < FIELD_HEIGHT,
            forall|j: int| 0 <= j < kept@.len() ==> (#[trigger] kept@[j]).wf() && kept@[j].pos.y < FIELD_HEIGHT,
            kept@ == items@.take(i as int).filter(|a: GameObject| !collides(a, *player, *w)),
            *missile_ammo == sat_add_u32(*old(missile_ammo) as int, 3 * pickups_taken(items@.take(i as int), *player, *w, GameObjectType::MissileAmmo)),
            *has_spread_shot == (*old(has_spread_shot) || pickups_taken(items@.take(i as int), *player, *w, GameObjectType::SpreadAmmo) > 0),
            pickups_taken(items@.take(i as int), *player, *w, GameObjectType::MissileAmmo) >= 0,
            pickups_taken(items@.take(i as int), *player, *w, GameObjectType::SpreadAmmo) >= 0,
            burst_chain(old(particles).particles@, particles.particles@, pickup_spots(items@.take(i as int), *player, *w), *w),
        decreases n - i,
    {
        let a = items[i];
        let touching = a.intersects(player, w);
        proof {
            let pred = |q: GameObject| !collides(q, *player, *w);
            assert(items@.take(i as int + 1).drop_last() =~= items@.take(i as int));
            reveal(Seq::filter);
            assert(items@.take(i as int + 1).filter(pred) == (if pred(a) {
                items@.take(i as int).filter(pred).push(a)
            } else {
                items@.take(i as int).filter(pred)
            }));
        }
        let ghost before = particles.particles@;
        let ghost spots = pickup_spots(items@.take(i as int), *player, *w);
        if touching {
            match a.object_type {
                GameObjectType::SpreadAmmo => {
                    *has_spread_shot = true;
                    particles.add_explosion(a.pos, Color::new(1000, 500, 0, 1000), w);
                    proof {
                        lemma_burst_chain_push(old(particles).particles@, before, particles.particles@, spots, a.pos, pickup_color(a.object_type), *w);
                    }
                },
                GameObjectType::MissileAmmo => {
                    *missile_ammo = if *missile_ammo > u32::MAX - AMMO_PER_PICKUP {
                        u32::MAX
                    } else {
                        *missile_ammo + AMMO_PER_PICKUP
                    };
                    particles.add_explosion(a.pos, Color::new(0, 1000, 1000, 1000), w);
                    proof {
                        lemma_burst_chain_push(old(particles).particles@, before, particles.particles@, spots, a.pos, pickup_color(a.object_type), *w);
                    }
                },
                _ => {},
            }
        } else {
            kept.push(a);
        }
        i = i + 1;
    }
    assert(items@.take(n as int) =~= items@);
    kept
}

/// Every entity that survives a removal was there before.
pub proof fn lemma_unmarked_subset(s: Seq<GameObject>, marks: Seq<Option<usize>>)
    ensures
        forall|i: int| 0 <= i < unmarked(s, marks).len() ==> exists|j: int| 0 <= j < s.len() && #[trigger] unmarked(s, marks)[i] == s[j],
    decreases s.len(),
{
    if s.len() == 0 || marks.len() < s.len() {
    } else {
        lemma_unmarked_subset(s.drop_last(), marks);
        let rest = unmarked(s.drop_last(), marks);
        assert forall|i: int| 0 <= i < unmarked(s, marks).len() implies exists|j: int| 0 <= j < s.len() && #[trigger] unmarked(s, marks)[i] == s[j] by {
            if i < rest.len() {
                let j = choose|j: int| 0 <= j < s.drop_last().len() && rest[i] == s.drop_last()[j];
                assert(unmarked(s, marks)[i] == s[j]);
            } else {
                assert(unmarked(s, marks)[i] == s[s.len() - 1]);
            }
        }
    }
}

/// Whether the shot fires this frame: fire is held and the cooldown runs out.
pub open spec fn fired_now(o: MainState, input: FrameInput) -> bool {
    input.fire && sat_sub(o.shoot_cooldown, input.dt) == 0
}

/// Whether a missile launch is tried this frame: its key is held and its cooldown runs out.
pub open spec fn missile_tried(o: MainState, input: FrameInput) -> bool {
    input.missile && sat_sub(o.missile_cooldown, input.dt) == 0
}

/// Whether a missile leaves this frame: a launch is tried, an enemy exists and a missile
/// is left.
pub open spec fn missile_launched(o: MainState, input: FrameInput) -> bool {
    missile_tried(o, input) && o.enemies@.len() > 0 && o.missile_ammo > 0
}

/// The projectiles that a frame adds: its shot, then its missile.
pub open spec fn fresh_bullets(o: MainState, input: FrameInput) -> Seq<GameObject> {
    let p = moved_player(o.player, o.window_size, input);
    let shots = if fired_now(o, input) {
        shot(p, o.has_spread_shot, o.window_size)
    } else {
        Seq::empty()
    };
    if missile_launched(o, input) {
        shots.push(missile_for(p, o.enemies@[nearest(o.enemies@, p)].id))
    } else {
        shots
    }
}

/// Projectiles after one frame's flight, without those that left the playfield.
pub open spec fn flown(s: Seq<GameObject>, enemies: Seq<GameObject>, w: WindowSize) -> Seq<GameObject> {
    Seq::new(s.len(), |i: int| bullet_step(s[i], enemies, w)).filter(
        |b: GameObject| keeps(Retention::InField, b),
    )
}

/// How far enemies and pickups descend in `dt` microseconds (at most `MAX_STEP_MICROS`).
pub open spec fn descent_spec(w: WindowSize, dt: u64) -> int {
    let step = if dt < MAX_STEP_MICROS { dt as int } else { MAX_STEP_MICROS as int };
    w.enemy_speed_spec() * step / 1_000_000
}

pub fn descent(w: &WindowSize, dt: u64) -> (d: i64)
    requires
        w.wf(),
    ensures
        d == descent_spec(*w, dt),
        0 <= d <= 2_560_000,
{
    let step: i64 = if dt < MAX_STEP_MICROS { dt as i64 } else { MAX_STEP_MICROS as i64 };
    let speed = w.enemy_speed();
    assert(0 <= speed * step <= 2_560_000 * 1_000_000) by (nonlinear_arith)
        requires 0 <= speed <= 2_560_000, 0 <= step <= 1_000_000;
    assert(speed * step / 1_000_000 <= 2_560_000) by (nonlinear_arith)
        requires 0 <= speed * step <= 2_560_000 * 1_000_000;
    speed * step / 1_000_000
}

/// Every entity of `s` after descending by `d`.
pub open spec fn descended_all(s: Seq<GameObject>, d: int) -> Seq<GameObject> {
    Seq::new(s.len(), |i: int| descended(s[i], d))
}

/// Whether some entity of `s` touches `p`.
pub open spec fn touches_any(s: Seq<GameObject>, p: GameObject, w: WindowSize) -> bool {
    exists|i: int| 0 <= i < s.len() && collides(#[trigger] s[i], p, w)
}

/// Whether a spawn timer reaches its interval after `dt` more microseconds.
pub open spec fn due(t: u64, dt: u64, interval: u64) -> bool {
    sat_add(t as int, dt as int) >= interval
}

/// A spawn timer after `dt` more microseconds: back to zero once it reaches its interval.
pub open spec fn timer_after(t: u64, dt: u64, interval: u64) -> u64 {
    if due(t, dt, interval) {
        0
    } else {
        sat_add(t as int, dt as int) as u64
    }
}

/// Particles after `dt` microseconds, without those that expired.
pub open spec fn aged(ps: Seq<Particle>, dt: u64) -> Seq<Particle> {
    ps.map_values(|p: Particle| particle_step(p, dt as int)).filter(|p: Particle| alive(p))
}

/// The first stage of a running frame, from `o` to `s`: the player moves; the shot fires
/// if fire is held and the shot cooldown runs out (with a burst at the muzzle), which
/// restarts that cooldown; a missile leaves at the nearest enemy if its key is held, its
/// cooldown runs out, an enemy exists and a missile is left, and the missile cooldown
/// restarts whenever the launch is tried; then every projectile flies one frame, and those
/// that left the playfield are dropped.
pub open spec fn player_stage(o: MainState, s: MainState, input: FrameInput) -> bool {
    let p = moved_player(o.player, o.window_size, input);
    &&& s.player == p
    &&& s.shoot_cooldown == (if fired_now(o, input) {
        SHOOT_COOLDOWN
    } else {
        sat_sub(o.shoot_cooldown, input.dt)
    })
    &&& s.missile_cooldown == (if missile_tried(o, input) {
        MISSILE_COOLDOWN
    } else {
        sat_sub(o.missile_cooldown, input.dt)
    })
    &&& s.missile_ammo == (if missile_launched(o, input) {
        (o.missile_ammo - 1) as u32
    } else {
        o.missile_ammo
    })
    &&& s.bullets@ == flown(o.bullets@ + fresh_bullets(o, input), o.enemies@, o.window_size)
    &&& (if fired_now(o, input) {
        is_burst_after(
            o.particles.particles@,
            s.particles.particles@,
            muzzle(p),
            muzzle_color(o.has_spread_shot),
            o.window_size,
        )
    } else {
        s.particles.particles@ == o.particles.particles@
    })
    &&& s.enemies@ == o.enemies@
    &&& s.ammo_items@ == o.ammo_items@
    &&& s.score == o.score
    &&& s.game_over == o.game_over
    &&& s.spawn_timer == o.spawn_timer
    &&& s.ammo_spawn_timer == o.ammo_spawn_timer
    &&& s.has_spread_shot == o.has_spread_shot
    &&& s.next_enemy_id == o.next_enemy_id
    &&& s.star_field@ == o.star_field@
    &&& s.window_size == o.window_size
}

/// The second stage of a running frame, from `o` to `s`: the pickup timer runs and, on
/// reaching its interval, restarts and adds a pickup of either kind; the enemy timer does
/// the same with an enemy; every enemy descends; the game ends exactly when a descended
/// enemy touches the player (or had ended); enemies past the bottom edge are dropped; the
/// stars scroll.
pub open spec fn hostile_stage(o: MainState, s: MainState, dt: u64) -> bool {
    let d = descent_spec(o.window_size, dt);
    let pickup_due = due(o.ammo_spawn_timer, dt, AMMO_SPAWN_INTERVAL);
    let enemy_due = due(o.spawn_timer, dt, ENEMY_SPAWN_INTERVAL);
    &&& s.ammo_spawn_timer == timer_after(o.ammo_spawn_timer, dt, AMMO_SPAWN_INTERVAL)
    &&& s.spawn_timer == timer_after(o.spawn_timer, dt, ENEMY_SPAWN_INTERVAL)
    &&& pickup_due ==> exists|kind: GameObjectType, x: int|
        (kind == GameObjectType::MissileAmmo || kind == GameObjectType::SpreadAmmo) && 0 <= x
            < FIELD_WIDTH - PICKUP_SPAWN_MARGIN && s.ammo_items@ == o.ammo_items@.push(
            #[trigger] pickup_at(kind, x),
        )
    &&& !pickup_due ==> s.ammo_items@ == o.ammo_items@
    &&& exists|spawned: Seq<GameObject>|
        {
            &&& (if enemy_due {
                exists|x: int|
                    0 <= x < FIELD_WIDTH - ENEMY_SIZE && spawned == #[trigger] with_enemy(
                        o.enemies@,
                        x,
                        o.next_enemy_id,
                    )
            } else {
                spawned == o.enemies@
            })
            &&& s.enemies@ == descended_all(spawned, d).filter(
                |e: GameObject| keeps(Retention::AboveBottom, e),
            )
            &&& s.game_over == (o.game_over || touches_any(
                #[trigger] descended_all(spawned, d),
                o.player,
                o.window_size,
            ))
        }
    &&& s.next_enemy_id == (if enemy_due {
        next_id_after(o.next_enemy_id)
    } else {
        o.next_enemy_id
    })
    &&& s.star_field@ == Seq::new(o.star_field@.len(), |i: int| star_step(o.star_field@[i], o.window_size))
    &&& s.player == o.player
    &&& s.bullets@ == o.bullets@
    &&& s.score == o.score
    &&& s.shoot_cooldown == o.shoot_cooldown
    &&& s.missile_cooldown == o.missile_cooldown
    &&& s.missile_ammo == o.missile_ammo
    &&& s.has_spread_shot == o.has_spread_shot
    &&& s.particles.particles@ == o.particles.particles@
    &&& s.window_size == o.window_size
}

/// The third stage of a running frame, from `o` to `s`: the bullet-by-enemy scan removes
/// the pairs that hit, scores them and bursts at each destroyed enemy; the particles age;
/// the pickups descend, those past the bottom edge are dropped, and those that touch the
/// player are collected (three missiles for missile ammo, the spread shot for spread
/// ammo, each with a burst). `exploded` says whether any bullet hit.
pub open spec fn settle_stage(o: MainState, s: MainState, dt: u64, exploded: bool) -> bool {
    let w = o.window_size;
    let items = descended_all(o.ammo_items@, descent_spec(w, dt)).filter(
        |a: GameObject| keeps(Retention::AboveBottom, a),
    );
    &&& exists|hit: Seq<Option<usize>>, owner: Seq<Option<usize>>, burst: Seq<Particle>|
        {
            &&& #[trigger] is_scan(o.bullets@, o.enemies@, w, hit, owner)
            &&& s.bullets@ == unmarked(o.bullets@, hit)
            &&& s.enemies@ == unmarked(o.enemies@, owner)
            &&& s.score == sat_add(o.score as int, hit_points(o.bullets@, hit))
            &&& exploded == (exists|b: int| 0 <= b < hit.len() && (#[trigger] hit[b]).is_some())
            &&& #[trigger] burst_chain(o.particles.particles@, burst, hit_spots(o.enemies@, hit), w)
            &&& burst_chain(aged(burst, dt), s.particles.particles@, pickup_spots(items, o.player, w), w)
        }
    &&& s.ammo_items@ == items.filter(|a: GameObject| !collides(a, o.player, w))
    &&& s.missile_ammo == sat_add_u32(
        o.missile_ammo as int,
        3 * pickups_taken(items, o.player, w, GameObjectType::MissileAmmo),
    )
    &&& s.has_spread_shot == (o.has_spread_shot || pickups_taken(items, o.player, w, GameObjectType::SpreadAmmo) > 0)
    &&& s.player == o.player
    &&& s.game_over == o.game_over
    &&& s.spawn_timer == o.spawn_timer
    &&& s.ammo_spawn_timer == o.ammo_spawn_timer
    &&& s.shoot_cooldown == o.shoot_cooldown
    &&& s.missile_cooldown == o.missile_cooldown
    &&& s.next_enemy_id == o.next_enemy_id
    &&& s.star_field@ == o.star_field@
    &&& s.window_size == o.window_size
}

/// A running frame from `o` to `s`: the three stages in turn. The shot cue sounds when a
/// shot or a missile leaves, the explosion cue when a bullet hits.
pub open spec fn running_frame(o: MainState, s: MainState, input: FrameInput, ev: FrameEvents) -> bool {
    &&& ev.shoot_sound == (fired_now(o, input) || missile_launched(o, input))
    &&& exists|s1: MainState, s2: MainState|
        #![trigger hostile_stage(s1, s2, input.dt)]
        player_stage(o, s1, input) && hostile_stage(s1, s2, input.dt) && settle_stage(
            s2,
            s,
            input.dt,
            ev.explosion_sound,
        )
}

impl MainState {
    /// Every entity lies within the simulation's limits; the player is inside the
    /// playfield; projectiles still reach into it and enemies and pickups have not passed
    /// its bottom edge; the particle pool is within its cap.
    pub open spec fn wf(&self) -> bool {
        &&& self.window_size.wf()
        &&& self.player.wf()
        &&& self.player.base_size.x <= FIELD_WIDTH
        &&& self.player.base_size.y <= FIELD_HEIGHT
        &&& self.in_bounds()
        &&& forall|i: int| 0 <= i < self.bullets@.len() ==> (#[trigger] self.bullets@[i]).wf()
        &&& forall|i: int| 0 <= i < self.enemies@.len() ==> (#[trigger] self.enemies@[i]).wf()
        &&& ids_ordered(self.enemies@, self.next_enemy_id)
        &&& forall|i: int| 0 <= i < self.ammo_items@.len() ==> (#[trigger] self.ammo_items@[i]).wf()
        &&& forall|i: int| 0 <= i < self.star_field@.len() ==> star_wf(#[trigger] self.star_field@[i])
        &&& self.particles.wf()
    }

    /// The playfield bounds: the player is clamped inside it, and every projectile, enemy
    /// and pickup that has left it is gone.
    pub open spec fn in_bounds(&self) -> bool {
        &&& player_in_bounds(self.player)
        &&& forall|i: int| 0 <= i < self.bullets@.len() ==> in_field(#[trigger] self.bullets@[i])
        &&& forall|i: int| 0 <= i < self.enemies@.len() ==> (#[trigger] self.enemies@[i]).pos.y < FIELD_HEIGHT
        &&& forall|i: int| 0 <= i < self.ammo_items@.len() ==> (#[trigger] self.ammo_items@[i]).pos.y < FIELD_HEIGHT
    }

    /// Everything but the window size is as in `o`.
    pub open spec fn same_but_window(&self, o: &MainState) -> bool {
        &&& self.player == o.player
        &&& self.bullets@ == o.bullets@
        &&& self.enemies@ == o.enemies@
        &&& self.ammo_items@ == o.ammo_items@
        &&& self.score == o.score
        &&& self.spawn_timer == o.spawn_timer
        &&& self.game_over == o.game_over
        &&& self.paused == o.paused
        &&& self.shoot_cooldown == o.shoot_cooldown
        &&& self.star_field@ == o.star_field@
        &&& self.particles.particles@ == o.particles.particles@
        &&& self.missile_cooldown == o.missile_cooldown
        &&& self.missile_ammo == o.missile_ammo
        &&& self.ammo_spawn_timer == o.ammo_spawn_timer
        &&& self.p_key_pressed == o.p_key_pressed
        &&& self.has_spread_shot == o.has_spread_shot
        &&& self.next_enemy_id == o.next_enemy_id
    }

    /// Everything but the enemies, the pickups and the next enemy id is as in `o`.
    pub open spec fn same_but_spawns(&self, o: &MainState) -> bool {
        &&& self.window_size == o.window_size
        &&& self.player == o.player
        &&& self.bullets@ == o.bullets@
        &&& self.score == o.score
        &&& self.spawn_timer == o.spawn_timer
        &&& self.game_over == o.game_over
        &&& self.paused == o.paused
        &&& self.shoot_cooldown == o.shoot_cooldown
        &&& self.star_field@ == o.star_field@
        &&& self.particles.particles@ == o.particles.particles@
        &&& self.missile_cooldown == o.missile_cooldown
        &&& self.missile_ammo == o.missile_ammo
        &&& self.ammo_spawn_timer == o.ammo_spawn_timer
        &&& self.p_key_pressed == o.p_key_pressed
        &&& self.has_spread_shot == o.has_spread_shot
    }

    /// The session values that a restart brings back.
    pub open spec fn is_fresh_session(&self) -> bool {
        &&& self.player == GameObject {
            pos: Vec2 { x: PLAYER_START_X, y: PLAYER_START_Y },
            base_size: Vec2 { x: PLAYER_WIDTH, y: PLAYER_HEIGHT },
            speed: Vec2 { x: 0, y: 0 },
            rotation: 0,
            object_type: GameObjectType::Player,
            target: None,
            id: 0,
        }
        &&& self.bullets@.len() == 0
        &&& self.enemies@.len() == 0
        &&& self.ammo_items@.len() == 0
        &&& self.score == 0
        &&& !self.game_over
        &&& !self.paused
        &&& self.spawn_timer == 0
        &&& self.shoot_cooldown == 0
        &&& self.missile_cooldown == 0
        &&& self.missile_ammo == INITIAL_MISSILE_AMMO
        &&& self.ammo_spawn_timer == 0
        &&& !self.p_key_pressed
        &&& !self.has_spread_shot
    }

    /// A fresh session on a window of the reference size, under a field of random stars.
    pub fn new() -> (s: MainState)
        ensures
            s.wf(),
            s.is_fresh_session(),
            s.window_size == (WindowSize { width: 1024, height: 768 }),
            s.particles.particles@.len() == 0,
            s.star_field@.len() == STAR_COUNT,
            forall|i: int| 0 <= i < s.star_field@.len() ==> {
                let st = #[trigger] s.star_field@[i];
                0 <= st.pos.x < FIELD_WIDTH && 0 <= st.pos.y < FIELD_HEIGHT && 1000 <= st.size < 3000
            },
    {
        let mut star_field: Vec<Star> = Vec::new();
        let mut k: usize = 0;
        while k < STAR_COUNT
            invariant
                k <= STAR_COUNT,
                star_field@.len() == k,
                forall|i: int| 0 <= i < star_field@.len() ==> {
                    let st = #[trigger] star_field@[i];
                    0 <= st.pos.x < FIELD_WIDTH && 0 <= st.pos.y < FIELD_HEIGHT && 1000 <= st.size < 3000
                },
            decreases STAR_COUNT - k,
        {
            let x = random_in_range(0, FIELD_WIDTH as u64) as i64;
            let y = random_in_range(0, FIELD_HEIGHT as u64) as i64;
            let size = random_in_range(1000, 3000) as i64;
            star_field.push(Star { pos: Vec2 { x, y }, size });
            k = k + 1;
        }
        MainState {
            window_size: WindowSize::new(1024, 768),
            player: GameObject::new(
                PLAYER_START_X,
                PLAYER_START_Y,
                PLAYER_WIDTH,
                PLAYER_HEIGHT,
                GameObjectType::Player,
            ),
            bullets: Vec::new(),
            enemies: Vec::new(),
            score: 0,
            spawn_timer: 0,
            game_over: false,
            paused: false,
            shoot_cooldown: 0,
            star_field,
            particles: ParticleSystem::new(),
            missile_cooldown: 0,
            missile_ammo: INITIAL_MISSILE_AMMO,
            ammo_spawn_timer: 0,
            ammo_items: Vec::new(),
            p_key_pressed: false,
            has_spread_shot: false,
            next_enemy_id: 0,
        }
    }

    /// Brings the session back to its start; the window, stars and particles stay.
    pub fn reset(&mut self)
        requires
            old(self).wf(),
        ensures
            final(self).wf(),
            final(self).is_fresh_session(),
            final(self).window_size == old(self).window_size,
            final(self).star_field@ == old(self).star_field@,
            final(self).particles.particles@ == old(self).particles.particles@,
            final(self).next_enemy_id == old(self).next_enemy_id,
    {
        self.player = GameObject::new(
            PLAYER_START_X,
            PLAYER_START_Y,
            PLAYER_WIDTH,
            PLAYER_HEIGHT,
            GameObjectType::Player,
        );
        self.bullets = Vec::new();
        self.enemies = Vec::new();
        self.ammo_items = Vec::new();
        self.score = 0;
        self.game_over = false;
        self.paused = false;
        self.spawn_timer = 0;
        self.shoot_cooldown = 0;
        self.missile_cooldown = 0;
        self.missile_ammo = INITIAL_MISSILE_AMMO;
        self.ammo_spawn_timer = 0;
        self.p_key_pressed = false;
        self.has_spread_shot = false;
    }

    /// Records a new window size.
    pub fn resize_event(&mut self, width: u32, height: u32)
        requires
            old(self).wf(),
            1 <= width <= crate::geometry::MAX_WINDOW_DIM,
            1 <= height <= crate::geometry::MAX_WINDOW_DIM,
        ensures
            final(self).wf(),
            final(self).window_size == (WindowSize { width, height }),
            final(self).same_but_window(old(self)),
    {
        self.window_size = WindowSize::new(width, height);
    }

    /// Adds an enemy entering above the top edge with horizontal centre `x`, under the next
    /// unused id. Ids are never reused: once they are spent, no enemy is added.
    pub fn spawn_enemy_at(&mut self, x: i64)
        requires
            old(self).wf(),
            -WORLD_LIMIT <= x <= WORLD_LIMIT,
        ensures
            final(self).wf(),
            final(self).same_but_spawns(old(self)),
            final(self).ammo_items@ == old(self).ammo_items@,
            final(self).enemies@ == with_enemy(old(self).enemies@, x as int, old(self).next_enemy_id),
            final(self).next_enemy_id == next_id_after(old(self).next_enemy_id),
    {
        if self.next_enemy_id < u64::MAX {
            let mut enemy = GameObject::new(x, ENEMY_START_Y, ENEMY_SIZE, ENEMY_SIZE, GameObjectType::Enemy);
            enemy.id = self.next_enemy_id;
            self.enemies.push(enemy);
            self.next_enemy_id = self.next_enemy_id + 1;
        }
    }

    /// Adds an enemy at a uniformly random horizontal place in `[0, width - 40 px)`.
    pub fn spawn_enemy(&mut self)
        requires
            old(self).wf(),
        ensures
            final(self).wf(),
            final(self).same_but_spawns(old(self)),
            final(self).ammo_items@ == old(self).ammo_items@,
            final(self).next_enemy_id == next_id_after(old(self).next_enemy_id),
            exists|x: int|
                0 <= x < FIELD_WIDTH - ENEMY_SIZE && final(self).enemies@ == #[trigger] with_enemy(
                    old(self).enemies@,
                    x,
                    old(self).next_enemy_id,
                ),
    {
        let x = random_in_range(0, (FIELD_WIDTH - ENEMY_SIZE) as u64) as i64;
        self.spawn_enemy_at(x);
        assert(self.enemies@ == with_enemy(old(self).enemies@, x as int, old(self).next_enemy_id));
    }

    /// Adds a pickup of the given kind entering above the top edge with horizontal
    /// centre `x`.
    pub fn spawn_pickup_at(&mut self, kind: GameObjectType, x: i64)
        requires
            old(self).wf(),
            kind == GameObjectType::MissileAmmo || kind == GameObjectType::SpreadAmmo,
            -WORLD_LIMIT <= x <= WORLD_LIMIT,
        ensures
            final(self).wf(),
            final(self).same_but_spawns(old(self)),
            final(self).enemies@ == old(self).enemies@,
            final(self).next_enemy_id == old(self).next_enemy_id,
            final(self).ammo_items@ == old(self).ammo_items@.push(pickup_at(kind, x as int)),
    {
        let size = match kind {
            GameObjectType::SpreadAmmo => SPREAD_AMMO_SIZE,
            _ => MISSILE_AMMO_SIZE,
        };
        let item = GameObject::new(x, PICKUP_START_Y, size, size, kind);
        self.ammo_items.push(item);
    }

    /// Adds a missile-ammo pickup at a uniformly random horizontal place in
    /// `[0, width - 20 px)`.
    pub fn spawn_missile_ammo(&mut self)
        requires
            old(self).wf(),
        ensures
            final(self).wf(),
            final(self).same_but_spawns(old(self)),
            final(self).enemies@ == old(self).enemies@,
            final(self).next_enemy_id == old(self).next_enemy_id,
            exists|x: int|
                0 <= x < FIELD_WIDTH - PICKUP_SPAWN_MARGIN
                    && final(self).ammo_items@ == old(self).ammo_items@.push(
                    #[trigger] pickup_at(GameObjectType::MissileAmmo, x),
                ),
    {
        let x = random_in_range(0, (FIELD_WIDTH - PICKUP_SPAWN_MARGIN) as u64) as i64;
        self.spawn_pickup_at(GameObjectType::MissileAmmo, x);
        assert(self.ammo_items@ == old(self).ammo_items@.push(
            pickup_at(GameObjectType::MissileAmmo, x as int),
        ));
    }

    /// Adds a spread-ammo pickup at a uniformly random horizontal place in
    /// `[0, width - 20 px)`.
    pub fn spawn_spread_ammo(&mut self)
        requires
            old(self).wf(),
        ensures
            final(self).wf(),
            final(self).same_but_spawns(old(self)),
            final(self).enemies@ == old(self).enemies@,
            final(self).next_enemy_id == old(self).next_enemy_id,
            exists|x: int|
                0 <= x < FIELD_WIDTH - PICKUP_SPAWN_MARGIN
                    && final(self).ammo_items@ == old(self).ammo_items@.push(
                    #[trigger] pickup_at(GameObjectType::SpreadAmmo, x),
                ),
    {
        let x = random_in_range(0, (FIELD_WIDTH - PICKUP_SPAWN_MARGIN) as u64) as i64;
        self.spawn_pickup_at(GameObjectType::SpreadAmmo, x);
        assert(self.ammo_items@ == old(self).ammo_items@.push(
            pickup_at(GameObjectType::SpreadAmmo, x as int),
        ));
    }

    /// Fires one shot from the top centre of the player: five fanned bullets with the
    /// spread shot, else one straight bullet; a small burst marks the muzzle.
    pub fn shoot(&mut self)
        requires
            old(self).wf(),
        ensures
            final(self).wf(),
            final(self).bullets@ == old(self).bullets@ + shot(
                old(self).player,
                old(self).has_spread_shot,
                old(self).window_size,
            ),
            is_burst_after(
                old(self).particles.particles@,
                final(self).particles.particles@,
                muzzle(old(self).player),
                muzzle_color(old(self).has_spread_shot),
                old(self).window_size,
            ),
            final(self).player == old(self).player,
            final(self).enemies@ == old(self).enemies@,
            final(self).ammo_items@ == old(self).ammo_items@,
            final(self).window_size == old(self).window_size,
            final(self).score == old(self).score,
            final(self).game_over == old(self).game_over,
            final(self).paused == old(self).paused,
            final(self).has_spread_shot == old(self).has_spread_shot,
            final(self).missile_ammo == old(self).missile_ammo,
            final(self).shoot_cooldown == old(self).shoot_cooldown,
            final(self).missile_cooldown == old(self).missile_cooldown,
            final(self).spawn_timer == old(self).spawn_timer,
            final(self).ammo_spawn_timer == old(self).ammo_spawn_timer,
            final(self).p_key_pressed == old(self).p_key_pressed,
            final(self).next_enemy_id == old(self).next_enemy_id,
            final(self).star_field@ == old(self).star_field@,
    {
        let muzzle_pos = Vec2 { x: self.player.pos.x, y: self.player.pos.y - self.player.base_size.y / 2 };
        let color = if self.has_spread_shot {
            Color::new(1000, 500, 0, 500)
        } else {
            Color::new(1000, 1000, 0, 500)
        };
        self.particles.add_explosion(muzzle_pos, color, &self.window_size);
        if self.has_spread_shot {
            push_spread(&mut self.bullets, &self.player, &self.window_size, muzzle_pos);
        } else {
            let ghost before = self.bullets@;
            let bullet = GameObject::new(
                muzzle_pos.x - BULLET_WIDTH / 2,
                muzzle_pos.y,
                BULLET_WIDTH,
                BULLET_HEIGHT,
                GameObjectType::Bullet,
            );
            self.bullets.push(bullet);
            assert(self.bullets@ =~= before + seq![plain_bullet(self.player)]);
        }
    }

    /// Counts the shot cooldown down by `dt`; then, if `fire` is held and the cooldown has
    /// run out, fires one shot and restarts the cooldown. Returns whether it fired.
    pub fn fire_step(&mut self, fire: bool, dt: u64) -> (fired: bool)
        requires
            old(self).wf(),
        ensures
            final(self).wf(),
            fired == (fire && sat_sub(old(self).shoot_cooldown, dt) == 0),
            fired ==> final(self).shoot_cooldown == SHOOT_COOLDOWN,
            fired ==> final(self).bullets@ == old(self).bullets@ + shot(
                old(self).player,
                old(self).has_spread_shot,
                old(self).window_size,
            ),
            fired ==> is_burst_after(
                old(self).particles.particles@,
                final(self).particles.particles@,
                muzzle(old(self).player),
                muzzle_color(old(self).has_spread_shot),
                old(self).window_size,
            ),
            !fired ==> final(self).shoot_cooldown == sat_sub(old(self).shoot_cooldown, dt),
            !fired ==> final(self).bullets@ == old(self).bullets@,
            !fired ==> final(self).particles.particles@ == old(self).particles.particles@,
            final(self).player == old(self).player,
            final(self).enemies@ == old(self).enemies@,
            final(self).ammo_items@ == old(self).ammo_items@,
            final(self).window_size == old(self).window_size,
            final(self).score == old(self).score,
            final(self).game_over == old(self).game_over,
            final(self).paused == old(self).paused,
            final(self).has_spread_shot == old(self).has_spread_shot,
            final(self).missile_ammo == old(self).missile_ammo,
            final(self).missile_cooldown == old(self).missile_cooldown,
            final(self).spawn_timer == old(self).spawn_timer,
            final(self).ammo_spawn_timer == old(self).ammo_spawn_timer,
            final(self).p_key_pressed == old(self).p_key_pressed,
            final(self).next_enemy_id == old(self).next_enemy_id,
            final(self).star_field@ == old(self).star_field@,
    {
        self.shoot_cooldown = self.shoot_cooldown.saturating_sub(dt);
        if fire && self.shoot_cooldown == 0 {
            self.shoot();
            self.shoot_cooldown = SHOOT_COOLDOWN;
            true
        } else {
            false
        }
    }

    /// Launches a guided missile from the top centre of the player at the nearest enemy
    /// (the first of them on a tie), if there is an enemy and a missile left. Returns
    /// whether it launched.
    pub fn launch_missile(&mut self) -> (launched: bool)
        requires
            old(self).wf(),
        ensures
            final(self).wf(),
            launched == (old(self).enemies@.len() > 0 && old(self).missile_ammo > 0),
            launched ==> final(self).bullets@ == old(self).bullets@.push(
                missile_for(old(self).player, old(self).enemies@[nearest(old(self).enemies@, old(self).player)].id),
            ),
            !launched ==> final(self).bullets@ == old(self).bullets@,
            !launched ==> final(self).missile_ammo == old(self).missile_ammo,
            launched ==> final(self).missile_ammo == old(self).missile_ammo - 1,
            launched ==> exists|i: int|
                is_nearest(old(self).enemies@, old(self).player, i) && final(self).bullets@ == old(
                    self,
                ).bullets@.push(#[trigger] missile_for(old(self).player, old(self).enemies@[i].id)),
            final(self).player == old(self).player,
            final(self).enemies@ == old(self).enemies@,
            final(self).ammo_items@ == old(self).ammo_items@,
            final(self).window_size == old(self).window_size,
            final(self).particles.particles@ == old(self).particles.particles@,
            final(self).score == old(self).score,
            final(self).game_over == old(self).game_over,
            final(self).paused == old(self).paused,
            final(self).has_spread_shot == old(self).has_spread_shot,
            final(self).shoot_cooldown == old(self).shoot_cooldown,
            final(self).missile_cooldown == old(self).missile_cooldown,
            final(self).spawn_timer == old(self).spawn_timer,
            final(self).ammo_spawn_timer == old(self).ammo_spawn_timer,
            final(self).p_key_pressed == old(self).p_key_pressed,
            final(self).next_enemy_id == old(self).next_enemy_id,
            final(self).star_field@ == old(self).star_field@,
    {
        if self.enemies.len() == 0 || self.missile_ammo == 0 {
            return false;
        }
        let px = self.player.pos.x as i128;
        let py = self.player.pos.y as i128;
        let mut best: usize = 0;
        let mut best_d: i128 = 0;
        let mut i: usize = 0;
        let n = self.enemies.len();
        while i < n
            invariant
                n == self.enemies@.len(),
                n > 0,
                i <= n,
                best < n,
                self.wf(),
                px == self.player.pos.x,
                py == self.player.pos.y,
                i > 0 ==> best < i,
                i > 0 ==> best_d == dist2(self.enemies@[best as int], self.player),
                forall|j: int| 0 <= j < i ==> dist2(self.enemies@[best as int], self.player) <= #[trigger] dist2(self.enemies@[j], self.player),
                forall|j: int| 0 <= j < best ==> dist2(self.enemies@[best as int], self.player) < #[trigger] dist2(self.enemies@[j], self.player),
            decreases n - i,
        {
            let e = self.enemies[i];
            let dx = (e.pos.x as i128) - px;
            let dy = (e.pos.y as i128) - py;
            assert(0 <= dx * dx <= 40_000_000_000_000_000) by (nonlinear_arith)
                requires -200_000_000 <= dx <= 200_000_000;
            assert(0 <= dy * dy <= 40_000_000_000_000_000) by (nonlinear_arith)
                requires -200_000_000 <= dy <= 200_000_000;
            let d = dx * dx + dy * dy;
            assert(d == dist2(self.enemies@[i as int], self.player));
            if i == 0 || d < best_d {
                best = i;
                best_d = d;
            }
            i = i + 1;
        }
        let mut missile = GameObject::new(
            self.player.pos.x,
            self.player.pos.y - self.player.base_size.y / 2,
            MISSILE_WIDTH,
            MISSILE_HEIGHT,
            GameObjectType::GuidedMissile,
        );
        missile.target = Some(self.enemies[best].id);
        assert(is_nearest(self.enemies@, self.player, best as int));
        proof {
            let c = nearest(self.enemies@, self.player);
            lemma_nearest_unique(self.enemies@, self.player, best as int, c);
        }
        assert(missile == missile_for(self.player, self.enemies@[best as int].id));
        self.bullets.push(missile);
        self.missile_ammo = self.missile_ammo - 1;
        true
    }

    /// Counts the missile cooldown down by `dt`; then, if the missile key is held and the
    /// cooldown has run out, tries a launch and restarts the cooldown, whether or not a
    /// missile left. Returns whether one left.
    pub fn missile_step(&mut self, key: bool, dt: u64) -> (launched: bool)
        requires
            old(self).wf(),
        ensures
            final(self).wf(),
            (key && sat_sub(old(self).missile_cooldown, dt) == 0) ==> final(self).missile_cooldown == MISSILE_COOLDOWN,
            !(key && sat_sub(old(self).missile_cooldown, dt) == 0) ==> final(self).missile_cooldown == sat_sub(old(self).missile_cooldown, dt),
            launched == (key && sat_sub(old(self).missile_cooldown, dt) == 0 && old(self).enemies@.len() > 0 && old(self).missile_ammo > 0),
            launched ==> final(self).missile_ammo == old(self).missile_ammo - 1,
            launched ==> exists|i: int|
                is_nearest(old(self).enemies@, old(self).player, i) && final(self).bullets@ == old(
                    self,
                ).bullets@.push(#[trigger] missile_for(old(self).player, old(self).enemies@[i].id)),
            launched ==> final(self).bullets@ == old(self).bullets@.push(
                missile_for(old(self).player, old(self).enemies@[nearest(old(self).enemies@, old(self).player)].id),
            ),
            !launched ==> final(self).bullets@ == old(self).bullets@,
            !launched ==> final(self).missile_ammo == old(self).missile_ammo,
            final(self).player == old(self).player,
            final(self).enemies@ == old(self).enemies@,
            final(self).ammo_items@ == old(self).ammo_items@,
            final(self).window_size == old(self).window_size,
            final(self).particles.particles@ == old(self).particles.particles@,
            final(self).score == old(self).score,
            final(self).game_over == old(self).game_over,
            final(self).paused == old(self).paused,
            final(self).has_spread_shot == old(self).has_spread_shot,
            final(self).shoot_cooldown == old(self).shoot_cooldown,
            final(self).spawn_timer == old(self).spawn_timer,
            final(self).ammo_spawn_timer == old(self).ammo_spawn_timer,
            final(self).p_key_pressed == old(self).p_key_pressed,
            final(self).next_enemy_id == old(self).next_enemy_id,
            final(self).star_field@ == old(self).star_field@,
    {
        self.missile_cooldown = self.missile_cooldown.saturating_sub(dt);
        if key && self.missile_cooldown == 0 {
            let launched = self.launch_missile();
            self.missile_cooldown = MISSILE_COOLDOWN;
            launched
        } else {
            false
        }
    }

    /// Moves the player by the held direction keys at player speed, clamped so that its
    /// whole sprite stays inside the playfield.
    pub fn move_player(&mut self, input: &FrameInput)
        requires
            old(self).wf(),
        ensures
            final(self).wf(),
            final(self).player == moved_player(old(self).player, old(self).window_size, *input),
            final(self).bullets@ == old(self).bullets@,
            final(self).enemies@ == old(self).enemies@,
            final(self).ammo_items@ == old(self).ammo_items@,
            final(self).window_size == old(self).window_size,
            final(self).particles.particles@ == old(self).particles.particles@,
            final(self).score == old(self).score,
            final(self).game_over == old(self).game_over,
            final(self).paused == old(self).paused,
            final(self).has_spread_shot == old(self).has_spread_shot,
            final(self).missile_ammo == old(self).missile_ammo,
            final(self).shoot_cooldown == old(self).shoot_cooldown,
            final(self).missile_cooldown == old(self).missile_cooldown,
            final(self).spawn_timer == old(self).spawn_timer,
            final(self).ammo_spawn_timer == old(self).ammo_spawn_timer,
            final(self).p_key_pressed == old(self).p_key_pressed,
            final(self).next_enemy_id == old(self).next_enemy_id,
            final(self).star_field@ == old(self).star_field@,
    {
        let speed = self.window_size.player_speed();
        let mut dx: i64 = 0;
        let mut dy: i64 = 0;
        if input.left {
            dx = dx - speed;
        }
        if input.right {
            dx = dx + speed;
        }
        if input.up {
            dy = dy - speed;
        }
        if input.down {
            dy = dy + speed;
        }
        let nx = self.player.pos.x + dx;
        let ny = self.player.pos.y + dy;
        let lo_x = self.player.base_size.x / 2;
        let hi_x = FIELD_WIDTH - self.player.base_size.x / 2;
        let lo_y = self.player.base_size.y / 2;
        let hi_y = FIELD_HEIGHT - self.player.base_size.y / 2;
        let x = if nx < lo_x { lo_x } else if nx > hi_x { hi_x } else { nx };
        let y = if ny < lo_y { lo_y } else if ny > hi_y { hi_y } else { ny };
        self.player.pos = Vec2 { x, y };
    }

    /// Scans every bullet against every enemy, removes the pairs that hit, adds their
    /// points (saturating) and queues an orange burst at each destroyed enemy. Returns the
    /// scan: the enemy that each bullet destroyed and the bullet that destroyed each enemy.
    pub fn resolve_bullet_hits(&mut self) -> (r: (Vec<Option<usize>>, Vec<Option<usize>>))
        requires
            old(self).wf(),
        ensures
            final(self).wf(),
            is_scan(old(self).bullets@, old(self).enemies@, old(self).window_size, r.0@, r.1@),
            final(self).bullets@ == unmarked(old(self).bullets@, r.0@),
            final(self).enemies@ == unmarked(old(self).enemies@, r.1@),
            final(self).score == sat_add(old(self).score as int, hit_points(old(self).bullets@, r.0@)),
            hit_points(old(self).bullets@, r.0@) >= 0,
            burst_chain(
                old(self).particles.particles@,
                final(self).particles.particles@,
                hit_spots(old(self).enemies@, r.0@),
                old(self).window_size,
            ),
            final(self).player == old(self).player,
            final(self).ammo_items@ == old(self).ammo_items@,
            final(self).window_size == old(self).window_size,
            final(self).game_over == old(self).game_over,
            final(self).paused == old(self).paused,
            final(self).has_spread_shot == old(self).has_spread_shot,
            final(self).missile_ammo == old(self).missile_ammo,
            final(self).shoot_cooldown == old(self).shoot_cooldown,
            final(self).missile_cooldown == old(self).missile_cooldown,
            final(self).spawn_timer == old(self).spawn_timer,
            final(self).ammo_spawn_timer == old(self).ammo_spawn_timer,
            final(self).p_key_pressed == old(self).p_key_pressed,
            final(self).next_enemy_id == old(self).next_enemy_id,
            final(self).star_field@ == old(self).star_field@,
    {
        let (hit, owner) = scan_collisions(&self.bullets, &self.enemies, &self.window_size);
        let n = self.bullets.len();
        let mut i: usize = 0;
        while i < n
            invariant
                n == self.bullets@.len(),
                n == old(self).bullets@.len(),
                i <= n,
                self.bullets@ == old(self).bullets@,
                self.enemies@ == old(self).enemies@,
                self.window_size == old(self).window_size,
                self.wf(),
                is_scan(old(self).bullets@, old(self).enemies@, old(self).window_size, hit@, owner@),
                hit_points(self.bullets@.take(i as int), hit@) >= 0,
                self.score == sat_add(old(self).score as int, hit_points(self.bullets@.take(i as int), hit@)),
                hit@.len() == n,
                burst_chain(
                    old(self).particles.particles@,
                    self.particles.particles@,
                    hit_spots(old(self).enemies@, hit@.take(i as int)),
                    old(self).window_size,
                ),
                self.player == old(self).player,
                self.ammo_items@ == old(self).ammo_items@,
                self.game_over == old(self).game_over,
                self.paused == old(self).paused,
                self.has_spread_shot == old(self).has_spread_shot,
                self.missile_ammo == old(self).missile_ammo,
                self.shoot_cooldown == old(self).shoot_cooldown,
                self.missile_cooldown == old(self).missile_cooldown,
                self.spawn_timer == old(self).spawn_timer,
                self.ammo_spawn_timer == old(self).ammo_spawn_timer,
                self.p_key_pressed == old(self).p_key_pressed,
                self.next_enemy_id == old(self).next_enemy_id,
                self.star_field@ == old(self).star_field@,
            decreases n - i,
        {
            assert(self.bullets@.take(i as int + 1).drop_last() =~= self.bullets@.take(i as int));
            assert(hit@.take(i as int + 1).drop_last() =~= hit@.take(i as int));
            let ghost before = self.particles.particles@;
            match hit[i] {
                Some(e) => {
                    let pts = match self.bullets[i].object_type {
                        GameObjectType::GuidedMissile => MISSILE_POINTS,
                        _ => BULLET_POINTS,
                    };
                    self.score = if self.score > u64::MAX - pts {
                        u64::MAX
                    } else {
                        self.score + pts
                    };
                    let pos = self.enemies[e].pos;
                    self.particles.add_explosion(pos, Color::new(1000, 500, 0, 1000), &self.window_size);
                    proof {
                        lemma_burst_chain_push(
                            old(self).particles.particles@,
                            before,
                            self.particles.particles@,
                            hit_spots(old(self).enemies@, hit@.take(i as int)),
                            pos,
                            explosion_color(),
                            self.window_size,
                        );
                        assert(hit_spots(old(self).enemies@, hit@.take(i as int + 1)) == hit_spots(
                            old(self).enemies@,
                            hit@.take(i as int),
                        ).push((pos, explosion_color())));
                    }
                },
                None => {},
            }
            i = i + 1;
        }
        assert(self.bullets@.take(n as int) =~= self.bullets@);
        assert(hit@.take(n as int) =~= hit@);
        let bullets = remove_marked(&self.bullets, &hit);
        let enemies = remove_marked(&self.enemies, &owner);
        proof {
            lemma_unmarked_subset(old(self).bullets@, hit@);
            lemma_unmarked_subset(old(self).enemies@, owner@);
            lemma_unmarked_ids_ordered(old(self).enemies@, owner@, old(self).next_enemy_id);
        }
        self.bullets = bullets;
        self.enemies = enemies;
        (hit, owner)
    }

    /// Every field is as in `o`.
    pub open spec fn same_state(&self, o: &MainState) -> bool {
        &&& self.same_but_window(o)
        &&& self.window_size == o.window_size
    }

    /// Everything but the pause flag and the pause key's state is as in `o`.
    pub open spec fn same_but_pause(&self, o: &MainState) -> bool {
        &&& self.window_size == o.window_size
        &&& self.player == o.player
        &&& self.bullets@ == o.bullets@
        &&& self.enemies@ == o.enemies@
        &&& self.ammo_items@ == o.ammo_items@
        &&& self.score == o.score
        &&& self.spawn_timer == o.spawn_timer
        &&& self.game_over == o.game_over
        &&& self.shoot_cooldown == o.shoot_cooldown
        &&& self.star_field@ == o.star_field@
        &&& self.particles.particles@ == o.particles.particles@
        &&& self.missile_cooldown == o.missile_cooldown
        &&& self.missile_ammo == o.missile_ammo
        &&& self.ammo_spawn_timer == o.ammo_spawn_timer
        &&& self.has_spread_shot == o.has_spread_shot
        &&& self.next_enemy_id == o.next_enemy_id
    }

    /// One frame of the session. After a game over nothing changes until fire is pressed,
    /// which restarts the session. Otherwise the pause key toggles pause on the frame it
    /// goes down; while paused nothing changes. A running frame is the three stages
    /// `player_stage`, `hostile_stage` and `settle_stage` in turn. Returns the sound cues
    /// to play.
    pub fn update(&mut self, input: &FrameInput) -> (ev: FrameEvents)
        requires
            old(self).wf(),
        ensures
            final(self).wf(),
            final(self).in_bounds(),
            final(self).window_size == old(self).window_size,
            old(self).game_over && input.fire ==> final(self).is_fresh_session(),
            old(self).game_over && !input.fire ==> final(self).same_state(old(self)),
            old(self).game_over ==> !ev.shoot_sound && !ev.explosion_sound,
            !old(self).game_over ==> final(self).p_key_pressed == input.pause,
            !old(self).game_over ==> final(self).paused == toggled(
                old(self).paused,
                old(self).p_key_pressed,
                input.pause,
            ),
            !old(self).game_over && toggled(old(self).paused, old(self).p_key_pressed, input.pause)
                ==> final(self).same_but_pause(old(self)) && !ev.shoot_sound && !ev.explosion_sound,
            !old(self).game_over && !toggled(old(self).paused, old(self).p_key_pressed, input.pause)
                ==> running_frame(*old(self), *final(self), *input, ev),
            !old(self).game_over ==> final(self).score >= old(self).score,
    {
        if self.game_over {
            if input.fire {
                self.reset();
            }
            return FrameEvents { shoot_sound: false, explosion_sound: false };
        }
        let pressed = input.pause && !self.p_key_pressed;
        let paused = if pressed { !self.paused } else { self.paused };
        if paused {
            self.paused = true;
            self.p_key_pressed = input.pause;
            return FrameEvents { shoot_sound: false, explosion_sound: false };
        }
        let ev = self.advance(input);
        self.paused = false;
        self.p_key_pressed = input.pause;
        ev
    }

    /// A running frame: the three stages in turn.
    fn advance(&mut self, input: &FrameInput) -> (ev: FrameEvents)
        requires
            old(self).wf(),
            !old(self).game_over,
        ensures
            final(self).wf(),
            final(self).paused == old(self).paused,
            final(self).p_key_pressed == old(self).p_key_pressed,
            final(self).score >= old(self).score,
            running_frame(*old(self), *final(self), *input, ev),
    {
        let ghost s0 = *self;
        let shoot_sound = self.advance_player(input);
        let ghost s1 = *self;
        self.advance_hostiles(input.dt);
        let ghost s2 = *self;
        let explosion_sound = self.settle(input.dt);
        let ev = FrameEvents { shoot_sound, explosion_sound };
        assert(player_stage(s0, s1, *input) && hostile_stage(s1, s2, input.dt) && settle_stage(
            s2,
            *self,
            input.dt,
            explosion_sound,
        ));
        ev
    }

    /// Moves the player, fires the weapons and moves the projectiles, dropping those that
    /// left the playfield. Returns whether a shot or a missile left.
    fn advance_player(&mut self, input: &FrameInput) -> (sound: bool)
        requires
            old(self).wf(),
        ensures
            final(self).wf(),
            final(self).paused == old(self).paused,
            final(self).p_key_pressed == old(self).p_key_pressed,
            player_stage(*old(self), *final(self), *input),
            sound == (fired_now(*old(self), *input) || missile_launched(*old(self), *input)),
    {
        self.move_player(input);
        let fired = self.fire_step(input.fire, input.dt);
        let launched = self.missile_step(input.missile, input.dt);
        let ghost all = self.bullets@;
        assert(all == old(self).bullets@ + fresh_bullets(*old(self), *input));
        step_bullets(&mut self.bullets, &self.enemies, &self.window_size);
        self.bullets = retain_by(&self.bullets, Retention::InField);
        fired || launched
    }

    /// Runs the spawn timers, moves the enemies down, ends the game if one of them touches
    /// the player, drops those past the bottom edge and scrolls the stars.
    fn advance_hostiles(&mut self, dt: u64)
        requires
            old(self).wf(),
        ensures
            final(self).wf(),
            final(self).paused == old(self).paused,
            final(self).p_key_pressed == old(self).p_key_pressed,
            hostile_stage(*old(self), *final(self), dt),
    {
        self.ammo_spawn_timer = self.ammo_spawn_timer.saturating_add(dt);
        if self.ammo_spawn_timer >= AMMO_SPAWN_INTERVAL {
            if coin_flip() {
                self.spawn_missile_ammo();
            } else {
                self.spawn_spread_ammo();
            }
            self.ammo_spawn_timer = 0;
        }
        self.spawn_timer = self.spawn_timer.saturating_add(dt);
        if self.spawn_timer >= ENEMY_SPAWN_INTERVAL {
            self.spawn_enemy();
            self.spawn_timer = 0;
        }
        let ghost spawned = self.enemies@;
        let d = descent(&self.window_size, dt);
        descend(&mut self.enemies, d);
        let ghost moved = self.enemies@;
        proof {
            assert(ids_ordered(moved, self.next_enemy_id));
        }
        if any_touches(&self.enemies, &self.player, &self.window_size) {
            self.game_over = true;
        }
        self.enemies = retain_by(&self.enemies, Retention::AboveBottom);
        proof {
            lemma_filter_ids_ordered(moved, |e: GameObject| keeps(Retention::AboveBottom, e), self.next_enemy_id);
        }
        scroll_stars(&mut self.star_field, &self.window_size);
        assert(descended_all(spawned, d as int) == moved);
    }

    /// Resolves the hits, ages the particles, moves the pickups down, drops those past the
    /// bottom edge and collects those that touch the player. Returns whether anything
    /// exploded.
    fn settle(&mut self, dt: u64) -> (exploded: bool)
        requires
            old(self).wf(),
        ensures
            final(self).wf(),
            final(self).paused == old(self).paused,
            final(self).p_key_pressed == old(self).p_key_pressed,
            final(self).score >= old(self).score,
            settle_stage(*old(self), *final(self), dt, exploded),
    {
        let (hit, _owner) = self.resolve_bullet_hits();
        let ghost burst = self.particles.particles@;
        let mut exploded = false;
        let mut i: usize = 0;
        while i < hit.len()
            invariant
                i <= hit@.len(),
                exploded == (exists|b: int| 0 <= b < i && (#[trigger] hit@[b]).is_some()),
            decreases hit@.len() - i,
        {
            if hit[i].is_some() {
                exploded = true;
            }
            i = i + 1;
        }
        self.particles.update(dt);
        let d = descent(&self.window_size, dt);
        descend(&mut self.ammo_items, d);
        self.ammo_items = retain_by(&self.ammo_items, Retention::AboveBottom);
        let ghost items = self.ammo_items@;
        let kept = collect(
            &self.ammo_items,
            &self.player,
            &self.window_size,
            &mut self.missile_ammo,
            &mut self.has_spread_shot,
            &mut self.particles,
        );
        self.ammo_items = kept;
        exploded
    }
}

} // verus!
