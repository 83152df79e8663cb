use vertical_shooter::entity::{GameObject, GameObjectType};
use vertical_shooter::game::{
    FrameInput, MainState, INITIAL_MISSILE_AMMO, MISSILE_COOLDOWN, SHOOT_COOLDOWN,
};
use vertical_shooter::geometry::Vec2;
use vertical_shooter::particles::Color;

const FRAME: u64 = 16_667;

fn idle() -> FrameInput {
    FrameInput {
        left: false,
        right: false,
        up: false,
        down: false,
        fire: false,
        missile: false,
        pause: false,
        dt: FRAME,
    }
}

fn enemy(x: i64, y: i64, id: u64) -> GameObject {
    let mut e = GameObject::new(x, y, 40_000, 40_000, GameObjectType::Enemy);
    e.id = id;
    e
}

#[test]
fn fresh_session_values() {
    let s = MainState::new();
    assert_eq!(s.player.pos, Vec2::new(512_000, 738_000));
    assert_eq!(s.missile_ammo, INITIAL_MISSILE_AMMO);
    assert_eq!(s.score, 0);
    assert!(!s.game_over && !s.paused && !s.has_spread_shot);
    assert_eq!(s.star_field.len(), 100);
    assert!(s.bullets.is_empty() && s.enemies.is_empty() && s.ammo_items.is_empty());
}

#[test]
fn enemy_descends_at_enemy_speed_and_leaves_at_the_bottom() {
    let mut s = MainState::new();
    s.spawn_enemy_at(500_000);
    assert_eq!(s.enemies[0].pos, Vec2::new(500_000, -50_000));
    s.update(&idle());
    assert_eq!(s.enemies.len(), 1);
    assert_eq!(s.enemies[0].pos, Vec2::new(500_000, -48_000));
    // Sixty frames (one simulated second at 60 Hz) take it 120 px down.
    for _ in 1..60 {
        s.update(&idle());
    }
    assert_eq!(s.enemies[0].pos.y, -50_000 + 60 * 2_000);
    s.enemies[0].pos.y = 765_000;
    s.update(&idle());
    assert_eq!(s.enemies[0].pos.y, 767_000);
    s.update(&idle());
    assert!(s.enemies.iter().all(|e| e.id != 0));
}

#[test]
fn spread_shot_fires_five_fanned_bullets() {
    let mut s = MainState::new();
    s.has_spread_shot = true;
    s.shoot();
    assert_eq!(s.bullets.len(), 5);
    let rotations: Vec<i64> = s.bullets.iter().map(|b| b.rotation).collect();
    assert_eq!(rotations, vec![-524, -262, 0, 262, 524]);
    let speeds: Vec<Vec2> = s.bullets.iter().map(|b| b.speed).collect();
    assert_eq!(
        speeds,
        vec![
            Vec2::new(-4_000, -6_928),
            Vec2::new(-2_072, -7_728),
            Vec2::new(0, -8_000),
            Vec2::new(2_072, -7_728),
            Vec2::new(4_000, -6_928),
        ]
    );
    for b in &s.bullets {
        assert_eq!(b.pos, Vec2::new(512_000, 708_000));
        assert_eq!(b.object_type, GameObjectType::SpreadShot);
    }
    assert_eq!(s.particles.particles.len(), 10);
    assert_eq!(s.particles.particles[0].color, Color::new(1000, 500, 0, 500));
}

#[test]
fn plain_shot_fires_one_bullet() {
    let mut s = MainState::new();
    s.shoot();
    assert_eq!(s.bullets.len(), 1);
    assert_eq!(s.bullets[0].pos, Vec2::new(509_500, 708_000));
    assert_eq!(s.bullets[0].object_type, GameObjectType::Bullet);
    assert_eq!(s.particles.particles[0].color, Color::new(1000, 1000, 0, 500));
}

#[test]
fn cooldown_gates_firing() {
    let mut s = MainState::new();
    s.shoot_cooldown = 10_000;
    assert!(!s.fire_step(true, 5_000));
    assert!(s.bullets.is_empty());
    assert_eq!(s.shoot_cooldown, 5_000);
    assert!(s.fire_step(true, 5_000));
    assert_eq!(s.bullets.len(), 1);
    assert_eq!(s.shoot_cooldown, SHOOT_COOLDOWN);
    assert!(!s.fire_step(true, 100_000));
    assert_eq!(s.bullets.len(), 1);
    assert_eq!(s.shoot_cooldown, 150_000);
    assert!(!s.fire_step(false, 200_000));
    assert_eq!(s.shoot_cooldown, 0);
}

#[test]
fn spread_fire_at_zero_cooldown_gives_five() {
    let mut s = MainState::new();
    s.has_spread_shot = true;
    assert!(s.fire_step(true, 0));
    assert_eq!(s.bullets.len(), 5);
    assert_eq!(s.shoot_cooldown, SHOOT_COOLDOWN);
}

#[test]
fn missile_targets_the_nearest_enemy() {
    let mut s = MainState::new();
    s.enemies = vec![enemy(100_000, 100_000, 4), enemy(500_000, 500_000, 5), enemy(520_000, 500_000, 6)];
    assert!(s.launch_missile());
    assert_eq!(s.missile_ammo, INITIAL_MISSILE_AMMO - 1);
    assert_eq!(s.bullets.len(), 1);
    assert_eq!(s.bullets[0].object_type, GameObjectType::GuidedMissile);
    assert_eq!(s.bullets[0].target, Some(6));
    assert_eq!(s.bullets[0].pos, Vec2::new(512_000, 708_000));
}

#[test]
fn missile_launch_needs_enemy_and_ammo() {
    let mut s = MainState::new();
    assert!(!s.launch_missile());
    assert_eq!(s.missile_ammo, INITIAL_MISSILE_AMMO);
    s.enemies = vec![enemy(100_000, 100_000, 1)];
    s.missile_ammo = 0;
    assert!(!s.launch_missile());
    assert!(s.bullets.is_empty());
}

#[test]
fn missile_step_restarts_cooldown_even_without_launch() {
    let mut s = MainState::new();
    assert!(!s.missile_step(true, FRAME));
    assert_eq!(s.missile_cooldown, MISSILE_COOLDOWN);
}

#[test]
fn collecting_missile_ammo_adds_three() {
    let mut s = MainState::new();
    s.missile_ammo = 2;
    let mut pickup = GameObject::new(512_000, 736_000, 20_000, 20_000, GameObjectType::MissileAmmo);
    pickup.pos.y = 736_000;
    s.ammo_items = vec![pickup];
    s.update(&idle());
    assert_eq!(s.missile_ammo, 5);
    assert!(s.ammo_items.is_empty());
    assert_eq!(s.particles.particles.len(), 10);
    for p in &s.particles.particles {
        assert_eq!(p.color, Color::new(0, 1000, 1000, 1000));
        assert_eq!(p.pos, Vec2::new(512_000, 738_000));
    }
}

#[test]
fn collecting_spread_ammo_enables_spread_shot() {
    let mut s = MainState::new();
    s.ammo_items = vec![GameObject::new(512_000, 736_000, 25_000, 25_000, GameObjectType::SpreadAmmo)];
    s.update(&idle());
    assert!(s.has_spread_shot);
    assert!(s.ammo_items.is_empty());
    assert_eq!(s.missile_ammo, INITIAL_MISSILE_AMMO);
    assert_eq!(s.particles.particles[0].color, Color::new(1000, 500, 0, 1000));
}

#[test]
fn touching_an_enemy_ends_the_game_until_restart() {
    let mut s = MainState::new();
    s.enemies = vec![enemy(512_000, 730_000, 1)];
    s.update(&idle());
    assert!(s.game_over);
    for _ in 0..10 {
        s.update(&idle());
        assert!(s.game_over);
    }
    let mut restart = idle();
    restart.fire = true;
    s.update(&restart);
    assert!(!s.game_over);
    assert_eq!(s.score, 0);
    assert!(s.enemies.is_empty());
    assert_eq!(s.missile_ammo, INITIAL_MISSILE_AMMO);
}

#[test]
fn bullet_hit_scores_ten_and_missile_hit_twenty() {
    let mut s = MainState::new();
    s.enemies = vec![enemy(300_000, 300_000, 1), enemy(700_000, 300_000, 2)];
    let bullet = GameObject::new(300_000, 300_000, 5_000, 20_000, GameObjectType::Bullet);
    let mut missile = GameObject::new(700_000, 300_000, 8_000, 24_000, GameObjectType::GuidedMissile);
    missile.target = Some(2);
    s.bullets = vec![bullet, missile];
    let (hit, owner) = s.resolve_bullet_hits();
    assert_eq!(hit, vec![Some(0), Some(1)]);
    assert_eq!(owner, vec![Some(0), Some(1)]);
    assert_eq!(s.score, 30);
    assert!(s.bullets.is_empty());
    assert!(s.enemies.is_empty());
    assert_eq!(s.particles.particles.len(), 20);
    assert_eq!(s.particles.particles[0].pos, Vec2::new(300_000, 300_000));
}

#[test]
fn pause_toggles_on_key_down_only() {
    let mut s = MainState::new();
    s.spawn_enemy_at(500_000);
    let mut p = idle();
    p.pause = true;
    s.update(&p);
    assert!(s.paused);
    let frozen = s.enemies[0].pos;
    s.update(&p);
    assert!(s.paused);
    assert_eq!(s.enemies[0].pos, frozen);
    s.update(&idle());
    assert!(s.paused);
    s.update(&p);
    assert!(!s.paused);
    assert_eq!(s.enemies[0].pos.y, frozen.y + 2_000);
}

#[test]
fn player_is_clamped_inside_the_field() {
    let mut s = MainState::new();
    let mut input = idle();
    input.down = true;
    input.right = true;
    for _ in 0..200 {
        s.enemies.clear();
        s.update(&input);
    }
    assert_eq!(s.player.pos, Vec2::new(1_024_000 - 25_000, 768_000 - 30_000));
    input.down = false;
    input.right = false;
    input.left = true;
    input.up = true;
    for _ in 0..300 {
        s.enemies.clear();
        s.update(&input);
    }
    assert_eq!(s.player.pos, Vec2::new(25_000, 30_000));
}

#[test]
fn bullets_leave_through_the_top() {
    let mut s = MainState::new();
    s.bullets = vec![GameObject::new(500_000, 10_000, 5_000, 20_000, GameObjectType::Bullet)];
    s.update(&idle());
    assert_eq!(s.bullets[0].pos.y, 2_000);
    s.update(&idle());
    assert_eq!(s.bullets[0].pos.y, -6_000);
    s.update(&idle());
    assert_eq!(s.bullets[0].pos.y, -14_000);
    s.update(&idle());
    assert!(s.bullets.is_empty());
}

#[test]
fn resize_rescales_speeds() {
    let mut s = MainState::new();
    s.resize_event(2048, 1536);
    s.spawn_enemy_at(500_000);
    s.update(&idle());
    assert_eq!(s.enemies[0].pos.y, -46_000);
}

#[test]
fn random_spawns_land_inside_the_field() {
    let mut s = MainState::new();
    for _ in 0..50 {
        s.spawn_enemy();
        s.spawn_missile_ammo();
        s.spawn_spread_ammo();
    }
    for e in &s.enemies {
        assert!(0 <= e.pos.x && e.pos.x < 984_000);
        assert_eq!(e.pos.y, -50_000);
    }
    for a in &s.ammo_items {
        assert!(0 <= a.pos.x && a.pos.x < 1_004_000);
        assert_eq!(a.pos.y, -30_000);
    }
    let ids: Vec<u64> = s.enemies.iter().map(|e| e.id).collect();
    assert_eq!(ids, (0..50).collect::<Vec<u64>>());
}

#[test]
fn enemy_descends_by_speed_times_elapsed_time() {
    let mut s = MainState::new();
    s.spawn_enemy_at(500_000);
    let mut second = idle();
    second.dt = 1_000_000;
    s.update(&second);
    // 120 px per second at the reference size.
    assert_eq!(s.enemies[0].pos, Vec2::new(500_000, -50_000 + 120_000));
    let mut half = idle();
    half.dt = 500_000;
    s.update(&half);
    assert_eq!(s.enemies[0].pos.y, 70_000 + 60_000);
}

#[test]
fn enemy_reaching_the_bottom_is_removed() {
    let mut s = MainState::new();
    s.player.pos = Vec2::new(100_000, 300_000);
    s.enemies = vec![enemy(500_000, 767_000, 0)];
    s.next_enemy_id = 1;
    s.update(&idle());
    assert!(s.enemies.is_empty());
    assert!(!s.game_over);
}

#[test]
fn pause_key_is_ignored_during_game_over() {
    let mut s = MainState::new();
    s.game_over = true;
    let mut p = idle();
    p.pause = true;
    s.update(&p);
    assert!(!s.paused);
    assert!(!s.p_key_pressed);
    assert!(s.game_over);
}

#[test]
fn nothing_ages_during_game_over() {
    let mut s = MainState::new();
    s.shoot();
    s.game_over = true;
    s.shoot_cooldown = 100_000;
    let before = s.particles.particles.clone();
    let mut long = idle();
    long.dt = 10_000_000;
    s.update(&long);
    assert_eq!(s.particles.particles, before);
    assert_eq!(s.shoot_cooldown, 100_000);
    assert_eq!(s.spawn_timer, 0);
    assert!(s.enemies.is_empty());
}

#[test]
fn spawn_timer_restarts_after_one_second() {
    let mut s = MainState::new();
    s.spawn_timer = 990_000;
    s.update(&idle());
    assert_eq!(s.enemies.len(), 1);
    assert_eq!(s.spawn_timer, 0);
    assert_eq!(s.next_enemy_id, 1);
    s.update(&idle());
    assert_eq!(s.spawn_timer, FRAME);
}

#[test]
fn running_frame_fires_when_cooldown_runs_out() {
    let mut s = MainState::new();
    s.shoot_cooldown = FRAME;
    let mut fire = idle();
    fire.fire = true;
    let ev = s.update(&fire);
    assert!(ev.shoot_sound);
    assert_eq!(s.bullets.len(), 1);
    assert_eq!(s.shoot_cooldown, SHOOT_COOLDOWN);
    let ev = s.update(&fire);
    assert!(!ev.shoot_sound);
    assert_eq!(s.bullets.len(), 1);
    assert_eq!(s.shoot_cooldown, SHOOT_COOLDOWN - FRAME);
}

#[test]
fn running_frame_scores_a_hit() {
    let mut s = MainState::new();
    s.enemies = vec![enemy(300_000, 300_000, 0)];
    s.next_enemy_id = 1;
    s.bullets = vec![GameObject::new(300_000, 310_000, 5_000, 20_000, GameObjectType::Bullet)];
    let ev = s.update(&idle());
    assert!(ev.explosion_sound);
    assert_eq!(s.score, 10);
    assert!(s.bullets.is_empty() && s.enemies.is_empty());
}
