use vertical_shooter::angle::PI_MRAD;
use vertical_shooter::collision::{remove_marked, retain_by, scan_collisions, Retention};
use vertical_shooter::entity::{find_by_id, GameObject, GameObjectType};
use vertical_shooter::geometry::{Vec2, WindowSize};

fn at(kind: GameObjectType, x: i64, y: i64, w: i64, h: i64) -> GameObject {
    GameObject::new(x, y, w, h, kind)
}

#[test]
fn enemy_faces_down_and_others_up() {
    let e = at(GameObjectType::Enemy, 0, 0, 40_000, 40_000);
    let b = at(GameObjectType::Bullet, 0, 0, 5_000, 20_000);
    assert_eq!(e.rotation, PI_MRAD);
    assert_eq!(b.rotation, 0);
    assert_eq!(e.target, None);
}

#[test]
fn hit_radius_is_a_fraction_of_half_width() {
    assert_eq!(at(GameObjectType::Bullet, 0, 0, 5_000, 20_000).hit_radius(), 2_000);
    assert_eq!(at(GameObjectType::Enemy, 0, 0, 40_000, 40_000).hit_radius(), 9_000);
    assert_eq!(at(GameObjectType::Player, 0, 0, 50_000, 60_000).hit_radius(), 10_000);
    assert_eq!(at(GameObjectType::GuidedMissile, 0, 0, 8_000, 24_000).hit_radius(), 4_000);
    assert_eq!(at(GameObjectType::MissileAmmo, 0, 0, 20_000, 20_000).hit_radius(), 6_000);
}

#[test]
fn collision_is_symmetric_on_examples() {
    let w = WindowSize::new(1024, 768);
    let p = at(GameObjectType::Player, 500_000, 700_000, 50_000, 60_000);
    let near = at(GameObjectType::Enemy, 510_000, 710_000, 40_000, 40_000);
    let far = at(GameObjectType::Enemy, 600_000, 700_000, 40_000, 40_000);
    assert!(p.intersects(&near, &w));
    assert!(near.intersects(&p, &w));
    assert!(!p.intersects(&far, &w));
    assert!(!far.intersects(&p, &w));
}

#[test]
fn collision_needs_distance_below_radius_sum() {
    let w = WindowSize::new(1024, 768);
    // Radii 10 px and 9 px: centres 19 px apart do not collide, 18.999 px apart do.
    let p = at(GameObjectType::Player, 0, 0, 50_000, 60_000);
    let touching = at(GameObjectType::Enemy, 19_000, 0, 40_000, 40_000);
    let overlapping = at(GameObjectType::Enemy, 18_999, 0, 40_000, 40_000);
    assert!(!p.intersects(&touching, &w));
    assert!(p.intersects(&overlapping, &w));
}

#[test]
fn guided_missile_turns_toward_its_target() {
    let w = WindowSize::new(1024, 768);
    let mut enemy = at(GameObjectType::Enemy, 600_000, 100_000, 40_000, 40_000);
    enemy.id = 7;
    let enemies = vec![enemy];
    let mut m = at(GameObjectType::GuidedMissile, 600_000, 500_000, 8_000, 24_000);
    m.target = Some(7);
    m.update_guided_missile(&enemies, &w);
    // The target is straight up (-PI/2 = -1571 mrad); a tenth of the error is -157.
    assert_eq!(m.rotation, -157);
    // Heading -157 mrad resolves to direction 70 (350 degrees).
    assert_eq!(m.speed, Vec2::new(3940, -696));
}

#[test]
fn missile_without_live_target_flies_on() {
    let w = WindowSize::new(1024, 768);
    let enemies = vec![];
    let mut m = at(GameObjectType::GuidedMissile, 600_000, 500_000, 8_000, 24_000);
    m.target = Some(3);
    m.speed = Vec2::new(0, -4000);
    let before = m;
    m.update_guided_missile(&enemies, &w);
    assert_eq!(m, before);
}

#[test]
fn find_by_id_returns_first_match() {
    let mut a = at(GameObjectType::Enemy, 0, 0, 1, 1);
    let mut b = a;
    let mut c = a;
    a.id = 1;
    b.id = 2;
    c.id = 2;
    let v = vec![a, b, c];
    assert_eq!(find_by_id(&v, 2), Some(1));
    assert_eq!(find_by_id(&v, 9), None);
}

#[test]
fn one_bullet_one_enemy_per_scan() {
    let w = WindowSize::new(1024, 768);
    let bullet = at(GameObjectType::Bullet, 500_000, 300_000, 5_000, 20_000);
    let e1 = at(GameObjectType::Enemy, 500_000, 300_000, 40_000, 40_000);
    let e2 = at(GameObjectType::Enemy, 501_000, 301_000, 40_000, 40_000);
    // One bullet overlapping two enemies destroys only the first.
    let (hit, owner) = scan_collisions(&vec![bullet], &vec![e1, e2], &w);
    assert_eq!(hit, vec![Some(0)]);
    assert_eq!(owner, vec![Some(0), None]);
    // Two bullets overlapping one enemy: only the first bullet is spent.
    let (hit, owner) = scan_collisions(&vec![bullet, bullet], &vec![e1], &w);
    assert_eq!(hit, vec![Some(0), None]);
    assert_eq!(owner, vec![Some(0)]);
    // Two bullets, two enemies, all overlapping: paired in order.
    let (hit, owner) = scan_collisions(&vec![bullet, bullet], &vec![e1, e2], &w);
    assert_eq!(hit, vec![Some(0), Some(1)]);
    assert_eq!(owner, vec![Some(0), Some(1)]);
}

#[test]
fn removal_keeps_order_of_survivors() {
    let a = at(GameObjectType::Enemy, 1, 0, 1, 1);
    let b = at(GameObjectType::Enemy, 2, 0, 1, 1);
    let c = at(GameObjectType::Enemy, 3, 0, 1, 1);
    let kept = remove_marked(&vec![a, b, c], &vec![None, Some(4), None]);
    assert_eq!(kept, vec![a, c]);
}

#[test]
fn retention_drops_what_left_the_field() {
    let inside = at(GameObjectType::Bullet, 500_000, 10_000, 5_000, 20_000);
    let above = at(GameObjectType::Bullet, 500_000, -20_000, 5_000, 20_000);
    let left = at(GameObjectType::SpreadShot, -6_000, 300_000, 5_000, 20_000);
    assert_eq!(retain_by(&vec![inside, above, left], Retention::InField), vec![inside]);
    let enemy_in = at(GameObjectType::Enemy, 0, 767_999, 40_000, 40_000);
    let enemy_out = at(GameObjectType::Enemy, 0, 768_000, 40_000, 40_000);
    assert_eq!(retain_by(&vec![enemy_in, enemy_out], Retention::AboveBottom), vec![enemy_in]);
}
