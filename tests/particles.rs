use vertical_shooter::geometry::{Vec2, WindowSize};
use vertical_shooter::particles::{
    Color, Particle, ParticleSystem, EXPLOSION_PARTICLES, MAX_PARTICLES, PARTICLE_LIFETIME,
};

fn cyan() -> Color {
    Color::new(0, 1000, 1000, 1000)
}

#[test]
fn burst_adds_ten_particles_at_the_spot() {
    let w = WindowSize::new(1024, 768);
    let mut ps = ParticleSystem::new();
    let pos = Vec2::new(100_000, 200_000);
    ps.add_explosion(pos, cyan(), &w);
    assert_eq!(ps.particles.len(), EXPLOSION_PARTICLES);
    for p in &ps.particles {
        assert_eq!(p.pos, pos);
        assert_eq!(p.color, cyan());
        assert_eq!(p.lifetime, PARTICLE_LIFETIME);
        // Base size 2 px, drawn from [1 px, 3 px).
        assert!(1_000 <= p.size && p.size < 3_000);
        // Base speed 50 px/s, drawn from [25, 50) px/s: no component exceeds it.
        assert!(p.vel.x.abs() < 50_000 && p.vel.y.abs() < 50_000);
        assert!(p.vel.x != 0 || p.vel.y != 0);
    }
}

#[test]
fn burst_is_truncated_at_the_cap() {
    let w = WindowSize::new(1024, 768);
    let mut ps = ParticleSystem::new();
    let template = Particle::new(Vec2::new(0, 0), Vec2::new(0, 0), cyan(), 1000);
    for _ in 0..995 {
        ps.particles.push(template);
    }
    ps.add_explosion(Vec2::new(1, 2), cyan(), &w);
    assert_eq!(ps.particles.len(), MAX_PARTICLES);
    assert_eq!(ps.particles[994], template);
    assert_eq!(ps.particles[995].pos, Vec2::new(1, 2));
    ps.add_explosion(Vec2::new(1, 2), cyan(), &w);
    assert_eq!(ps.particles.len(), MAX_PARTICLES);
}

#[test]
fn pool_never_exceeds_cap_over_many_bursts() {
    let w = WindowSize::new(1024, 768);
    let mut ps = ParticleSystem::new();
    for k in 0..150 {
        ps.add_explosion(Vec2::new(k, k), cyan(), &w);
        assert!(ps.particles.len() <= MAX_PARTICLES);
    }
    assert_eq!(ps.particles.len(), MAX_PARTICLES);
}

#[test]
fn particle_moves_fades_and_shrinks() {
    let mut p = Particle::new(Vec2::new(0, 0), Vec2::new(40_000, -20_000), cyan(), 2_000);
    p.update(250_000);
    assert_eq!(p.pos, Vec2::new(10_000, -5_000));
    assert_eq!(p.lifetime, 250_000);
    assert_eq!(p.color.a, 500);
    assert_eq!(p.size, 1_000);
}

#[test]
fn particle_size_never_shrinks_below_a_tenth_per_step() {
    let mut p = Particle::new(Vec2::new(0, 0), Vec2::new(0, 0), cyan(), 2_000);
    p.update(475_000);
    assert_eq!(p.lifetime, 25_000);
    assert_eq!(p.color.a, 50);
    assert_eq!(p.size, 200);
}

#[test]
fn expired_particles_are_dropped() {
    let mut ps = ParticleSystem::new();
    let young = Particle::new(Vec2::new(0, 0), Vec2::new(0, 0), cyan(), 1_000);
    let mut old = young;
    old.lifetime = 100_000;
    ps.particles.push(old);
    ps.particles.push(young);
    ps.update(100_000);
    assert_eq!(ps.particles.len(), 1);
    assert_eq!(ps.particles[0].lifetime, 400_000);
}

#[test]
fn lifetime_keeps_falling_after_expiry() {
    let mut p = Particle::new(Vec2::new(0, 0), Vec2::new(0, 0), cyan(), 2_000);
    p.lifetime = 0;
    p.update(10_000);
    assert_eq!(p.lifetime, -10_000);
    assert_eq!(p.color.a, 0);
    assert_eq!(p.size, 200);
}
