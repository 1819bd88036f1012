use particlez::particle::{Particle, ParticleOptions};
use particlez::vec2::Vec2Milli;

fn still_opts() -> ParticleOptions {
    ParticleOptions {
        lifetime_ms: 1000,
        drag_coefficient: 0,
        velocity: Vec2Milli { x: 0, y: 0 },
        start_size: 1,
        end_size: 0,
        start_color: 0xFF0000,
        end_color: 0,
        gravity: 0,
    }
}

#[test]
fn new_copies_the_template() {
    let opts = still_opts();
    let p = Particle::new(Vec2Milli { x: 5000, y: 7000 }, &opts);
    assert_eq!(p.position, Vec2Milli { x: 5000, y: 7000 });
    assert_eq!(p.size, 1);
    assert_eq!(p.color, 0xFF0000);
    assert_eq!(p.gravity_force, 0);
    assert_eq!(p.age(), 0);
}

#[test]
fn alive_just_under_lifetime_dead_just_over() {
    let opts = still_opts();
    let mut p = Particle::new(Vec2Milli { x: 0, y: 0 }, &opts);
    assert!(p.update(999, 100, 100));
    assert_eq!(p.age(), 999);
    assert!(!p.update(2, 100, 100));
    assert_eq!(p.age(), 1001);
}

#[test]
fn gravity_accumulates_and_integrates() {
    let opts = ParticleOptions {
        gravity: 100_000, // one hundred pixels per second squared
        ..still_opts()
    };
    let mut p = Particle::new(Vec2Milli { x: 0, y: 0 }, &opts);
    // three steps of a tenth of a second each
    assert!(p.update(100, 100, 100));
    assert_eq!(p.gravity_force, 10_000);
    assert_eq!(p.position.y, 1_000);
    assert!(p.update(100, 100, 100));
    assert_eq!(p.gravity_force, 20_000);
    assert_eq!(p.position.y, 3_000);
    assert!(p.update(100, 100, 100));
    assert_eq!(p.gravity_force, 30_000);
    assert_eq!(p.position.y, 6_000);
}

#[test]
fn drag_decays_velocity() {
    let opts = ParticleOptions {
        drag_coefficient: 500, // half per second
        velocity: Vec2Milli { x: 10_000, y: 0 },
        ..still_opts()
    };
    let mut p = Particle::new(Vec2Milli { x: 0, y: 0 }, &opts);
    assert!(p.update(1000, 1000, 1000));
    assert_eq!(p.velocity.x, 5_000);
    // the whole second of travel happens at the already-decayed speed
    assert_eq!(p.position.x, 5_000);
}

#[test]
fn velocity_moves_the_position() {
    let opts = ParticleOptions {
        velocity: Vec2Milli { x: 2_000, y: -1_000 },
        lifetime_ms: 10_000,
        ..still_opts()
    };
    let mut p = Particle::new(Vec2Milli { x: 50_000, y: 50_000 }, &opts);
    assert!(p.update(500, 100, 100));
    assert_eq!(p.position.x, 51_000);
    assert_eq!(p.position.y, 49_500);
}

#[test]
fn out_of_bounds_is_dead_and_unchanged() {
    let opts = still_opts();
    let mut p = Particle::new(Vec2Milli { x: -1, y: 0 }, &opts);
    assert!(!p.update(10, 100, 100));
    assert_eq!(p.age(), 0);
    assert_eq!(p.position, Vec2Milli { x: -1, y: 0 });

    let mut q = Particle::new(Vec2Milli { x: 0, y: 100_001 }, &opts);
    assert!(!q.update(10, 100, 100));
    // the surface is half-open: the lower-right edge itself is outside
    let mut r = Particle::new(Vec2Milli { x: 100_000, y: 100_000 }, &opts);
    assert!(!r.update(10, 100, 100));
    // but one thousandth inside it is alive
    let mut s = Particle::new(Vec2Milli { x: 99_999, y: 99_999 }, &opts);
    assert!(s.update(10, 100, 100));
}

#[test]
fn color_follows_the_age_ratio() {
    let opts = still_opts();
    let mut p = Particle::new(Vec2Milli { x: 0, y: 0 }, &opts);
    assert!(p.update(100, 100, 100));
    // a tenth of the way from full red toward black
    assert_eq!(p.color, 0xE50000);
    assert!(p.update(900, 100, 100));
    // at the very end of its life the color reaches the end color
    assert_eq!(p.color, 0x000000);
}

#[test]
fn size_never_animates() {
    let opts = ParticleOptions {
        start_size: 3,
        end_size: 0,
        ..still_opts()
    };
    let mut p = Particle::new(Vec2Milli { x: 0, y: 0 }, &opts);
    assert!(p.update(500, 100, 100));
    assert_eq!(p.size, 3);
}
