use particlez::emitter::{EmitShape, Emitter, EmitterOptions};
use particlez::particle::Particle;
use particlez::sampler::RangedOption;
use particlez::vec2::Vec2Milli;

fn base_opts() -> EmitterOptions {
    EmitterOptions {
        particle_count: 0,
        spawn_interval_ms: RangedOption::Unset,
        shape: EmitShape::Point,
        emit_angle: RangedOption::Unset,
        emit_velocity: RangedOption::Unset,
        start_size: RangedOption::Unset,
        end_size: RangedOption::Unset,
        lifetime_ms: RangedOption::Unset,
        drag_coefficient: RangedOption::Unset,
        gravity: 0,
        start_color: 0xFF8700,
        start_color_variation: 0,
        end_color: 0,
        end_color_variation: 0,
    }
}

#[test]
fn burst_emits_the_whole_budget_at_once() {
    let opts = EmitterOptions {
        particle_count: 5,
        ..base_opts()
    };
    let mut e = Emitter::new(Vec2Milli { x: 1000, y: 2000 }, &opts);
    let mut particles: Vec<Particle> = Vec::new();
    let active = e.update(16, &mut particles);
    assert_eq!(particles.len(), 5);
    assert!(!active);
    assert_eq!(e.remaining_particle_count, 0);
}

#[test]
fn empty_burst_is_exhausted_immediately() {
    let mut e = Emitter::new(Vec2Milli { x: 0, y: 0 }, &base_opts());
    let mut particles: Vec<Particle> = Vec::new();
    assert!(!e.update(16, &mut particles));
    assert_eq!(particles.len(), 0);
}

#[test]
fn stream_emits_one_particle_per_interval_crossed() {
    let opts = EmitterOptions {
        spawn_interval_ms: RangedOption::FixedValue(10),
        ..base_opts()
    };
    let mut e = Emitter::new(Vec2Milli { x: 0, y: 0 }, &opts);
    let mut particles: Vec<Particle> = Vec::new();
    let active = e.update(35, &mut particles);
    assert_eq!(particles.len(), 3);
    assert!(active);
    // the leftover five milliseconds stay accumulated
    assert_eq!(e.spawn_accum_ms, 5);
    assert!(e.update(5, &mut particles));
    assert_eq!(particles.len(), 4);
    assert_eq!(e.spawn_accum_ms, 0);
}

#[test]
fn stream_with_finite_budget_exhausts() {
    let opts = EmitterOptions {
        particle_count: 2,
        spawn_interval_ms: RangedOption::FixedValue(10),
        ..base_opts()
    };
    let mut e = Emitter::new(Vec2Milli { x: 0, y: 0 }, &opts);
    let mut particles: Vec<Particle> = Vec::new();
    let active = e.update(100, &mut particles);
    assert_eq!(particles.len(), 2);
    assert!(!active);
    assert_eq!(e.remaining_particle_count, 0);
}

#[test]
fn zero_variation_keeps_the_base_colors_exactly() {
    let opts = EmitterOptions {
        particle_count: 10,
        start_color_variation: 0,
        end_color_variation: 0,
        ..base_opts()
    };
    let mut e = Emitter::new(Vec2Milli { x: 0, y: 0 }, &opts);
    let mut particles: Vec<Particle> = Vec::new();
    e.update(16, &mut particles);
    assert_eq!(particles.len(), 10);
    for p in &particles {
        assert_eq!(p.options.start_color, 0xFF8700);
        assert_eq!(p.color, 0xFF8700);
        assert_eq!(p.options.end_color, 0);
    }
}

#[test]
fn emitted_particles_spawn_at_the_emitter() {
    let opts = EmitterOptions {
        particle_count: 3,
        ..base_opts()
    };
    let mut e = Emitter::new(Vec2Milli { x: 4000, y: 9000 }, &opts);
    let mut particles: Vec<Particle> = Vec::new();
    e.update(16, &mut particles);
    for p in &particles {
        assert_eq!(p.position, Vec2Milli { x: 4000, y: 9000 });
        assert_eq!(p.age(), 0);
        assert_eq!(p.gravity_force, 0);
    }
}

#[test]
fn fixed_fields_resolve_exactly() {
    let opts = EmitterOptions {
        particle_count: 1,
        start_size: RangedOption::FixedValue(2),
        end_size: RangedOption::FixedValue(1),
        lifetime_ms: RangedOption::FixedValue(750),
        drag_coefficient: RangedOption::FixedValue(300),
        gravity: 250_000,
        ..base_opts()
    };
    let mut e = Emitter::new(Vec2Milli { x: 0, y: 0 }, &opts);
    let mut particles: Vec<Particle> = Vec::new();
    e.update(16, &mut particles);
    let p = &particles[0];
    assert_eq!(p.size, 2);
    assert_eq!(p.options.start_size, 2);
    assert_eq!(p.options.end_size, 1);
    assert_eq!(p.options.lifetime_ms, 750);
    assert_eq!(p.options.drag_coefficient, 300);
    assert_eq!(p.options.gravity, 250_000);
}

#[test]
fn sampled_fields_stay_within_their_ranges() {
    let opts = EmitterOptions {
        particle_count: 50,
        start_size: RangedOption::BoundedRange(1, 2),
        lifetime_ms: RangedOption::BoundedRange(500, 1000),
        emit_velocity: RangedOption::BoundedRange(50_000, 200_000),
        emit_angle: RangedOption::BoundedRange(0, 360_000),
        ..base_opts()
    };
    let mut e = Emitter::new(Vec2Milli { x: 0, y: 0 }, &opts);
    let mut particles: Vec<Particle> = Vec::new();
    e.update(16, &mut particles);
    assert_eq!(particles.len(), 50);
    for p in &particles {
        assert!((1..=2).contains(&p.options.start_size));
        assert!((500..=1000).contains(&p.options.lifetime_ms));
        // the speed bounds the velocity components
        assert!(p.options.velocity.x.abs() <= 200_000);
        assert!(p.options.velocity.y.abs() <= 200_000);
    }
}

#[test]
fn angle_zero_shoots_straight_up() {
    let opts = EmitterOptions {
        particle_count: 1,
        emit_angle: RangedOption::FixedValue(0),
        emit_velocity: RangedOption::FixedValue(1000),
        ..base_opts()
    };
    let mut e = Emitter::new(Vec2Milli { x: 0, y: 0 }, &opts);
    let mut particles: Vec<Particle> = Vec::new();
    e.update(16, &mut particles);
    assert_eq!(particles[0].options.velocity, Vec2Milli { x: 0, y: -1000 });
}

#[test]
fn angle_ninety_shoots_right() {
    let opts = EmitterOptions {
        particle_count: 1,
        emit_angle: RangedOption::FixedValue(90_000),
        emit_velocity: RangedOption::FixedValue(1000),
        ..base_opts()
    };
    let mut e = Emitter::new(Vec2Milli { x: 0, y: 0 }, &opts);
    let mut particles: Vec<Particle> = Vec::new();
    e.update(16, &mut particles);
    assert_eq!(particles[0].options.velocity, Vec2Milli { x: 1000, y: 0 });
}

#[test]
fn nonzero_variation_jitters_but_zero_never_draws() {
    let opts = EmitterOptions {
        particle_count: 40,
        start_color_variation: 120_000,
        ..base_opts()
    };
    let mut e = Emitter::new(Vec2Milli { x: 0, y: 0 }, &opts);
    let mut particles: Vec<Particle> = Vec::new();
    e.update(16, &mut particles);
    // with a third of a turn of jitter, at least one of forty draws must
    // land away from the base color
    assert!(particles.iter().any(|p| p.options.start_color != 0xFF8700));
    // the unjittered end color stays exact on every particle
    assert!(particles.iter().all(|p| p.options.end_color == 0));
}

#[test]
fn unbounded_stream_stays_active() {
    let opts = EmitterOptions {
        spawn_interval_ms: RangedOption::BoundedRange(1, 50),
        ..base_opts()
    };
    let mut e = Emitter::new(Vec2Milli { x: 0, y: 0 }, &opts);
    let mut particles: Vec<Particle> = Vec::new();
    for _ in 0..20 {
        assert!(e.update(16, &mut particles));
    }
    assert!(!particles.is_empty());
}
