use particle_system::particle::{Particle, DEFAULT_DECAY_RATE, DEFAULT_RADIUS};
use particle_system::system::{
    ParticleSystem, TickError, DEFAULT_EMIT_INTERVAL, DEFAULT_GRAVITY_Y, LAUNCH_SPREAD_X,
    LAUNCH_VELOCITY_Y,
};
use particle_system::vector::Vector;

fn scenario_system() -> ParticleSystem {
    ParticleSystem::new()
        .with_gravity(Vector::new(0, 100))
        .with_emit_interval(500)
        .with_position(Vector::new(300_000_000, 300_000_000))
}

#[test]
fn new_particle_has_defaults() {
    let p = Particle::new();
    assert_eq!(p.position(), Vector::new(0, 0));
    assert_eq!(p.velocity(), Vector::new(0, 0));
    assert_eq!(p.radius(), 8_000_000);
    assert_eq!(p.decay_rate(), 2_000);
    assert_eq!(DEFAULT_RADIUS, 8_000_000);
    assert_eq!(DEFAULT_DECAY_RATE, 2_000);
    assert!(p.is_alive());
}

#[test]
fn particle_builders_set_one_field_each() {
    let p = Particle::new()
        .with_position(Vector::new(1, 2))
        .with_velocity(Vector::new(3, 4))
        .with_radius(5)
        .with_decay_rate(6);
    assert_eq!(p.position(), Vector::new(1, 2));
    assert_eq!(p.velocity(), Vector::new(3, 4));
    assert_eq!(p.radius(), 5);
    assert_eq!(p.decay_rate(), 6);
    assert!(!Particle::new().with_radius(0).is_alive());
}

#[test]
fn new_system_has_defaults() {
    let s = ParticleSystem::new();
    assert_eq!(s.position(), Vector::new(0, 0));
    assert_eq!(s.gravity(), Vector::new(0, DEFAULT_GRAVITY_Y));
    assert_eq!(s.gravity(), Vector::new(0, 100));
    assert_eq!(s.emit_interval(), DEFAULT_EMIT_INTERVAL);
    assert_eq!(s.interval_timer(), DEFAULT_EMIT_INTERVAL as i64);
    assert!(s.particles().is_empty());
}

#[test]
fn system_builders_set_one_field_each() {
    let s = scenario_system().with_particles(vec![Particle::new()]);
    assert_eq!(s.gravity(), Vector::new(0, 100));
    assert_eq!(s.emit_interval(), 500);
    assert_eq!(s.position(), Vector::new(300_000_000, 300_000_000));
    assert_eq!(s.interval_timer(), 50);
    assert_eq!(s.particles(), &vec![Particle::new()]);
}

#[test]
fn advance_integrates_velocity_before_position() {
    let p = Particle::new()
        .with_position(Vector::new(10, 20))
        .with_velocity(Vector::new(1, -2));
    let q = p.advance(Vector::new(3, 5), 10).unwrap();
    assert_eq!(q.velocity(), Vector::new(31, 48));
    assert_eq!(q.position(), Vector::new(320, 500));
    assert_eq!(q.radius(), 8_000_000 - 20_000);
    assert_eq!(q.decay_rate(), 2_000);
}

#[test]
fn advance_reports_overflow() {
    let p = Particle::new()
        .with_position(Vector::new(i64::MAX - 5, 0))
        .with_velocity(Vector::new(1, 0));
    assert_eq!(p.advance(Vector::new(0, 0), 10), None);
    assert_eq!(p.advance(Vector::new(0, 0), 5).unwrap().position(), Vector::new(i64::MAX, 0));
}

#[test]
fn spawn_happens_before_integration_with_chosen_speed() {
    let mut s = scenario_system();
    assert_eq!(s.tick_with(500, 50_000), Ok(()));
    assert_eq!(s.particles().len(), 1);
    let p = s.particles()[0];
    assert_eq!(p.velocity(), Vector::new(50_000, -150_000));
    assert_eq!(p.position(), Vector::new(325_000_000, 225_000_000));
    assert_eq!(p.radius(), 7_000_000);
    assert_eq!(s.interval_timer(), 500);
}

#[test]
fn spawn_happens_before_integration_with_random_speed() {
    let mut s = scenario_system();
    assert_eq!(s.tick(500), Ok(()));
    assert_eq!(s.particles().len(), 1);
    let p = s.particles()[0];
    let vx = p.velocity().x;
    assert!(-50_000 <= vx && vx <= 50_000);
    assert_eq!(p.velocity().y, LAUNCH_VELOCITY_Y + 100 * 500);
    assert_eq!(p.velocity().y, -150_000);
    assert_eq!(p.position(), Vector::new(300_000_000 + vx * 500, 225_000_000));
}

#[test]
fn random_launch_speeds_vary_within_spread() {
    let mut s = ParticleSystem::new().with_emit_interval(0).with_gravity(Vector::new(0, 0));
    for _ in 0..20 {
        assert_eq!(s.tick(100), Ok(()));
    }
    let speeds: Vec<i64> = s.particles().iter().map(|p| p.velocity().x).collect();
    assert_eq!(speeds.len(), 20);
    assert!(speeds.iter().all(|v| -LAUNCH_SPREAD_X <= *v && *v <= LAUNCH_SPREAD_X));
    assert!(speeds.iter().any(|v| *v != speeds[0]));
}

#[test]
fn particle_dies_in_the_tick_its_radius_reaches_zero() {
    let mut s = ParticleSystem::new().with_particles(vec![Particle::new()
        .with_radius(8_000_000)
        .with_decay_rate(2_000)]);
    assert_eq!(s.tick_with(4_000, 0), Ok(()));
    assert!(s.particles().is_empty());
    let q = Particle::new().advance(Vector::new(0, 0), 4_000).unwrap();
    assert_eq!(q.radius(), 0);
}

#[test]
fn dead_particles_are_removed_and_order_kept() {
    let a = Particle::new().with_radius(10_000).with_position(Vector::new(1, 0));
    let b = Particle::new().with_radius(1_000).with_position(Vector::new(2, 0));
    let c = Particle::new().with_radius(30_000).with_position(Vector::new(3, 0));
    let mut s = ParticleSystem::new()
        .with_gravity(Vector::new(0, 0))
        .with_particles(vec![a, b, c]);
    assert_eq!(s.tick_with(1, 0), Ok(()));
    let radii: Vec<i64> = s.particles().iter().map(|p| p.radius()).collect();
    assert_eq!(radii, vec![8_000, 28_000]);
    assert_eq!(s.particles()[0].position().x, 1);
    assert_eq!(s.particles()[1].position().x, 3);
    assert!(s.particles().iter().all(|p| p.radius() > 0));
}

#[test]
fn radius_never_grows_over_ticks() {
    let mut s = ParticleSystem::new()
        .with_emit_interval(1_000_000)
        .with_particles(vec![Particle::new().with_decay_rate(3)]);
    let mut last = s.particles()[0].radius();
    for delta in [0i64, 7, 0, 13, 1, 40] {
        assert_eq!(s.tick_with(delta, 0), Ok(()));
        let r = s.particles()[0].radius();
        assert!(r <= last);
        last = r;
    }
    assert_eq!(last, 8_000_000 - 3 * 61);
}

#[test]
fn spawn_cadence_from_mid_countdown() {
    let mut s = ParticleSystem::new().with_gravity(Vector::new(0, 0));
    assert_eq!(s.tick_with(5, 0), Ok(()));
    assert_eq!(s.interval_timer(), 45);
    assert!(s.particles().is_empty());
    for _ in 0..5 {
        assert_eq!(s.tick_with(10, 0), Ok(()));
    }
    assert_eq!(s.particles().len(), 1);
    assert_eq!(s.interval_timer(), 50);
}

#[test]
fn spawn_cadence_from_full_countdown() {
    let mut s = ParticleSystem::new().with_gravity(Vector::new(0, 0));
    for _ in 0..5 {
        assert_eq!(s.tick_with(10, 0), Ok(()));
    }
    assert_eq!(s.interval_timer(), 0);
    assert!(s.particles().is_empty());
    assert_eq!(s.tick_with(10, 0), Ok(()));
    assert_eq!(s.particles().len(), 1);
    for _ in 0..5 {
        assert_eq!(s.tick_with(10, 0), Ok(()));
    }
    assert_eq!(s.particles().len(), 1);
}

#[test]
fn one_spawn_at_most_per_tick() {
    let mut s = ParticleSystem::new()
        .with_gravity(Vector::new(0, 0))
        .with_particles(vec![Particle::new().with_decay_rate(0)]);
    assert_eq!(s.tick_with(1_000, 0), Ok(()));
    assert_eq!(s.particles().len(), 2);
    assert_eq!(s.interval_timer(), 50);
    assert_eq!(s.particles()[1].radius(), 6_000_000);
}

#[test]
fn integration_without_gravity_is_exact() {
    let p = Particle::new()
        .with_position(Vector::new(10, 20))
        .with_velocity(Vector::new(3_000, -2_000));
    let mut s = ParticleSystem::new()
        .with_gravity(Vector::new(0, 0))
        .with_particles(vec![p]);
    assert_eq!(s.tick_with(7, 0), Ok(()));
    let q = s.particles()[0];
    assert_eq!(q.position(), Vector::new(10 + 3_000 * 7, 20 - 2_000 * 7));
    assert_eq!(q.velocity(), Vector::new(3_000, -2_000));
}

#[test]
fn zero_delta_changes_nothing() {
    let p = Particle::new()
        .with_position(Vector::new(10, 20))
        .with_velocity(Vector::new(3, 4));
    let mut s = ParticleSystem::new().with_particles(vec![p]);
    assert_eq!(s.tick(0), Ok(()));
    assert_eq!(s.particles(), &vec![p]);
    assert_eq!(s.interval_timer(), 50);
}

#[test]
fn zero_delta_with_empty_countdown_does_not_spawn() {
    let mut s = ParticleSystem::new().with_emit_interval(0);
    assert_eq!(s.tick_with(60, 0), Ok(()));
    assert_eq!(s.particles().len(), 1);
    assert_eq!(s.interval_timer(), 0);
    assert_eq!(s.tick_with(0, 0), Ok(()));
    assert_eq!(s.particles().len(), 1);
}

#[test]
fn negative_delta_only_winds_the_countdown_back() {
    let p = Particle::new().with_velocity(Vector::new(3, 4));
    let mut s = ParticleSystem::new().with_particles(vec![p]);
    assert_eq!(s.tick_with(-20, 0), Ok(()));
    assert_eq!(s.particles(), &vec![p]);
    assert_eq!(s.interval_timer(), 70);
}

#[test]
fn out_of_range_tick_changes_nothing() {
    let p = Particle::new()
        .with_position(Vector::new(i64::MAX - 5, 0))
        .with_velocity(Vector::new(1_000, 0));
    let mut s = ParticleSystem::new()
        .with_gravity(Vector::new(0, 0))
        .with_particles(vec![p]);
    assert_eq!(s.tick_with(10, 0), Err(TickError::OutOfRange));
    assert_eq!(s.particles(), &vec![p]);
    assert_eq!(s.interval_timer(), 50);
}

#[test]
fn out_of_range_countdown_is_refused() {
    let mut s = ParticleSystem::new();
    assert_eq!(s.tick_with(i64::MIN, 0), Err(TickError::OutOfRange));
    assert_eq!(s.interval_timer(), 50);
}
