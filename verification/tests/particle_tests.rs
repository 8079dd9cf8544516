use particle_sim::fixed::{fx_div, fx_mul, SCALE};
use particle_sim::particle::{Particle, ParticleError, TRAIL_LIMIT};

fn live_particle(vx: i64, vy: i64, mass: i64, lifespan: i64, trail: bool) -> Particle {
    Particle::new(0, 0, vx, vy, mass, lifespan, (255, 0, 0), true, trail).unwrap()
}

#[test]
fn test_new_initial_state() {
    let p = Particle::new(7, -8, 9, -10, 2_000_000, 5_000_000, (1, 2, 3), true, true).unwrap();
    assert_eq!(p.x_position, 7);
    assert_eq!(p.y_position, -8);
    assert_eq!(p.x_velocity, 9);
    assert_eq!(p.y_velocity, -10);
    assert_eq!(p.mass, 2_000_000);
    assert_eq!(p.lifespan, 5_000_000);
    assert_eq!(p.age, 0);
    assert!(!p.isdead);
    assert_eq!(p.color, (1, 2, 3));
    assert!(p.position_history.is_empty());
}

#[test]
fn test_zero_mass_rejected_at_construction() {
    let r = Particle::new(0, 0, 0, 0, 0, 1_000_000, (0, 0, 0), true, true);
    assert_eq!(r.err(), Some(ParticleError::InvalidMass));
}

#[test]
fn test_zero_mass_rejected_by_update() {
    let mut p = live_particle(3, 4, 1_000_000, 10_000_000, true);
    p.mass = 0;
    let r = p.update(5_000_000, -9_810_000, 10_000);
    assert_eq!(r, Err(ParticleError::InvalidMass));
    assert_eq!(p.x_position, 0);
    assert_eq!(p.y_position, 0);
    assert_eq!(p.x_velocity, 3);
    assert_eq!(p.y_velocity, 4);
    assert_eq!(p.age, 0);
    assert!(!p.isdead);
    assert!(p.position_history.is_empty());
}

#[test]
fn test_zero_force_is_pure_translation() {
    // velocity (2.0, -3.0), dt 0.5s: position advances by (1.0, -1.5),
    // velocity stays.
    let mut p = live_particle(2_000_000, -3_000_000, 1_000_000, 100_000_000, false);
    p.update(0, 0, 500_000).unwrap();
    assert_eq!(p.x_velocity, 2_000_000);
    assert_eq!(p.y_velocity, -3_000_000);
    assert_eq!(p.x_position, 1_000_000);
    assert_eq!(p.y_position, -1_500_000);
}

#[test]
fn test_constant_force_velocity_grows_linearly() {
    // mass 2.0 under force (4.0, 0): acceleration 2.0; dt 0.1s gives a
    // velocity increment of 0.2 per step.
    let mut p = live_particle(0, 0, 2_000_000, 100_000_000, false);
    for k in 1..=7i64 {
        p.update(4_000_000, 0, 100_000).unwrap();
        assert_eq!(p.x_velocity, k * 200_000);
        assert_eq!(p.y_velocity, 0);
    }
}

#[test]
fn test_gravity_scenario() {
    // mass 1.0, force (0, -9.81), dt 0.01s, starting at rest at the origin.
    let mut p = live_particle(0, 0, 1_000_000, 20_000_000, true);
    p.update(0, -9_810_000, 10_000).unwrap();
    // After one step velocity is (0.00, -0.0981), about -0.10 at two
    // decimal places, and position is (0.00, -0.000981), about 0.00.
    assert_eq!(p.x_velocity, 0);
    assert_eq!(p.y_velocity, -98_100);
    assert_eq!(p.x_position, 0);
    assert_eq!(p.y_position, -981);
    for _ in 1..100 {
        p.update(0, -9_810_000, 10_000).unwrap();
    }
    // After 100 steps velocity is exactly (0, -9.81).
    assert_eq!(p.x_velocity, 0);
    assert_eq!(p.y_velocity, -9_810_000);
    assert!(!p.isdead);
}

#[test]
fn test_dead_particle_update_is_noop() {
    let mut p = live_particle(5, 6, 1_000_000, 30_000, true);
    p.update(1_000_000, 2_000_000, 10_000).unwrap();
    p.update(1_000_000, 2_000_000, 10_000).unwrap();
    p.update(1_000_000, 2_000_000, 10_000).unwrap();
    assert!(p.isdead);
    let x = p.x_position;
    let y = p.y_position;
    let vx = p.x_velocity;
    let vy = p.y_velocity;
    let age = p.age;
    let lifespan = p.lifespan;
    let history = p.position_history.clone();
    let r = p.update(-7_000_000, 9_000_000, 123_456);
    assert_eq!(r, Ok(()));
    assert_eq!(p.x_position, x);
    assert_eq!(p.y_position, y);
    assert_eq!(p.x_velocity, vx);
    assert_eq!(p.y_velocity, vy);
    assert_eq!(p.age, age);
    assert_eq!(p.lifespan, lifespan);
    assert_eq!(p.position_history, history);
    assert!(p.isdead);
}

#[test]
fn test_death_triggered_once_and_motion_skipped() {
    // lifespan 0.025s, dt 0.01s: two live steps, death on the third.
    let mut p = live_particle(1_000_000, 0, 1_000_000, 25_000, true);
    p.update(0, 0, 10_000).unwrap();
    assert!(!p.isdead);
    assert_eq!(p.age, 10_000);
    p.update(0, 0, 10_000).unwrap();
    assert!(!p.isdead);
    assert_eq!(p.age, 20_000);
    let x = p.x_position;
    let vx = p.x_velocity;
    let trail_len = p.position_history.len();
    p.update(0, 0, 10_000).unwrap();
    // The death step advances age only: no motion, no trail entry.
    assert!(p.isdead);
    assert_eq!(p.age, 30_000);
    assert_eq!(p.x_position, x);
    assert_eq!(p.x_velocity, vx);
    assert_eq!(p.position_history.len(), trail_len);
    // Death is permanent and later steps change nothing.
    p.update(0, 0, 10_000).unwrap();
    assert!(p.isdead);
    assert_eq!(p.age, 30_000);
    assert_eq!(p.x_position, x);
}

#[test]
fn test_nonpositive_lifespan_dies_on_first_step() {
    let mut p = live_particle(1_000_000, 0, 1_000_000, 0, true);
    p.update(0, 0, 10_000).unwrap();
    assert!(p.isdead);
    assert_eq!(p.age, 10_000);
    assert_eq!(p.x_position, 0);
    assert!(p.position_history.is_empty());
}

#[test]
fn test_trail_is_sliding_window() {
    // No aging; velocity 1.0 in x, zero force: the particle moves 0.1 per
    // step and each live step records the pre-step position.
    let mut p = Particle::new(0, 0, 1_000_000, 0, 1_000_000, 0, (0, 0, 0), false, true).unwrap();
    let mut recorded: Vec<(i64, i64)> = Vec::new();
    for k in 1..=60usize {
        recorded.push((p.x_position, p.y_position));
        p.update(0, 0, 100_000).unwrap();
        if k <= TRAIL_LIMIT {
            assert_eq!(p.position_history.len(), k);
        } else {
            assert_eq!(p.position_history.len(), TRAIL_LIMIT);
        }
    }
    // After 60 steps the window starts at the position recorded by step 11.
    assert_eq!(p.position_history.len(), 50);
    assert_eq!(p.position_history[0], recorded[10]);
    assert_eq!(p.position_history.as_slice(), &recorded[10..60]);
}

#[test]
fn test_no_lifecycle_never_dies() {
    let mut p = Particle::new(0, 0, 0, 0, 1_000_000, 0, (0, 0, 0), false, false).unwrap();
    for _ in 0..200 {
        p.update(0, -9_810_000, 100_000).unwrap();
        assert!(!p.isdead);
        assert_eq!(p.age, 0);
    }
}

#[test]
fn test_no_trail_records_nothing() {
    let mut p = live_particle(1_000_000, 1_000_000, 1_000_000, 100_000_000, false);
    for _ in 0..10 {
        p.update(0, 0, 100_000).unwrap();
    }
    assert!(p.position_history.is_empty());
}

#[test]
fn test_overflow_is_reported_and_state_kept() {
    let mut p = live_particle(3, 4, 1, 100_000_000, true);
    // Acceleration would be i64::MAX * SCALE: far out of range.
    let r = p.update(i64::MAX, 0, 10_000);
    assert_eq!(r, Err(ParticleError::Overflow));
    assert_eq!(p.x_position, 0);
    assert_eq!(p.y_position, 0);
    assert_eq!(p.x_velocity, 3);
    assert_eq!(p.y_velocity, 4);
    assert_eq!(p.age, 0);
    assert!(!p.isdead);
    assert!(p.position_history.is_empty());
}

#[test]
fn test_age_overflow_is_reported() {
    let mut p = live_particle(0, 0, 1_000_000, i64::MAX, true);
    p.age = i64::MAX - 1;
    let r = p.update(0, 0, 2);
    assert_eq!(r, Err(ParticleError::Overflow));
    assert_eq!(p.age, i64::MAX - 1);
    assert!(!p.isdead);
}

#[test]
fn test_fixed_point_multiply_truncates() {
    assert_eq!(fx_mul(3_500_000, 2_000_000), Some(7_000_000));
    // 0.000001 * 0.5 truncates to zero.
    assert_eq!(fx_mul(1, 500_000), Some(0));
    // Truncation is toward zero for negative products.
    assert_eq!(fx_mul(-1, 500_000), Some(0));
    assert_eq!(fx_mul(i64::MAX, SCALE), None);
}

#[test]
fn test_fixed_point_divide_truncates() {
    assert_eq!(fx_div(1_000_000, 3_000_000), Some(333_333));
    assert_eq!(fx_div(-1_000_000, 3_000_000), Some(-333_333));
    assert_eq!(fx_div(1_000_000, -3_000_000), Some(-333_333));
    assert_eq!(fx_div(-1_000_000, -3_000_000), Some(333_333));
    assert_eq!(fx_div(i64::MAX, 1_000_000), None);
}
