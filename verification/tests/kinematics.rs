//! Fixed-point arithmetic, distances and per-frame boundary reflection.

use atomsim::fixed::{cos_fx, isqrt, sin_fx, HALF_PI_FX, PI_FX, SCALE};
use atomsim::particle::{Particle, ParticleType};

#[test]
fn sine_exact_values() {
    assert_eq!(sin_fx(0), 0);
    assert_eq!(sin_fx(HALF_PI_FX), 999_999);
    // The rational approximation is exact at a sixth of a half turn.
    assert_eq!(sin_fx(523_599), 500_000);
    assert_eq!(sin_fx(PI_FX), 0);
    assert_eq!(sin_fx(-HALF_PI_FX), -999_999);
}

#[test]
fn cosine_exact_values() {
    assert_eq!(cos_fx(0), 999_999);
    assert_eq!(cos_fx(PI_FX), -999_999);
}

#[test]
fn trig_stays_within_one_unit() {
    let mut a: i64 = -40_000_000;
    while a <= 40_000_000 {
        assert!(sin_fx(a).abs() <= SCALE);
        assert!(cos_fx(a).abs() <= SCALE);
        a += 777_777;
    }
}

#[test]
fn integer_square_roots() {
    assert_eq!(isqrt(0), 0);
    assert_eq!(isqrt(1), 1);
    assert_eq!(isqrt(3), 1);
    assert_eq!(isqrt(4), 2);
    assert_eq!(isqrt(999_999), 999);
    assert_eq!(isqrt(1_000_000), 1000);
}

#[test]
fn distance_of_a_three_four_five_triangle() {
    let a = Particle::new(0, 0, ParticleType::Proton, 3 * SCALE);
    let b = Particle::new(3 * SCALE, 4 * SCALE, ParticleType::Proton, 3 * SCALE);
    assert_eq!(a.distance_to(&b), 5 * SCALE);
    assert_eq!(b.distance_to(&a), 5 * SCALE);
    assert_eq!(a.distance_to(&a), 0);
}

#[test]
fn boundary_reflection_right_edge() {
    // Driven past the right edge: clamped to edge minus radius, with the
    // horizontal velocity sign-flipped in the same step.
    let mut p = Particle::new(790 * SCALE, 300 * SCALE, ParticleType::Proton, 3 * SCALE);
    p.dx = 20 * SCALE;
    p.update(800 * SCALE, 600 * SCALE, SCALE);
    assert_eq!(p.x, 780 * SCALE);
    assert_eq!(p.dx, -20 * SCALE);
    assert_eq!(p.y, 300 * SCALE);
    assert_eq!(p.dy, 0);
}

#[test]
fn boundary_reflection_near_edges() {
    // Driven past the left and top edges: clamped to the radius.
    let mut p = Particle::new(15 * SCALE, 12 * SCALE, ParticleType::Electron, 10_000);
    p.dx = -30 * SCALE;
    p.dy = -30 * SCALE;
    p.update(800 * SCALE, 600 * SCALE, SCALE);
    assert_eq!(p.x, 10 * SCALE);
    assert_eq!(p.y, 10 * SCALE);
    assert_eq!(p.dx, 30 * SCALE);
    assert_eq!(p.dy, 30 * SCALE);
}

#[test]
fn interior_motion_is_unreflected() {
    let mut p = Particle::new(100 * SCALE, 100 * SCALE, ParticleType::Neutron, 3 * SCALE);
    p.dx = 5 * SCALE;
    p.dy = -2 * SCALE;
    p.update(800 * SCALE, 600 * SCALE, SCALE);
    assert_eq!(p.x, 105 * SCALE);
    assert_eq!(p.y, 98 * SCALE);
    assert_eq!(p.dx, 5 * SCALE);
    assert_eq!(p.dy, -2 * SCALE);
}

#[test]
fn damping_scales_velocity() {
    let mut p = Particle::new(100 * SCALE, 100 * SCALE, ParticleType::Electron, 10_000);
    p.dx = 10 * SCALE;
    // Half damping.
    p.update(800 * SCALE, 600 * SCALE, SCALE / 2);
    assert_eq!(p.dx, 5 * SCALE);
}

#[test]
fn particle_attributes_by_kind() {
    let proton = Particle::new(0, 0, ParticleType::Proton, 3 * SCALE);
    assert_eq!(proton.radius, 20 * SCALE);
    assert_eq!(proton.charge, SCALE);
    let neutron = Particle::new(0, 0, ParticleType::Neutron, 3 * SCALE);
    assert_eq!(neutron.radius, 20 * SCALE);
    assert_eq!(neutron.charge, 0);
    let electron = Particle::new(0, 0, ParticleType::Electron, 10_000);
    assert_eq!(electron.radius, 10 * SCALE);
    assert_eq!(electron.charge, -SCALE);
    assert!(electron.orbiting_around.is_none());
    assert!(electron.orbital_position.is_none());
}
