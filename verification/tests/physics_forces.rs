//! The force model: electrostatic sign behaviour, force-pair antisymmetry
//! and the exact fixed-point force formulas.

use atomsim::fixed::SCALE;
use atomsim::physics::{Physics, PhysicsParams};
use atomsim::simulation::Simulation;

#[test]
fn coulomb_sign_follows_charge_product() {
    let params = PhysicsParams::default();
    // Opposite unit charges at one unit of separation attract.
    let attract = Physics::calculate_coulomb_force(SCALE, SCALE, -SCALE, &params);
    assert_eq!(attract, -26);
    // Like unit charges repel.
    let repel = Physics::calculate_coulomb_force(SCALE, SCALE, SCALE, &params);
    assert_eq!(repel, 26);
}

#[test]
fn coulomb_zero_for_uncharged_particles() {
    let params = PhysicsParams::default();
    assert_eq!(Physics::calculate_coulomb_force(SCALE, 0, 0, &params), 0);
    assert_eq!(Physics::calculate_coulomb_force(SCALE, 0, SCALE, &params), 0);
    assert_eq!(Physics::calculate_coulomb_force(SCALE, -SCALE, 0, &params), 0);
}

#[test]
fn coulomb_zero_below_one_unit() {
    let params = PhysicsParams::default();
    assert_eq!(Physics::calculate_coulomb_force(SCALE - 1, SCALE, SCALE, &params), 0);
    assert_eq!(Physics::calculate_coulomb_force(0, SCALE, -SCALE, &params), 0);
}

#[test]
fn nuclear_force_exact_value_inside_half_range() {
    let params = PhysicsParams::default();
    // 10 units, range 40: attraction = 30 * (1 - 10/40) = 22.5 units.
    assert_eq!(Physics::calculate_nuclear_force(10 * SCALE, &params), 22_500_000);
}

#[test]
fn nuclear_force_zero_beyond_range() {
    let params = PhysicsParams::default();
    assert_eq!(Physics::calculate_nuclear_force(41 * SCALE, &params), 0);
    // Between half range and full range the attractive term is zero too.
    assert_eq!(Physics::calculate_nuclear_force(30 * SCALE, &params), 0);
}

#[test]
fn orbital_motion_parameters_first_index() {
    let params = PhysicsParams::default();
    let (speed, radius) = Physics::calculate_orbital_motion(0, 0, &params);
    assert_eq!(radius, 100_000_000);
    assert_eq!(speed, 8_000_000);
}

#[test]
fn force_pairs_are_antisymmetric() {
    // Two protons close enough for nuclear attraction and repulsion terms:
    // with equal masses, the velocity kicks must be exact negations.
    let mut sim = Simulation::new(800 * SCALE, 600 * SCALE);
    sim.add_particle(300 * SCALE, 300 * SCALE, atomsim::particle::ParticleType::Proton);
    sim.add_particle(315 * SCALE, 300 * SCALE, atomsim::particle::ParticleType::Proton);
    sim.calculate_forces();
    assert_eq!(sim.particles[0].dx, -sim.particles[1].dx);
    assert_eq!(sim.particles[0].dy, -sim.particles[1].dy);
    assert!(sim.particles[0].dx != 0);
}

#[test]
fn distant_protons_feel_no_nuclear_force() {
    // 50 units apart: beyond the 40-unit nuclear range, so the nuclear term
    // is zero and only repulsion acts. The proton-proton term is
    // 15 / 50.1 units, over a mass of 3: a velocity kick of exactly
    // -99_800 subunits; the Coulomb term rounds to zero at this distance.
    let mut sim = Simulation::new(800 * SCALE, 600 * SCALE);
    sim.add_particle(100 * SCALE, 300 * SCALE, atomsim::particle::ParticleType::Proton);
    sim.add_particle(150 * SCALE, 300 * SCALE, atomsim::particle::ParticleType::Proton);
    sim.calculate_forces();
    assert_eq!(sim.particles[0].dx, -99_800);
    assert_eq!(sim.particles[1].dx, 99_800);
    assert_eq!(sim.particles[0].dy, 0);

    // Control: the same pair inside half the nuclear range attracts.
    let mut near = Simulation::new(800 * SCALE, 600 * SCALE);
    near.add_particle(100 * SCALE, 300 * SCALE, atomsim::particle::ParticleType::Proton);
    near.add_particle(115 * SCALE, 300 * SCALE, atomsim::particle::ParticleType::Proton);
    near.calculate_forces();
    assert!(near.particles[0].dx > 0);
    assert!(near.particles[1].dx < 0);
}

#[test]
fn default_params_match_documented_values() {
    let params = PhysicsParams::default();
    assert_eq!(params.nuclear_force, 25 * SCALE);
    assert_eq!(params.nuclear_range, 40 * SCALE);
    assert_eq!(params.nuclear_attractive, 30 * SCALE);
    assert_eq!(params.nuclear_damping, SCALE);
    assert_eq!(params.proton_repulsion, 15 * SCALE);
    assert_eq!(params.coulomb_force, 3 * SCALE);
    assert_eq!(params.orbital_speed, 8 * SCALE);
    assert_eq!(params.orbital_radius, 100 * SCALE);
    assert_eq!(params.min_orbital_radius, 50 * SCALE);
    assert_eq!(params.max_orbital_radius, 150 * SCALE);
    assert_eq!(params.electron_repulsion, 2 * SCALE);
    assert_eq!(params.nuclear_mass, 3 * SCALE);
    assert_eq!(params.electron_mass, 10_000);
    assert_eq!(params.electron_damping, SCALE);
    assert_eq!(params.energy_level, 1);
}
