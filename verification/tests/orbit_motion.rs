//! The orbital motion generators: exact override values and capture-window
//! behaviour.

use atomsim::fixed::SCALE;
use atomsim::orbit::{calculate_orbital_motion, nucleon_orbit};
use atomsim::SimulationEngine;

#[test]
fn s_orbit_at_time_zero_sits_on_the_base_radius() {
    // 1s, first slot, time zero: the angle is zero, so the electron sits one
    // base radius (50 units) to the right of the nucleus. Its velocity is
    // the curve's derivative over one frame: 50 units tangential, times the
    // 0.05 frame advance, pointing upward.
    let (x, y, dx, dy) = calculate_orbital_motion(0, 0, 's', 1, 0, 0, 0);
    // cos(0) is 999_999 in the rational approximation.
    assert_eq!(x, 49_999_950);
    assert_eq!(y, 0);
    assert_eq!(dx, 0);
    assert_eq!(dy, 2_499_997);
}

#[test]
fn s_orbit_pair_partner_is_half_a_turn_ahead() {
    let (x0, y0, _, _) = calculate_orbital_motion(0, 0, 's', 1, 0, 0, 0);
    let (x1, y1, _, _) = calculate_orbital_motion(0, 0, 's', 1, 0, 1, 0);
    // Opposite side of the nucleus, mirrored within rounding.
    assert_eq!(x1, -x0);
    assert_eq!(y1, -y0);
}

#[test]
fn p_orbit_at_time_zero() {
    // 2p, first orbital: at time zero the figure-eight sits on its vertical
    // lobe, 0.4 of the 100-unit base radius above the nucleus, moving along
    // the lobe derivative at twice the frame advance.
    let (x, y, dx, dy) = calculate_orbital_motion(0, 0, 'p', 2, 0, 0, 0);
    assert_eq!((x, y, dx, dy), (0, 39_999_920, 3_999_992, 0));
}

#[test]
fn d_orbit_at_time_zero() {
    // 3d, first orbital: the petal radius is 0.6 of the 175-unit base
    // radius, stretched by half the cosine modulation; the velocity is the
    // tangential derivative term at one and a half times the frame advance.
    let (x, y, dx, dy) = calculate_orbital_motion(0, 0, 'd', 3, 0, 0, 0);
    assert_eq!((x, y, dx, dy), (157_499_737, 0, 0, 11_812_480));
}

#[test]
fn f_orbit_at_time_zero() {
    // 4f, first orbital: both counter-rotating terms start aligned on the
    // positive axis, 0.4 plus 0.3 of the 275-unit base radius out; their
    // derivative terms at rates 1.2 and -1.8 nearly cancel.
    let (x, y, dx, dy) = calculate_orbital_motion(0, 0, 'f', 4, 0, 0, 0);
    assert_eq!((x, y, dx, dy), (192_499_807, 0, 0, -824_999));
}

#[test]
fn orbital_motion_is_deterministic() {
    let a = calculate_orbital_motion(7 * SCALE, -3 * SCALE, 'd', 3, 2, 1, 12_345_678);
    let b = calculate_orbital_motion(7 * SCALE, -3 * SCALE, 'd', 3, 2, 1, 12_345_678);
    assert_eq!(a, b);
}

#[test]
fn nucleon_orbit_rides_a_fixed_ring() {
    // Host proton at the origin and at rest, neutron 30 units to its right:
    // the override puts the neutron 45 units along the host-to-self
    // direction and gives it the tangential speed of 2.5 units.
    let (x, y, dx, dy) = nucleon_orbit(0, 0, 0, 0, 30 * SCALE, 0);
    assert_eq!(x, 45 * SCALE);
    assert_eq!(y, 0);
    assert_eq!(dx, 0);
    assert_eq!(dy, 2_500_000);
}

#[test]
fn electron_outside_capture_window_stays_free() {
    let mut engine = SimulationEngine::new(800 * SCALE, 600 * SCALE);
    engine.add_particle(100 * SCALE, 300 * SCALE, 0);
    // 100 units away: outside the (10, 80) electron capture window.
    engine.add_particle(200 * SCALE, 300 * SCALE, 2);
    engine.update();
    let electron = &engine.simulation.particles[1];
    assert_eq!(electron.orbiting_around, None);
    assert_eq!(electron.orbital_position, None);
}

#[test]
fn neutron_inside_capture_window_starts_orbiting() {
    let mut engine = SimulationEngine::new(800 * SCALE, 600 * SCALE);
    engine.add_particle(400 * SCALE, 300 * SCALE, 0);
    // 30 units away: inside the (15, 60) neutron capture window.
    engine.add_particle(430 * SCALE, 300 * SCALE, 1);
    engine.update();
    assert_eq!(engine.simulation.particles[1].orbiting_around, Some(0));
    // A captured neutron carries no quantum slot.
    assert_eq!(engine.simulation.particles[1].orbital_position, None);
}
