//! The engine facade: lifecycle, insertion, snapshots, capture stickiness
//! and nucleus detection.

use atomsim::fixed::SCALE;
use atomsim::particle::{OrbitalSlot, ParticleType};
use atomsim::SimulationEngine;

#[test]
fn empty_engine_has_no_particles() {
    let engine = SimulationEngine::new(800 * SCALE, 600 * SCALE);
    assert_eq!(engine.get_particle_count(), 0);
    assert!(engine.get_nuclei_data().is_empty());
}

#[test]
fn update_on_empty_engine_is_harmless() {
    let mut engine = SimulationEngine::new(800 * SCALE, 600 * SCALE);
    engine.update();
    engine.update();
    assert_eq!(engine.get_particle_count(), 0);
}

#[test]
fn particle_data_out_of_range_returns_none() {
    let mut engine = SimulationEngine::new(800 * SCALE, 600 * SCALE);
    assert_eq!(engine.get_particle_data(0), None);
    engine.add_particle(100 * SCALE, 100 * SCALE, 0);
    engine.add_particle(200 * SCALE, 100 * SCALE, 2);
    assert!(engine.get_particle_data(1).is_some());
    assert_eq!(engine.get_particle_data(2), None);
    assert_eq!(engine.get_particle_data(usize::MAX), None);
}

#[test]
fn particle_data_reports_kind_codes_and_radius() {
    let mut engine = SimulationEngine::new(800 * SCALE, 600 * SCALE);
    engine.add_particle(100 * SCALE, 110 * SCALE, 0);
    engine.add_particle(200 * SCALE, 210 * SCALE, 1);
    engine.add_particle(300 * SCALE, 310 * SCALE, 2);
    // An unknown code falls back to an electron.
    engine.add_particle(400 * SCALE, 410 * SCALE, 99);

    let proton = engine.get_particle_data(0).unwrap();
    assert_eq!((proton.x, proton.y), (100 * SCALE, 110 * SCALE));
    assert_eq!(proton.kind, 0);
    assert_eq!(proton.radius, 20 * SCALE);

    let neutron = engine.get_particle_data(1).unwrap();
    assert_eq!(neutron.kind, 1);
    assert_eq!(neutron.radius, 20 * SCALE);

    let electron = engine.get_particle_data(2).unwrap();
    assert_eq!(electron.kind, 2);
    assert_eq!(electron.radius, 10 * SCALE);

    assert_eq!(engine.get_particle_data(3).unwrap().kind, 2);
}

#[test]
fn clear_removes_every_particle() {
    let mut engine = SimulationEngine::new(800 * SCALE, 600 * SCALE);
    engine.add_nucleus(400 * SCALE, 300 * SCALE, 2, 2, 2);
    assert!(engine.get_particle_count() > 0);
    engine.clear();
    assert_eq!(engine.get_particle_count(), 0);
    assert_eq!(engine.get_particle_data(0), None);
}

#[test]
fn setters_update_the_tunables() {
    let mut engine = SimulationEngine::new(800 * SCALE, 600 * SCALE);
    engine.set_nuclear_force(1);
    engine.set_nuclear_range(2);
    engine.set_nuclear_attractive(3);
    engine.set_nuclear_damping(4);
    engine.set_proton_repulsion(5);
    engine.set_coulomb_force(6);
    engine.set_orbital_speed(7);
    engine.set_orbital_radius(8);
    engine.set_min_orbital_radius(9);
    engine.set_max_orbital_radius(10);
    engine.set_electron_repulsion(11);
    engine.set_nuclear_mass(12);
    engine.set_electron_mass(13);
    engine.set_electron_damping(14);
    let p = &engine.simulation.params;
    assert_eq!(p.nuclear_force, 1);
    assert_eq!(p.nuclear_range, 2);
    assert_eq!(p.nuclear_attractive, 3);
    assert_eq!(p.nuclear_damping, 4);
    assert_eq!(p.proton_repulsion, 5);
    assert_eq!(p.coulomb_force, 6);
    assert_eq!(p.orbital_speed, 7);
    assert_eq!(p.orbital_radius, 8);
    assert_eq!(p.min_orbital_radius, 9);
    assert_eq!(p.max_orbital_radius, 10);
    assert_eq!(p.electron_repulsion, 11);
    assert_eq!(p.nuclear_mass, 12);
    assert_eq!(p.electron_mass, 13);
    assert_eq!(p.electron_damping, 14);
}

#[test]
fn nucleus_batch_counts_and_assignments() {
    let mut engine = SimulationEngine::new(800 * SCALE, 600 * SCALE);
    engine.add_nucleus(400 * SCALE, 300 * SCALE, 2, 3, 5);
    assert_eq!(engine.get_particle_count(), 10);
    let particles = &engine.simulation.particles;
    for k in 0..2 {
        assert_eq!(particles[k].ptype, ParticleType::Proton);
    }
    for k in 2..5 {
        assert_eq!(particles[k].ptype, ParticleType::Neutron);
    }
    for k in 5..10 {
        assert_eq!(particles[k].ptype, ParticleType::Electron);
        // Batch electrons are assigned their slot and anchor up front.
        assert_eq!(particles[k].orbiting_around, Some(0));
        assert!(particles[k].orbital_position.is_some());
    }
    assert_eq!(
        particles[5].orbital_position,
        Some(OrbitalSlot { subshell: 's', level: 1, orbital: 0, slot: 0 })
    );
    assert_eq!(
        particles[9].orbital_position,
        Some(OrbitalSlot { subshell: 'p', level: 2, orbital: 0, slot: 0 })
    );
}

#[test]
fn nucleus_batch_beyond_shell_capacity_skips_the_rest() {
    let mut engine = SimulationEngine::new(800 * SCALE, 600 * SCALE);
    engine.add_nucleus(400 * SCALE, 300 * SCALE, 1, 0, 80);
    // Only the 70 enumerated slots exist; the rest are skipped, not guessed.
    assert_eq!(engine.get_particle_count(), 1 + 70);
}

#[test]
fn nucleus_batch_without_protons_leaves_electrons_unanchored() {
    let mut engine = SimulationEngine::new(800 * SCALE, 600 * SCALE);
    engine.add_nucleus(400 * SCALE, 300 * SCALE, 0, 0, 2);
    assert_eq!(engine.get_particle_count(), 2);
    for k in 0..2 {
        let p = &engine.simulation.particles[k];
        assert_eq!(p.orbiting_around, None);
        assert!(p.orbital_position.is_some());
    }
    // No proton, no detected nucleus.
    assert!(engine.get_nuclei_data().is_empty());
}

#[test]
fn ion_charge_does_not_change_the_simulated_particles() {
    let mut neutral = SimulationEngine::new(800 * SCALE, 600 * SCALE);
    neutral.add_nucleus(400 * SCALE, 300 * SCALE, 3, 4, 2);
    let mut ion = SimulationEngine::new(800 * SCALE, 600 * SCALE);
    ion.add_ion(400 * SCALE, 300 * SCALE, 3, 4, 2, 2);
    assert_eq!(neutral.get_particle_count(), ion.get_particle_count());
    for k in 0..neutral.get_particle_count() {
        assert_eq!(neutral.get_particle_data(k), ion.get_particle_data(k));
    }
}

#[test]
fn nucleus_detection_is_idempotent_within_a_frame() {
    let mut engine = SimulationEngine::new(800 * SCALE, 600 * SCALE);
    engine.add_nucleus(200 * SCALE, 300 * SCALE, 2, 2, 3);
    engine.add_nucleus(600 * SCALE, 300 * SCALE, 1, 1, 1);
    engine.update();
    let first = engine.simulation.detect_nuclei();
    let second = engine.simulation.detect_nuclei();
    assert_eq!(first, second);
    let data1 = engine.get_nuclei_data();
    let data2 = engine.get_nuclei_data();
    assert_eq!(data1, data2);
}

#[test]
fn capture_is_sticky_across_many_steps() {
    let mut engine = SimulationEngine::new(800 * SCALE, 600 * SCALE);
    engine.add_nucleus(400 * SCALE, 300 * SCALE, 1, 1, 2);
    let hosts: Vec<Option<usize>> =
        engine.simulation.particles.iter().map(|p| p.orbiting_around).collect();
    let slots: Vec<Option<OrbitalSlot>> =
        engine.simulation.particles.iter().map(|p| p.orbital_position).collect();
    for _ in 0..25 {
        engine.update();
    }
    for (k, p) in engine.simulation.particles.iter().enumerate() {
        if hosts[k].is_some() {
            assert_eq!(p.orbiting_around, hosts[k]);
        }
        if slots[k].is_some() {
            assert_eq!(p.orbital_position, slots[k]);
        }
    }
}

#[test]
fn free_electron_near_proton_acquires_first_slot() {
    let mut engine = SimulationEngine::new(800 * SCALE, 600 * SCALE);
    engine.add_particle(400 * SCALE, 300 * SCALE, 0);
    // 30 units away: inside the (10, 80) capture window.
    engine.add_particle(430 * SCALE, 300 * SCALE, 2);
    engine.update();
    let electron = &engine.simulation.particles[1];
    assert_eq!(electron.orbiting_around, Some(0));
    assert_eq!(
        electron.orbital_position,
        Some(OrbitalSlot { subshell: 's', level: 1, orbital: 0, slot: 0 })
    );
}

#[test]
fn hydrogen_scenario_one_nucleus_and_grounded_electron() {
    let mut engine = SimulationEngine::new(800 * SCALE, 600 * SCALE);
    engine.add_nucleus(400 * SCALE, 300 * SCALE, 1, 0, 1);
    engine.update();

    let nuclei = engine.get_nuclei_data();
    assert_eq!(nuclei.len(), 1);
    assert_eq!(nuclei[0].protons, 1);

    let electron = &engine.simulation.particles[1];
    assert_eq!(
        electron.orbital_position,
        Some(OrbitalSlot { subshell: 's', level: 1, orbital: 0, slot: 0 })
    );
    assert_eq!(electron.orbiting_around, Some(0));

    // The electron sits at the 1s base radius of 50 units from its proton,
    // within the tolerance of one frame's integration (a 2.5-unit
    // tangential advance).
    let proton = &engine.simulation.particles[0];
    let dx = (electron.x - proton.x) as f64 / SCALE as f64;
    let dy = (electron.y - proton.y) as f64 / SCALE as f64;
    let dist = (dx * dx + dy * dy).sqrt();
    assert!(dist > 49.0 && dist < 51.0, "distance {dist} not near 50");
}
