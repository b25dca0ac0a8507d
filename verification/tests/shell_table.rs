//! The quantum-shell lookup table: determinism, fill order and capacities.

use atomsim::particle::OrbitalSlot;
use atomsim::shell::{
    get_max_electrons_sublevel, get_orbital_angle, get_orbital_info, get_orbital_parameters,
    get_orbitals_count, SHELL_CAPACITY,
};

#[test]
fn shell_assignment_is_deterministic() {
    for i in 0..(SHELL_CAPACITY + 5) {
        assert_eq!(get_orbital_info(i), get_orbital_info(i));
    }
}

#[test]
fn shell_fill_order_first_slots() {
    assert_eq!(
        get_orbital_info(0),
        Some(OrbitalSlot { subshell: 's', level: 1, orbital: 0, slot: 0 })
    );
    assert_eq!(
        get_orbital_info(1),
        Some(OrbitalSlot { subshell: 's', level: 1, orbital: 0, slot: 1 })
    );
    assert_eq!(
        get_orbital_info(2),
        Some(OrbitalSlot { subshell: 's', level: 2, orbital: 0, slot: 0 })
    );
    assert_eq!(
        get_orbital_info(4),
        Some(OrbitalSlot { subshell: 'p', level: 2, orbital: 0, slot: 0 })
    );
    assert_eq!(
        get_orbital_info(9),
        Some(OrbitalSlot { subshell: 'p', level: 2, orbital: 2, slot: 1 })
    );
    assert_eq!(
        get_orbital_info(20),
        Some(OrbitalSlot { subshell: 'd', level: 3, orbital: 0, slot: 0 })
    );
    assert_eq!(
        get_orbital_info(56),
        Some(OrbitalSlot { subshell: 'f', level: 4, orbital: 0, slot: 0 })
    );
    assert_eq!(
        get_orbital_info(69),
        Some(OrbitalSlot { subshell: 'f', level: 4, orbital: 6, slot: 1 })
    );
}

#[test]
fn shell_table_exhaustion_is_reported() {
    assert_eq!(get_orbital_info(SHELL_CAPACITY), None);
    assert_eq!(get_orbital_info(SHELL_CAPACITY + 1), None);
    assert_eq!(get_orbital_info(1000), None);
}

#[test]
fn subshell_capacities_sum_to_documented_values() {
    // Fill order: 1s 2s 2p 3s 3p 4s 3d 4p 5s 4d 5p 6s 4f.
    let blocks: [(char, usize, usize); 13] = [
        ('s', 1, 2),
        ('s', 2, 2),
        ('p', 2, 6),
        ('s', 3, 2),
        ('p', 3, 6),
        ('s', 4, 2),
        ('d', 3, 10),
        ('p', 4, 6),
        ('s', 5, 2),
        ('d', 4, 10),
        ('p', 5, 6),
        ('s', 6, 2),
        ('f', 4, 14),
    ];
    let mut counts = [0usize; 13];
    for i in 0..SHELL_CAPACITY {
        let slot = get_orbital_info(i).expect("within capacity");
        let idx = blocks
            .iter()
            .position(|b| b.0 == slot.subshell && b.1 == slot.level)
            .expect("known subshell");
        counts[idx] += 1;
    }
    for (idx, block) in blocks.iter().enumerate() {
        assert_eq!(counts[idx], block.2, "capacity of {}{}", block.1, block.0);
    }
    assert_eq!(blocks.iter().map(|b| b.2).sum::<usize>(), SHELL_CAPACITY);
}

#[test]
fn slots_fill_two_per_orbital_in_order() {
    for i in 0..SHELL_CAPACITY {
        let slot = get_orbital_info(i).unwrap();
        assert!(slot.slot < 2);
        assert!(slot.orbital < get_orbitals_count(slot.subshell));
    }
}

#[test]
fn orbitals_count_per_kind() {
    assert_eq!(get_orbitals_count('s'), 1);
    assert_eq!(get_orbitals_count('p'), 3);
    assert_eq!(get_orbitals_count('d'), 5);
    assert_eq!(get_orbitals_count('f'), 7);
    assert_eq!(get_orbitals_count('x'), 1);
}

#[test]
fn max_electrons_per_sublevel() {
    assert_eq!(get_max_electrons_sublevel('s'), 2);
    assert_eq!(get_max_electrons_sublevel('p'), 6);
    assert_eq!(get_max_electrons_sublevel('d'), 10);
    assert_eq!(get_max_electrons_sublevel('f'), 14);
}

#[test]
fn orbital_angles_for_p_orbitals() {
    assert_eq!(get_orbital_angle('s', 0), 0);
    assert_eq!(get_orbital_angle('p', 0), 0);
    assert_eq!(get_orbital_angle('p', 1), 1_570_796);
    assert_eq!(get_orbital_angle('p', 2), 3_141_593);
    // d orbitals split the turn in five.
    assert_eq!(get_orbital_angle('d', 1), 6_283_186 / 5);
}

#[test]
fn orbital_parameters_base_radii() {
    assert_eq!(get_orbital_parameters('s', 1, 0), (50_000_000, 4_000_000, 0));
    assert_eq!(get_orbital_parameters('s', 2, 0).0, 75_000_000);
    assert_eq!(get_orbital_parameters('p', 2, 0).0, 100_000_000);
    assert_eq!(get_orbital_parameters('d', 3, 0).0, 175_000_000);
    assert_eq!(get_orbital_parameters('f', 4, 0).0, 275_000_000);
    // Beyond the tabulated levels: 100 + 25 * level units.
    assert_eq!(get_orbital_parameters('s', 7, 0).0, 275_000_000);
}
