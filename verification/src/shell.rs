//! The quantum-shell lookup: a pure, deterministic mapping from an electron's
//! ordinal index to its slot, following the fixed fill order
//! 1s 2s 2p 3s 3p 4s 3d 4p 5s 4d 5p 6s 4f, two electrons per orbital.
//! Ordinals beyond the last enumerated subshell are reported as unsupported
//! rather than guessed.

use vstd::prelude::*;

verus! {

use crate::fixed::{clamped, dti, HALF_PI_FX, PI_FX, SCALE, TWO_PI_FX};
use crate::particle::OrbitalSlot;

/// Total number of enumerated slots: the sum of the thirteen subshell
/// capacities 2+2+6+2+6+2+10+6+2+10+6+2+14.
pub const SHELL_CAPACITY: usize = 70;

/// The fill-order table. Each ordinal lands in the subshell whose cumulative
/// range contains it; within a subshell, orbitals fill two slots at a time.
pub open spec fn spec_orbital_info(i: int) -> Option<OrbitalSlot> {
    if i < 0 {
        None
    } else if i < 2 {
        Some(OrbitalSlot { subshell: 's', level: 1, orbital: 0, slot: i as usize })
    } else if i < 4 {
        Some(OrbitalSlot { subshell: 's', level: 2, orbital: 0, slot: (i - 2) as usize })
    } else if i < 10 {
        Some(
            OrbitalSlot {
                subshell: 'p',
                level: 2,
                orbital: ((i - 4) / 2) as usize,
                slot: ((i - 4) % 2) as usize,
            },
        )
    } else if i < 12 {
        Some(OrbitalSlot { subshell: 's', level: 3, orbital: 0, slot: (i - 10) as usize })
    } else if i < 18 {
        Some(
            OrbitalSlot {
                subshell: 'p',
                level: 3,
                orbital: ((i - 12) / 2) as usize,
                slot: ((i - 12) % 2) as usize,
            },
        )
    } else if i < 20 {
        Some(OrbitalSlot { subshell: 's', level: 4, orbital: 0, slot: (i - 18) as usize })
    } else if i < 30 {
        Some(
            OrbitalSlot {
                subshell: 'd',
                level: 3,
                orbital: ((i - 20) / 2) as usize,
                slot: ((i - 20) % 2) as usize,
            },
        )
    } else if i < 36 {
        Some(
            OrbitalSlot {
                subshell: 'p',
                level: 4,
                orbital: ((i - 30) / 2) as usize,
                slot: ((i - 30) % 2) as usize,
            },
        )
    } else if i < 38 {
        Some(OrbitalSlot { subshell: 's', level: 5, orbital: 0, slot: (i - 36) as usize })
    } else if i < 48 {
        Some(
            OrbitalSlot {
                subshell: 'd',
                level: 4,
                orbital: ((i - 38) / 2) as usize,
                slot: ((i - 38) % 2) as usize,
            },
        )
    } else if i < 54 {
        Some(
            OrbitalSlot {
                subshell: 'p',
                level: 5,
                orbital: ((i - 48) / 2) as usize,
                slot: ((i - 48) % 2) as usize,
            },
        )
    } else if i < 56 {
        Some(OrbitalSlot { subshell: 's', level: 6, orbital: 0, slot: (i - 54) as usize })
    } else if i < 70 {
        Some(
            OrbitalSlot {
                subshell: 'f',
                level: 4,
                orbital: ((i - 56) / 2) as usize,
                slot: ((i - 56) % 2) as usize,
            },
        )
    } else {
        None
    }
}

/// Quantum slot for the electron with the given ordinal index, or `None`
/// beyond the enumerated table.
pub fn get_orbital_info(electron_index: usize) -> (r: Option<OrbitalSlot>)
    ensures
        r == spec_orbital_info(electron_index as int),
{
    let i = electron_index;
    if i < 2 {
        Some(OrbitalSlot { subshell: 's', level: 1, orbital: 0, slot: i })
    } else if i < 4 {
        Some(OrbitalSlot { subshell: 's', level: 2, orbital: 0, slot: i - 2 })
    } else if i < 10 {
        Some(OrbitalSlot { subshell: 'p', level: 2, orbital: (i - 4) / 2, slot: (i - 4) % 2 })
    } else if i < 12 {
        Some(OrbitalSlot { subshell: 's', level: 3, orbital: 0, slot: i - 10 })
    } else if i < 18 {
        Some(OrbitalSlot { subshell: 'p', level: 3, orbital: (i - 12) / 2, slot: (i - 12) % 2 })
    } else if i < 20 {
        Some(OrbitalSlot { subshell: 's', level: 4, orbital: 0, slot: i - 18 })
    } else if i < 30 {
        Some(OrbitalSlot { subshell: 'd', level: 3, orbital: (i - 20) / 2, slot: (i - 20) % 2 })
    } else if i < 36 {
        Some(OrbitalSlot { subshell: 'p', level: 4, orbital: (i - 30) / 2, slot: (i - 30) % 2 })
    } else if i < 38 {
        Some(OrbitalSlot { subshell: 's', level: 5, orbital: 0, slot: i - 36 })
    } else if i < 48 {
        Some(OrbitalSlot { subshell: 'd', level: 4, orbital: (i - 38) / 2, slot: (i - 38) % 2 })
    } else if i < 54 {
        Some(OrbitalSlot { subshell: 'p', level: 5, orbital: (i - 48) / 2, slot: (i - 48) % 2 })
    } else if i < 56 {
        Some(OrbitalSlot { subshell: 's', level: 6, orbital: 0, slot: i - 54 })
    } else if i < 70 {
        Some(OrbitalSlot { subshell: 'f', level: 4, orbital: (i - 56) / 2, slot: (i - 56) % 2 })
    } else {
        // Beyond the last enumerated subshell: unsupported, not guessed.
        None
    }
}

/// Number of orbitals a subshell kind holds.
pub open spec fn spec_orbitals_count(subshell: char) -> int {
    if subshell == 's' {
        1
    } else if subshell == 'p' {
        3
    } else if subshell == 'd' {
        5
    } else if subshell == 'f' {
        7
    } else {
        1
    }
}

pub fn get_orbitals_count(subshell: char) -> (n: usize)
    ensures
        n == spec_orbitals_count(subshell),
{
    if subshell == 's' {
        1
    } else if subshell == 'p' {
        3
    } else if subshell == 'd' {
        5
    } else if subshell == 'f' {
        7
    } else {
        1
    }
}

/// Electron capacity of a subshell kind: two per orbital.
pub open spec fn spec_max_electrons_sublevel(subshell: char) -> int {
    2 * spec_orbitals_count(subshell)
}

pub fn get_max_electrons_sublevel(subshell: char) -> (n: usize)
    ensures
        n == spec_max_electrons_sublevel(subshell),
{
    if subshell == 's' {
        2
    } else if subshell == 'p' {
        6
    } else if subshell == 'd' {
        10
    } else if subshell == 'f' {
        14
    } else {
        2
    }
}

/// Base orientation angle of an orbital within its subshell.
pub open spec fn spec_orbital_angle(subshell: char, orbital_idx: int) -> int {
    if subshell == 's' {
        0
    } else if subshell == 'p' {
        if orbital_idx == 0 {
            0
        } else if orbital_idx == 1 {
            HALF_PI_FX as int
        } else if orbital_idx == 2 {
            PI_FX as int
        } else {
            0
        }
    } else if subshell == 'd' {
        clamped(dti(orbital_idx * TWO_PI_FX, 5))
    } else if subshell == 'f' {
        clamped(dti(orbital_idx * TWO_PI_FX, 7))
    } else {
        0
    }
}

pub fn get_orbital_angle(subshell: char, orbital_idx: usize) -> (a: i64)
    ensures
        a == spec_orbital_angle(subshell, orbital_idx as int),
{
    if subshell == 's' {
        0
    } else if subshell == 'p' {
        if orbital_idx == 0 {
            0
        } else if orbital_idx == 1 {
            HALF_PI_FX
        } else if orbital_idx == 2 {
            PI_FX
        } else {
            0
        }
    } else if subshell == 'd' {
        turn_fraction(orbital_idx, 5)
    } else if subshell == 'f' {
        turn_fraction(orbital_idx, 7)
    } else {
        0
    }
}

/// `idx` turns over `den` parts, truncated and saturated.
pub fn turn_fraction(idx: usize, den: u32) -> (a: i64)
    requires
        den > 0,
    ensures
        a == clamped(dti(idx * TWO_PI_FX, den as int)),
{
    assert(0 <= idx as int * TWO_PI_FX as int
        <= 0x4000_0000_0000_0000_0000_0000_0000_0000) by (nonlinear_arith)
        requires
            0 <= idx <= 0xffff_ffff_ffff_ffff,
            TWO_PI_FX == 6_283_186,
    ;
    let p: i128 = idx as i128 * TWO_PI_FX as i128;
    let q = crate::fixed::dti_i128(p, den as i128);
    proof {
        crate::fixed::lemma_dti_bound(p as int, den as int);
    }
    crate::fixed::clamp128(q)
}

/// Base radius, base speed and base motion angle for a slot: radius from the
/// tabulated (level, kind) pairs with a `100 + 25 * level` fallback, speed by
/// kind, angle by evenly splitting the turn among the subshell's orbitals.
pub open spec fn spec_orbital_parameters(subshell: char, principal_n: int, orbital_idx: int) -> (
    int,
    int,
    int,
) {
    let base_radius: int = if principal_n == 1 {
        50 * SCALE as int
    } else if principal_n == 2 {
        if subshell == 's' {
            75 * SCALE as int
        } else if subshell == 'p' {
            100 * SCALE as int
        } else {
            85 * SCALE as int
        }
    } else if principal_n == 3 {
        if subshell == 's' {
            125 * SCALE as int
        } else if subshell == 'p' {
            150 * SCALE as int
        } else if subshell == 'd' {
            175 * SCALE as int
        } else {
            140 * SCALE as int
        }
    } else if principal_n == 4 {
        if subshell == 's' {
            200 * SCALE as int
        } else if subshell == 'p' {
            225 * SCALE as int
        } else if subshell == 'd' {
            250 * SCALE as int
        } else if subshell == 'f' {
            275 * SCALE as int
        } else {
            215 * SCALE as int
        }
    } else {
        clamped((100 + principal_n * 25) * SCALE)
    };
    let base_speed: int = if subshell == 's' {
        4_000_000
    } else if subshell == 'p' {
        3_000_000
    } else if subshell == 'd' {
        2_500_000
    } else if subshell == 'f' {
        2_000_000
    } else {
        3_000_000
    };
    let angle_offset: int = if subshell == 's' {
        0
    } else if subshell == 'p' {
        clamped(dti(orbital_idx * TWO_PI_FX, 3))
    } else if subshell == 'd' {
        clamped(dti(orbital_idx * TWO_PI_FX, 5))
    } else if subshell == 'f' {
        clamped(dti(orbital_idx * TWO_PI_FX, 7))
    } else {
        0
    };
    (base_radius, base_speed, angle_offset)
}

pub fn get_orbital_parameters(subshell: char, principal_n: usize, orbital_idx: usize) -> (r: (
    i64,
    i64,
    i64,
))
    ensures
        (r.0 as int, r.1 as int, r.2 as int) == spec_orbital_parameters(
            subshell,
            principal_n as int,
            orbital_idx as int,
        ),
{
    let base_radius: i64 = if principal_n == 1 {
        50 * SCALE
    } else if principal_n == 2 {
        if subshell == 's' {
            75 * SCALE
        } else if subshell == 'p' {
            100 * SCALE
        } else {
            85 * SCALE
        }
    } else if principal_n == 3 {
        if subshell == 's' {
            125 * SCALE
        } else if subshell == 'p' {
            150 * SCALE
        } else if subshell == 'd' {
            175 * SCALE
        } else {
            140 * SCALE
        }
    } else if principal_n == 4 {
        if subshell == 's' {
            200 * SCALE
        } else if subshell == 'p' {
            225 * SCALE
        } else if subshell == 'd' {
            250 * SCALE
        } else if subshell == 'f' {
            275 * SCALE
        } else {
            215 * SCALE
        }
    } else {
        assert(0 <= (100 + principal_n as int * 25) * SCALE as int
            <= 0x4000_0000_0000_0000_0000_0000_0000_0000) by (nonlinear_arith)
            requires
                0 <= principal_n <= 0xffff_ffff_ffff_ffff,
                SCALE == 1_000_000,
        ;
        crate::fixed::clamp128((100 + principal_n as i128 * 25) * SCALE as i128)
    };
    let base_speed: i64 = if subshell == 's' {
        4_000_000
    } else if subshell == 'p' {
        3_000_000
    } else if subshell == 'd' {
        2_500_000
    } else if subshell == 'f' {
        2_000_000
    } else {
        3_000_000
    };
    let angle_offset: i64 = if subshell == 's' {
        0
    } else if subshell == 'p' {
        turn_fraction(orbital_idx, 3)
    } else if subshell == 'd' {
        turn_fraction(orbital_idx, 5)
    } else if subshell == 'f' {
        turn_fraction(orbital_idx, 7)
    } else {
        0
    };
    (base_radius, base_speed, angle_offset)
}

/// Shell assignment is a pure function: equal ordinals always receive equal
/// slots.
pub proof fn lemma_shell_assignment_deterministic(
    i: int,
    r1: Option<OrbitalSlot>,
    r2: Option<OrbitalSlot>,
)
    requires
        r1 == spec_orbital_info(i),
        r2 == spec_orbital_info(i),
    ensures
        r1 == r2,
{
}

/// The ordinals assigned to each subshell are exactly its documented
/// capacity, in fill order: 1s and 2s hold two each, 2p six, and so on
/// through 4f; everything from `SHELL_CAPACITY` on is unsupported.
pub proof fn lemma_shell_capacities()
    ensures
        forall|i: int| 0 <= i < 70 ==> (#[trigger] spec_orbital_info(i)) is Some,
        forall|i: int| i >= 70 ==> (#[trigger] spec_orbital_info(i)) is None,
        forall|i: int| #![trigger spec_orbital_info(i)]
            0 <= i ==> {
                let r = spec_orbital_info(i);
                &&& (r matches Some(s) && s.subshell == 's' && s.level == 1 <==> 0 <= i < 2)
                &&& (r matches Some(s) && s.subshell == 's' && s.level == 2 <==> 2 <= i < 4)
                &&& (r matches Some(s) && s.subshell == 'p' && s.level == 2 <==> 4 <= i < 10)
                &&& (r matches Some(s) && s.subshell == 's' && s.level == 3 <==> 10 <= i < 12)
                &&& (r matches Some(s) && s.subshell == 'p' && s.level == 3 <==> 12 <= i < 18)
                &&& (r matches Some(s) && s.subshell == 's' && s.level == 4 <==> 18 <= i < 20)
                &&& (r matches Some(s) && s.subshell == 'd' && s.level == 3 <==> 20 <= i < 30)
                &&& (r matches Some(s) && s.subshell == 'p' && s.level == 4 <==> 30 <= i < 36)
                &&& (r matches Some(s) && s.subshell == 's' && s.level == 5 <==> 36 <= i < 38)
                &&& (r matches Some(s) && s.subshell == 'd' && s.level == 4 <==> 38 <= i < 48)
                &&& (r matches Some(s) && s.subshell == 'p' && s.level == 5 <==> 48 <= i < 54)
                &&& (r matches Some(s) && s.subshell == 's' && s.level == 6 <==> 54 <= i < 56)
                &&& (r matches Some(s) && s.subshell == 'f' && s.level == 4 <==> 56 <= i < 70)
            },
{
}

} // verus!
