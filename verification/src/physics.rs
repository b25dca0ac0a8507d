//! The force model: tunable parameters and the pure scalar force
//! computations for the three interaction classes.

use vstd::prelude::*;

verus! {

use crate::fixed::{
    cadd, clamped, dti, fxdiv, fxmul, isqrt, spec_fxdiv, spec_fxmul, sqrt_of, LIMIT,
    SCALE,
};
use crate::particle::Particle;

/// The flat record of scalar tunables, in millionths of a unit. Setters do
/// not validate: values may be negative or physically nonsensical by design.
#[derive(Clone, Debug)]
pub struct PhysicsParams {
    pub nuclear_force: i64,
    pub nuclear_range: i64,
    pub nuclear_attractive: i64,
    pub nuclear_damping: i64,
    pub proton_repulsion: i64,
    pub coulomb_force: i64,
    pub orbital_speed: i64,
    pub orbital_radius: i64,
    pub min_orbital_radius: i64,
    pub max_orbital_radius: i64,
    pub electron_repulsion: i64,
    pub nuclear_mass: i64,
    pub electron_mass: i64,
    pub electron_damping: i64,
    pub energy_level: u32,
}

/// The default tunables.
pub open spec fn spec_default_params() -> PhysicsParams {
    PhysicsParams {
        nuclear_force: 25_000_000,
        nuclear_range: 40_000_000,
        nuclear_attractive: 30_000_000,
        // No loss: the system is fully conservative by default.
        nuclear_damping: 1_000_000,
        proton_repulsion: 15_000_000,
        coulomb_force: 3_000_000,
        orbital_speed: 8_000_000,
        orbital_radius: 100_000_000,
        min_orbital_radius: 50_000_000,
        max_orbital_radius: 150_000_000,
        electron_repulsion: 2_000_000,
        nuclear_mass: 3_000_000,
        electron_mass: 10_000,
        electron_damping: 1_000_000,
        energy_level: 1,
    }
}

impl Default for PhysicsParams {
    fn default() -> (p: PhysicsParams)
        ensures
            p == spec_default_params(),
    {
        PhysicsParams {
            nuclear_force: 25_000_000,
            nuclear_range: 40_000_000,
            nuclear_attractive: 30_000_000,
            nuclear_damping: 1_000_000,
            proton_repulsion: 15_000_000,
            coulomb_force: 3_000_000,
            orbital_speed: 8_000_000,
            orbital_radius: 100_000_000,
            min_orbital_radius: 50_000_000,
            max_orbital_radius: 150_000_000,
            electron_repulsion: 2_000_000,
            nuclear_mass: 3_000_000,
            electron_mass: 10_000,
            electron_damping: 1_000_000,
            energy_level: 1,
        }
    }
}

/// Strong nuclear attraction between nucleons: nonzero only inside half the
/// nuclear range, falling off linearly with distance.
pub open spec fn spec_nuclear_force(distance: int, params: PhysicsParams) -> int {
    if distance > params.nuclear_range {
        0
    } else if distance < dti(params.nuclear_range as int, 2) {
        spec_fxmul(
            params.nuclear_attractive as int,
            SCALE - spec_fxdiv(distance, params.nuclear_range as int),
        )
    } else {
        0
    }
}

/// Coulomb-like electrostatic term: `k q1 q2 / d^2`, scaled by the coulomb
/// tunable and the fixed `1e-15` attenuation, zero below one unit of
/// separation. In fixed-point terms the constant folds to
/// `89875 / 10^10` per squared unit.
pub open spec fn spec_coulomb_force(distance: int, charge1: int, charge2: int, cf: int) -> int {
    if distance < SCALE {
        0
    } else {
        clamped(dti(dti(89875 * charge1 * charge2 * cf, distance * distance), 10_000_000_000))
    }
}

pub struct Physics;

impl Physics {
    pub fn calculate_nuclear_force(distance: i64, params: &PhysicsParams) -> (f: i64)
        ensures
            f == spec_nuclear_force(distance as int, *params),
    {
        if distance > params.nuclear_range {
            return 0;
        }
        // Strong attraction at short distance.
        let half_range = crate::fixed::dti64(params.nuclear_range, 2);
        if distance < half_range {
            let frac = fxdiv(distance, params.nuclear_range);
            fxmul(params.nuclear_attractive, SCALE - frac)
        } else {
            0
        }
    }

    pub fn calculate_coulomb_force(
        distance: i64,
        charge1: i64,
        charge2: i64,
        params: &PhysicsParams,
    ) -> (f: i64)
        requires
            -SCALE <= charge1 <= SCALE,
            -SCALE <= charge2 <= SCALE,
            0 <= distance <= 3 * LIMIT,
        ensures
            f == spec_coulomb_force(
                distance as int,
                charge1 as int,
                charge2 as int,
                params.coulomb_force as int,
            ),
    {
        if distance < SCALE {
            return 0;
        }
        assert(-1_000_000_000_000 <= charge1 as int * charge2 as int <= 1_000_000_000_000) by (
        nonlinear_arith)
            requires
                -1_000_000 <= charge1 <= 1_000_000,
                -1_000_000 <= charge2 <= 1_000_000,
        ;
        let qq: i128 = charge1 as i128 * charge2 as i128;
        let num0: i128 = 89875 * qq;
        assert(num0 == 89875 * (charge1 as int) * (charge2 as int)) by (nonlinear_arith)
            requires
                qq == charge1 as int * charge2 as int,
                num0 == 89875 * qq,
        ;
        assert(num0 * (params.coulomb_force as int) <= 0x4000_0000_0000_0000_0000_0000_0000_0000
            && num0 * (params.coulomb_force as int)
            >= -0x4000_0000_0000_0000_0000_0000_0000_0000) by (nonlinear_arith)
            requires
                -89_875_000_000_000_000 <= num0 <= 89_875_000_000_000_000,
                i64::MIN <= params.coulomb_force <= i64::MAX,
        ;
        let num: i128 = num0 * params.coulomb_force as i128;
        assert(0 <= distance as int * distance as int
            <= 9_000_000_000_000_000_000_000_000_000_000) by (nonlinear_arith)
            requires
                0 <= distance <= 3_000_000_000_000_000,
        ;
        let d2: i128 = distance as i128 * distance as i128;
        let t1 = crate::fixed::dti_i128(num, d2);
        proof {
            crate::fixed::lemma_dti_bound(num as int, d2 as int);
        }
        let t2 = crate::fixed::dti_i128(t1, 10_000_000_000);
        crate::fixed::clamp128(t2)
    }

    /// Target radius and tangential speed for a simple indexed orbit: the
    /// radius grows 30 units per index, the speed scales with the square
    /// root of the one-based index.
    pub fn calculate_orbital_motion(
        _distance_to_nucleus: i64,
        orbital_index: usize,
        params: &PhysicsParams,
    ) -> (sr: (i64, i64))
        ensures
            sr.1 == clamped(params.orbital_radius + clamped(orbital_index * 30 * SCALE)),
            sr.0 == spec_fxmul(
                params.orbital_speed as int,
                sqrt_of((orbital_index + 1) * SCALE * SCALE),
            ),
    {
        let step128: i128 = orbital_index as i128 * 30 * SCALE as i128;
        let step = crate::fixed::clamp128(step128);
        let target_radius = cadd(params.orbital_radius, step);
        let scaled: u128 = (orbital_index as u128 + 1) * (SCALE as u128) * (SCALE as u128);
        assert(scaled < 0x1_0000_0000_0000_0000_0000_0000_00) by (nonlinear_arith)
            requires
                scaled == (orbital_index as int + 1) * (SCALE as int) * (SCALE as int),
                0 <= orbital_index <= 0xffff_ffff_ffff_ffff,
                SCALE == 1_000_000,
        ;
        let root = isqrt(scaled);
        assert(root as int * root as int <= scaled);
        assert(root <= 5_000_000_000_000_000) by (nonlinear_arith)
            requires
                root as int * root as int <= 0x1_0000_0000_0000_0000_0000_0000_00,
                root >= 0,
        ;
        let speed = fxmul(params.orbital_speed, root as i64);
        (speed, target_radius)
    }

    /// Mass-weighted Euler step: the force over the mass is added directly to
    /// the velocity.
    pub fn apply_force(particle: &mut Particle, fx: i64, fy: i64)
        ensures
            *final(particle) == (Particle {
                dx: clamped(
                    old(particle).dx + spec_fxdiv(fx as int, old(particle).mass as int),
                ) as i64,
                dy: clamped(
                    old(particle).dy + spec_fxdiv(fy as int, old(particle).mass as int),
                ) as i64,
                ..*old(particle)
            }),
    {
        let acceleration_x = fxdiv(fx, particle.mass);
        let acceleration_y = fxdiv(fy, particle.mass);

        particle.dx = cadd(particle.dx, acceleration_x);
        particle.dy = cadd(particle.dy, acceleration_y);
    }
}

/// The electrostatic term never acts between uncharged particles, and its
/// sign follows the sign of the charge product whenever the coulomb tunable
/// is positive.
pub proof fn lemma_coulomb_sign(distance: int, charge1: int, charge2: int, cf: int)
    requires
        cf > 0,
    ensures
        charge1 == 0 || charge2 == 0 ==> spec_coulomb_force(distance, charge1, charge2, cf) == 0,
        charge1 * charge2 > 0 ==> spec_coulomb_force(distance, charge1, charge2, cf) >= 0,
        charge1 * charge2 < 0 ==> spec_coulomb_force(distance, charge1, charge2, cf) <= 0,
{
    if distance < SCALE {
    } else {
        let num = 89875 * charge1 * charge2 * cf;
        let d2 = distance * distance;
        assert(d2 >= 0) by (nonlinear_arith)
            requires
                d2 == distance * distance,
        ;
        if charge1 == 0 || charge2 == 0 {
            assert(num == 0) by (nonlinear_arith)
                requires
                    num == 89875 * charge1 * charge2 * cf,
                    charge1 == 0 || charge2 == 0,
            ;
        } else if charge1 * charge2 > 0 {
            assert(num > 0) by (nonlinear_arith)
                requires
                    num == 89875 * charge1 * charge2 * cf,
                    charge1 * charge2 > 0,
                    cf > 0,
            ;
            assert(dti(num, d2) >= 0);
            assert(dti(dti(num, d2), 10_000_000_000) >= 0);
        } else {
            assert(charge1 * charge2 < 0) by (nonlinear_arith)
                requires
                    charge1 != 0,
                    charge2 != 0,
                    !(charge1 * charge2 > 0),
            ;
            assert(num < 0) by (nonlinear_arith)
                requires
                    num == 89875 * charge1 * charge2 * cf,
                    charge1 * charge2 < 0,
                    cf > 0,
            ;
            assert(dti(num, d2) <= 0);
            assert(dti(dti(num, d2), 10_000_000_000) <= 0);
        }
    }
}

} // verus!
