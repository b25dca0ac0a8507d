//! The orbital motion generators: time-parameterized parametric curves that
//! override a captured electron's position and velocity each frame, and the
//! angle-parameterized circular override for a captured nucleon.
//!
//! Each electron velocity is the analytic time-derivative of its position
//! curve — never finite-differenced — expressed over one frame: the
//! derivative with respect to simulation time, times the [`FRAME_TIME_FX`]
//! advance a single step applies, so that integrating the velocity for one
//! frame tracks the curve itself.

use vstd::prelude::*;

verus! {

use crate::fixed::{
    cadd, clamp128, clamped, cos_fx, csub, dti, dti64, fxdiv, fxmul, isqrt, sin_fx,
    spec_cos, spec_fxdiv, spec_fxmul, spec_sin, sqrt_of, LIMIT, PI_FX, SCALE, TWO_PI_FX,
};
use crate::shell::{spec_orbital_parameters, get_orbital_parameters};

/// Simulation-time advance of one frame: 0.05 units. The engine steps its
/// time accumulator by this much per update, and the motion generators
/// express their velocities over the same horizon.
pub const FRAME_TIME_FX: i64 = 50_000;

/// Circular motion for an `s` electron: phase offset by half a turn for the
/// second electron of the pair. The velocity is the curve's derivative,
/// `R * (-sin, cos)`, over one frame.
pub open spec fn spec_s_motion(nx: int, ny: int, base_radius: int, pos: int, time: int) -> (
    int,
    int,
    int,
    int,
) {
    let angle = clamped(time + clamped(pos * PI_FX));
    let x_off = spec_fxmul(base_radius, spec_cos(angle));
    let y_off = spec_fxmul(base_radius, spec_sin(angle));
    let x = clamped(nx + x_off);
    let y = clamped(ny + y_off);
    let dx = -spec_fxmul(y_off, FRAME_TIME_FX as int);
    let dy = spec_fxmul(x_off, FRAME_TIME_FX as int);
    (x, y, dx, dy)
}

/// Lemniscate motion for a `p` electron, rotated by the orbital's base
/// angle. The phase runs at twice the simulation time, so the velocity is
/// the rotation of the lobe derivative `(f8y, -f8x)` at twice the frame
/// advance.
pub open spec fn spec_p_motion(nx: int, ny: int, base_radius: int, orbital_idx: int, time: int) -> (
    int,
    int,
    int,
    int,
) {
    let ba = clamped(dti(orbital_idx * TWO_PI_FX, 3));
    let t = clamped(time + time);
    let lobe = spec_fxmul(base_radius, 400_000);
    let f8x = spec_fxmul(lobe, spec_sin(t));
    let f8y = spec_fxmul(lobe, spec_cos(t));
    let x = clamped(
        nx + clamped(spec_fxmul(spec_cos(ba), f8x) - spec_fxmul(spec_sin(ba), f8y)),
    );
    let y = clamped(
        ny + clamped(spec_fxmul(spec_sin(ba), f8x) + spec_fxmul(spec_cos(ba), f8y)),
    );
    let df8x = spec_fxmul(f8y, 2 * FRAME_TIME_FX);
    let df8y = -spec_fxmul(f8x, 2 * FRAME_TIME_FX);
    let dx = clamped(spec_fxmul(spec_cos(ba), df8x) - spec_fxmul(spec_sin(ba), df8y));
    let dy = clamped(spec_fxmul(spec_sin(ba), df8x) + spec_fxmul(spec_cos(ba), df8y));
    (x, y, dx, dy)
}

/// Five-lobed petal motion for a `d` electron: the radius oscillates with
/// the cosine of five times the phase, which itself runs at one and a half
/// times the simulation time. The velocity is the derivative of
/// `r(t) * (cos ang, sin ang)`: a radial term from the oscillating radius
/// (rate `5 * 1.5 * 0.5` of the petal amplitude per time unit) plus the
/// tangential term `1.5 * r`, each over one frame.
pub open spec fn spec_d_motion(nx: int, ny: int, base_radius: int, orbital_idx: int, time: int) -> (
    int,
    int,
    int,
    int,
) {
    let ba = clamped(dti(orbital_idx * TWO_PI_FX, 5));
    let pa = clamped(time + dti(time, 2));
    let pa5 = clamped(5 * pa);
    let ang = clamped(ba + pa);
    let petal = spec_fxmul(base_radius, 600_000);
    let r = spec_fxmul(petal, clamped(SCALE + dti(spec_cos(pa5), 2)));
    let x = clamped(nx + spec_fxmul(r, spec_cos(ang)));
    let y = clamped(ny + spec_fxmul(r, spec_sin(ang)));
    let radial = spec_fxmul(spec_fxmul(petal, spec_sin(pa5)), 187_500);
    let angular = spec_fxmul(r, 75_000);
    let dx = -clamped(spec_fxmul(radial, spec_cos(ang)) + spec_fxmul(angular, spec_sin(ang)));
    let dy = clamped(spec_fxmul(angular, spec_cos(ang)) - spec_fxmul(radial, spec_sin(ang)));
    (x, y, dx, dy)
}

/// Superposed counter-rotating motion for an `f` electron: one term turns
/// forward at 1.2 times the simulation time, the other backward at 1.8
/// times. The velocity sums the derivative of each circular term at its own
/// rate, over one frame.
pub open spec fn spec_f_motion(nx: int, ny: int, base_radius: int, orbital_idx: int, time: int) -> (
    int,
    int,
    int,
    int,
) {
    let ba = clamped(dti(orbital_idx * TWO_PI_FX, 7));
    let ca = clamped(time + dti(time, 5));
    let a1 = clamped(ba + ca);
    let a2 = clamped(ba - clamped(ca + dti(ca, 2)));
    let r1 = spec_fxmul(base_radius, 400_000);
    let r2 = spec_fxmul(base_radius, 300_000);
    let x1_off = spec_fxmul(r1, spec_cos(a1));
    let x2_off = spec_fxmul(r2, spec_cos(a2));
    let y1_off = spec_fxmul(r1, spec_sin(a1));
    let y2_off = spec_fxmul(r2, spec_sin(a2));
    let x = clamped(nx + clamped(x1_off + x2_off));
    let y = clamped(ny + clamped(y1_off + y2_off));
    let dx = clamped(spec_fxmul(y2_off, 90_000) - spec_fxmul(y1_off, 60_000));
    let dy = clamped(spec_fxmul(x1_off, 60_000) - spec_fxmul(x2_off, 90_000));
    (x, y, dx, dy)
}

/// Plain circular fallback for an unrecognized subshell kind, with the same
/// derivative velocity as the `s` curve.
pub open spec fn spec_circular_motion(nx: int, ny: int, base_radius: int, time: int) -> (
    int,
    int,
    int,
    int,
) {
    let x_off = spec_fxmul(base_radius, spec_cos(time));
    let y_off = spec_fxmul(base_radius, spec_sin(time));
    let x = clamped(nx + x_off);
    let y = clamped(ny + y_off);
    let dx = -spec_fxmul(y_off, FRAME_TIME_FX as int);
    let dy = spec_fxmul(x_off, FRAME_TIME_FX as int);
    (x, y, dx, dy)
}

/// Position and velocity of a captured electron, as a pure function of the
/// nucleus anchor position, the quantum slot and the simulation time.
pub open spec fn spec_orbital_motion(
    nx: int,
    ny: int,
    subshell: char,
    principal_n: int,
    orbital_idx: int,
    pos_in_orbital: int,
    time: int,
) -> (int, int, int, int) {
    let base_radius = spec_orbital_parameters(subshell, principal_n, orbital_idx).0;
    if subshell == 's' {
        spec_s_motion(nx, ny, base_radius, pos_in_orbital, time)
    } else if subshell == 'p' {
        spec_p_motion(nx, ny, base_radius, orbital_idx, time)
    } else if subshell == 'd' {
        spec_d_motion(nx, ny, base_radius, orbital_idx, time)
    } else if subshell == 'f' {
        spec_f_motion(nx, ny, base_radius, orbital_idx, time)
    } else {
        spec_circular_motion(nx, ny, base_radius, time)
    }
}

/// Computes the parametric orbital override for one electron frame.
pub fn calculate_orbital_motion(
    nucleus_x: i64,
    nucleus_y: i64,
    subshell: char,
    principal_n: usize,
    orbital_idx: usize,
    pos_in_orbital: usize,
    time: i64,
) -> (r: (i64, i64, i64, i64))
    ensures
        (r.0 as int, r.1 as int, r.2 as int, r.3 as int) == spec_orbital_motion(
            nucleus_x as int,
            nucleus_y as int,
            subshell,
            principal_n as int,
            orbital_idx as int,
            pos_in_orbital as int,
            time as int,
        ),
{
    let (base_radius, _base_speed, _angle_offset) = get_orbital_parameters(
        subshell,
        principal_n,
        orbital_idx,
    );
    if subshell == 's' {
        // Circular motion, the pair's second electron half a turn ahead.
        assert(0 <= pos_in_orbital as int * PI_FX as int
            <= 0x4000_0000_0000_0000_0000_0000_0000_0000) by (nonlinear_arith)
            requires
                0 <= pos_in_orbital <= 0xffff_ffff_ffff_ffff,
                PI_FX == 3_141_593,
        ;
        let phase = clamp128(pos_in_orbital as i128 * PI_FX as i128);
        let angle = cadd(time, phase);
        let x_off = fxmul(base_radius, cos_fx(angle));
        let y_off = fxmul(base_radius, sin_fx(angle));
        let x = cadd(nucleus_x, x_off);
        let y = cadd(nucleus_y, y_off);
        let dx = -fxmul(y_off, FRAME_TIME_FX);
        let dy = fxmul(x_off, FRAME_TIME_FX);
        (x, y, dx, dy)
    } else if subshell == 'p' {
        // Figure-eight motion rotated by the orbital's base angle.
        let ba = crate::shell::turn_fraction(orbital_idx, 3);
        let t = cadd(time, time);
        let lobe = fxmul(base_radius, 400_000);
        let f8x = fxmul(lobe, sin_fx(t));
        let f8y = fxmul(lobe, cos_fx(t));
        let cb = cos_fx(ba);
        let sb = sin_fx(ba);
        let x = cadd(nucleus_x, csub(fxmul(cb, f8x), fxmul(sb, f8y)));
        let y = cadd(nucleus_y, cadd(fxmul(sb, f8x), fxmul(cb, f8y)));
        let df8x = fxmul(f8y, 2 * FRAME_TIME_FX);
        let df8y = -fxmul(f8x, 2 * FRAME_TIME_FX);
        let dx = csub(fxmul(cb, df8x), fxmul(sb, df8y));
        let dy = cadd(fxmul(sb, df8x), fxmul(cb, df8y));
        (x, y, dx, dy)
    } else if subshell == 'd' {
        // Petal motion: radius modulated by the cosine of five times the
        // phase, rotated by the orbital's base angle.
        let ba = crate::shell::turn_fraction(orbital_idx, 5);
        let pa = cadd(time, dti64(time, 2));
        assert(-0x4000_0000_0000_0000_0000_0000_0000_0000 <= 5 * pa as int
            <= 0x4000_0000_0000_0000_0000_0000_0000_0000);
        let pa5 = clamp128(5 * pa as i128);
        let ang = cadd(ba, pa);
        let petal = fxmul(base_radius, 600_000);
        let r = fxmul(petal, cadd(SCALE, dti64(cos_fx(pa5), 2)));
        let x = cadd(nucleus_x, fxmul(r, cos_fx(ang)));
        let y = cadd(nucleus_y, fxmul(r, sin_fx(ang)));
        let radial = fxmul(fxmul(petal, sin_fx(pa5)), 187_500);
        let angular = fxmul(r, 75_000);
        let dx = -cadd(fxmul(radial, cos_fx(ang)), fxmul(angular, sin_fx(ang)));
        let dy = csub(fxmul(angular, cos_fx(ang)), fxmul(radial, sin_fx(ang)));
        (x, y, dx, dy)
    } else if subshell == 'f' {
        // Two counter-rotating circular terms at different radii and rates.
        let ba = crate::shell::turn_fraction(orbital_idx, 7);
        let ca = cadd(time, dti64(time, 5));
        let a1 = cadd(ba, ca);
        let a2 = csub(ba, cadd(ca, dti64(ca, 2)));
        let r1 = fxmul(base_radius, 400_000);
        let r2 = fxmul(base_radius, 300_000);
        let x1_off = fxmul(r1, cos_fx(a1));
        let x2_off = fxmul(r2, cos_fx(a2));
        let y1_off = fxmul(r1, sin_fx(a1));
        let y2_off = fxmul(r2, sin_fx(a2));
        let x = cadd(nucleus_x, cadd(x1_off, x2_off));
        let y = cadd(nucleus_y, cadd(y1_off, y2_off));
        let dx = csub(fxmul(y2_off, 90_000), fxmul(y1_off, 60_000));
        let dy = csub(fxmul(x1_off, 60_000), fxmul(x2_off, 90_000));
        (x, y, dx, dy)
    } else {
        // Default circular motion.
        let x_off = fxmul(base_radius, cos_fx(time));
        let y_off = fxmul(base_radius, sin_fx(time));
        let x = cadd(nucleus_x, x_off);
        let y = cadd(nucleus_y, y_off);
        let dx = -fxmul(y_off, FRAME_TIME_FX);
        let dy = fxmul(x_off, FRAME_TIME_FX);
        (x, y, dx, dy)
    }
}


/// Position and velocity override for a neutron orbiting its host proton:
/// held at a fixed ring radius of 45 units along the current host-to-self
/// direction, with a fixed tangential speed of 2.5 added to the host's
/// velocity.
pub open spec fn spec_nucleon_orbit(
    px: int,
    py: int,
    pdx: int,
    pdy: int,
    nx: int,
    ny: int,
) -> (int, int, int, int) {
    let dx = nx - px;
    let dy = ny - py;
    let dist = {
        let d = sqrt_of(dx * dx + dy * dy);
        if d < SCALE {
            SCALE as int
        } else {
            d
        }
    };
    let ux = spec_fxdiv(dx, dist);
    let uy = spec_fxdiv(dy, dist);
    let x = clamped(px + spec_fxmul(45 * SCALE, ux));
    let y = clamped(py + spec_fxmul(45 * SCALE, uy));
    let ndx = clamped(pdx - spec_fxmul(2_500_000, uy));
    let ndy = clamped(pdy + spec_fxmul(2_500_000, ux));
    (x, y, ndx, ndy)
}


/// Computes the circular override for one nucleon frame from the host's
/// position and velocity and the orbiter's position.
pub fn nucleon_orbit(px: i64, py: i64, pdx: i64, pdy: i64, nx: i64, ny: i64) -> (r: (
    i64,
    i64,
    i64,
    i64,
))
    requires
        -LIMIT <= px <= LIMIT,
        -LIMIT <= py <= LIMIT,
        -LIMIT <= nx <= LIMIT,
        -LIMIT <= ny <= LIMIT,
    ensures
        (r.0 as int, r.1 as int, r.2 as int, r.3 as int) == spec_nucleon_orbit(
            px as int,
            py as int,
            pdx as int,
            pdy as int,
            nx as int,
            ny as int,
        ),
{
    let dx: i64 = nx - px;
    let dy: i64 = ny - py;
    assert(0 <= dx as int * dx as int <= 4_000_000_000_000_000_000_000_000_000_000 && 0 <= dy
        as int * dy as int <= 4_000_000_000_000_000_000_000_000_000_000) by (nonlinear_arith)
        requires
            -2_000_000_000_000_000 <= dx <= 2_000_000_000_000_000,
            -2_000_000_000_000_000 <= dy <= 2_000_000_000_000_000,
    ;
    let d2: u128 = (dx as i128 * dx as i128) as u128 + (dy as i128 * dy as i128) as u128;
    let d0 = isqrt(d2);
    assert(d0 <= 3_000_000_000_000_000) by (nonlinear_arith)
        requires
            d0 as int * d0 as int <= 8_000_000_000_000_000_000_000_000_000_000,
            d0 >= 0,
    ;
    let dist: i64 = if (d0 as i64) < SCALE {
        SCALE
    } else {
        d0 as i64
    };
    let ux = fxdiv(dx, dist);
    let uy = fxdiv(dy, dist);
    let x = cadd(px, fxmul(45 * SCALE, ux));
    let y = cadd(py, fxmul(45 * SCALE, uy));
    let ndx = csub(pdx, fxmul(2_500_000, uy));
    let ndy = cadd(pdy, fxmul(2_500_000, ux));
    (x, y, ndx, ndy)
}

} // verus!
