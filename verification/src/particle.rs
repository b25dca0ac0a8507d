//! The point particle: kinematic state, kind-dependent attributes and the
//! quantum-assignment fields, with per-frame boundary reflection.

use vstd::prelude::*;

verus! {

use crate::fixed::{
    cadd, clamped, fxmul, isqrt, spec_fxmul, sqrt_of, LIMIT, SCALE,
};

#[derive(Clone, Copy, Debug, PartialEq, Eq, Structural)]
pub enum ParticleType {
    Proton,
    Neutron,
    Electron,
}

/// A quantum slot: subshell kind (`'s'`, `'p'`, `'d'` or `'f'`), principal
/// level, orbital index within the subshell, and slot position within the
/// orbital.
#[derive(Clone, Copy, Debug, PartialEq, Eq, Structural)]
pub struct OrbitalSlot {
    pub subshell: char,
    pub level: usize,
    pub orbital: usize,
    pub slot: usize,
}

/// A mutable point entity. Positions, velocities, radius, charge and mass are
/// fixed-point values in millionths of a unit.
#[derive(Clone, Copy, Debug)]
pub struct Particle {
    pub x: i64,
    pub y: i64,
    pub dx: i64,
    pub dy: i64,
    pub ptype: ParticleType,
    pub radius: i64,
    pub charge: i64,
    pub mass: i64,
    /// Index of the proton this particle orbits, once captured.
    pub orbiting_around: Option<usize>,
    /// Quantum slot of a captured electron.
    pub orbital_position: Option<OrbitalSlot>,
}

/// Radius of a particle of the given kind: 20 units for nucleons, 10 for
/// electrons.
pub open spec fn spec_radius_of(t: ParticleType) -> int {
    match t {
        ParticleType::Proton => 20 * SCALE as int,
        ParticleType::Neutron => 20 * SCALE as int,
        ParticleType::Electron => 10 * SCALE as int,
    }
}

/// Charge of a particle of the given kind: one positive unit for protons,
/// one negative for electrons, none for neutrons.
pub open spec fn spec_charge_of(t: ParticleType) -> int {
    match t {
        ParticleType::Proton => SCALE as int,
        ParticleType::Neutron => 0,
        ParticleType::Electron => -SCALE as int,
    }
}

impl Particle {
    /// Kinematic state and attributes stay inside the fixed-point range.
    pub open spec fn bounded(self) -> bool {
        &&& -LIMIT <= self.x <= LIMIT
        &&& -LIMIT <= self.y <= LIMIT
        &&& -LIMIT <= self.dx <= LIMIT
        &&& -LIMIT <= self.dy <= LIMIT
        &&& 0 <= self.radius <= 100 * SCALE
    }

    /// Well-formed particle: bounded, kind-consistent attributes, and a
    /// quantum slot only on electrons.
    pub open spec fn wf(self) -> bool {
        &&& self.bounded()
        &&& self.radius == spec_radius_of(self.ptype)
        &&& self.charge == spec_charge_of(self.ptype)
        &&& self.orbital_position is Some ==> self.ptype == ParticleType::Electron
    }

    /// A fresh particle value at rest, with kind-determined radius and
    /// charge, its position saturated into the representable range.
    pub open spec fn spec_new(x: int, y: int, ptype: ParticleType, mass: int) -> Particle {
        Particle {
            x: clamped(x) as i64,
            y: clamped(y) as i64,
            dx: 0,
            dy: 0,
            ptype,
            radius: spec_radius_of(ptype) as i64,
            charge: spec_charge_of(ptype) as i64,
            mass: mass as i64,
            orbiting_around: None,
            orbital_position: None,
        }
    }

    /// A particle at rest with kind-determined radius and charge; the given
    /// position is saturated into the representable range.
    pub fn new(x: i64, y: i64, ptype: ParticleType, mass: i64) -> (p: Particle)
        ensures
            p == Particle::spec_new(x as int, y as int, ptype, mass as int),
            p.wf(),
    {
        let (radius, charge): (i64, i64) = match ptype {
            ParticleType::Proton => (20 * SCALE, SCALE),
            ParticleType::Neutron => (20 * SCALE, 0),
            ParticleType::Electron => (10 * SCALE, -SCALE),
        };
        Particle {
            x: cadd(x, 0),
            y: cadd(y, 0),
            dx: 0,
            dy: 0,
            ptype,
            radius,
            charge,
            mass,
            orbiting_around: None,
            orbital_position: None,
        }
    }

    /// One kinematic frame: advance by the velocity, reflect elastically off
    /// the four canvas edges (position clamped to the edge minus the radius,
    /// the perpendicular velocity component sign-flipped), then damp.
    pub open spec fn spec_step(self, w: int, h: int, damping: int) -> Particle {
        let x0 = clamped(self.x + self.dx);
        let y0 = clamped(self.y + self.dy);
        let (x1, dx1): (int, int) = if x0 + self.radius > w {
            (clamped(w - self.radius), -self.dx)
        } else {
            (x0, self.dx as int)
        };
        let (x2, dx2): (int, int) = if x1 - self.radius < 0 {
            (self.radius as int, -dx1)
        } else {
            (x1, dx1)
        };
        let (y1, dy1): (int, int) = if y0 + self.radius > h {
            (clamped(h - self.radius), -self.dy)
        } else {
            (y0, self.dy as int)
        };
        let (y2, dy2): (int, int) = if y1 - self.radius < 0 {
            (self.radius as int, -dy1)
        } else {
            (y1, dy1)
        };
        Particle {
            x: x2 as i64,
            y: y2 as i64,
            dx: spec_fxmul(dx2, damping) as i64,
            dy: spec_fxmul(dy2, damping) as i64,
            ..self
        }
    }

    pub fn update(&mut self, canvas_width: i64, canvas_height: i64, damping: i64)
        requires
            old(self).bounded(),
        ensures
            *final(self) == old(self).spec_step(
                canvas_width as int,
                canvas_height as int,
                damping as int,
            ),
            final(self).bounded(),
            final(self).ptype == old(self).ptype,
            final(self).radius == old(self).radius,
            final(self).charge == old(self).charge,
            final(self).mass == old(self).mass,
            final(self).orbiting_around == old(self).orbiting_around,
            final(self).orbital_position == old(self).orbital_position,
    {
        self.x = cadd(self.x, self.dx);
        self.y = cadd(self.y, self.dy);

        // Elastic collisions with the four edges.
        if self.x + self.radius > canvas_width {
            self.x = cadd(canvas_width, -self.radius);
            self.dx = -self.dx;
        }
        if self.x - self.radius < 0 {
            self.x = self.radius;
            self.dx = -self.dx;
        }
        if self.y + self.radius > canvas_height {
            self.y = cadd(canvas_height, -self.radius);
            self.dy = -self.dy;
        }
        if self.y - self.radius < 0 {
            self.y = self.radius;
            self.dy = -self.dy;
        }

        self.dx = fxmul(self.dx, damping);
        self.dy = fxmul(self.dy, damping);
    }

    /// Boundary reflection law: a particle driven past a canvas edge in one
    /// frame has, in that same frame, its position clamped to the edge minus
    /// its radius (or to the radius at the near edge) and the perpendicular
    /// velocity component sign-flipped before damping. Stated for a canvas
    /// that can hold the particle, so the two opposite edges cannot both
    /// trigger in one frame.
    pub proof fn lemma_boundary_reflection(self, w: int, h: int, damping: int)
        requires
            self.bounded(),
            2 * self.radius <= w,
            2 * self.radius <= h,
        ensures
            ({
                let q = self.spec_step(w, h, damping);
                let x0 = clamped(self.x + self.dx);
                let y0 = clamped(self.y + self.dy);
                &&& (x0 + self.radius > w ==> q.x == clamped(w - self.radius) && q.dx
                    == spec_fxmul(-self.dx, damping))
                &&& (x0 + self.radius <= w && x0 - self.radius < 0 ==> q.x == self.radius && q.dx
                    == spec_fxmul(-self.dx, damping))
                &&& (x0 + self.radius <= w && x0 - self.radius >= 0 ==> q.x == x0 && q.dx
                    == spec_fxmul(self.dx as int, damping))
                &&& (y0 + self.radius > h ==> q.y == clamped(h - self.radius) && q.dy
                    == spec_fxmul(-self.dy, damping))
                &&& (y0 + self.radius <= h && y0 - self.radius < 0 ==> q.y == self.radius && q.dy
                    == spec_fxmul(-self.dy, damping))
                &&& (y0 + self.radius <= h && y0 - self.radius >= 0 ==> q.y == y0 && q.dy
                    == spec_fxmul(self.dy as int, damping))
            }),
    {
    }

    /// Euclidean distance, as the integer square root of the squared
    /// separation.
    pub open spec fn spec_distance_to(self, other: Particle) -> int {
        let dx = other.x - self.x;
        let dy = other.y - self.y;
        sqrt_of(dx * dx + dy * dy)
    }

    pub fn distance_to(&self, other: &Particle) -> (d: i64)
        requires
            self.bounded(),
            other.bounded(),
        ensures
            d == self.spec_distance_to(*other),
            0 <= d <= 3 * LIMIT,
    {
        let dx: i128 = other.x as i128 - self.x as i128;
        let dy: i128 = other.y as i128 - self.y as i128;
        assert(0 <= dx * dx <= 4_000_000_000_000_000_000_000_000_000_000 && 0 <= dy * dy
            <= 4_000_000_000_000_000_000_000_000_000_000) by (nonlinear_arith)
            requires
                -2_000_000_000_000_000 <= dx <= 2_000_000_000_000_000,
                -2_000_000_000_000_000 <= dy <= 2_000_000_000_000_000,
        ;
        let d2: u128 = (dx * dx) as u128 + (dy * dy) as u128;
        let r = isqrt(d2);
        assert(r as int * r as int <= d2);
        assert(r <= 3_000_000_000_000_000) by (nonlinear_arith)
            requires
                r as int * r as int <= 8_000_000_000_000_000_000_000_000_000_000,
                r >= 0,
        ;
        r as i64
    }
}

} // verus!
