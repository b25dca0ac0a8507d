//! The simulation engine: owns the particle collection and the tunables and
//! drives the per-step pipeline — force accumulation, capture evaluation,
//! orbital overrides, then integration with boundary reflection.

use vstd::prelude::*;

verus! {

use crate::fixed::{
    cadd, clamped, cmuldiv, csub, dti, lemma_dti_neg, spec_fxdiv, spec_fxmul, spec_muldiv, LIMIT,
    SCALE,
};
use crate::nucleus::{detect_nuclei_in, spec_detect_nuclei, views_of, Nucleus};
use crate::particle::{Particle, ParticleType};
use crate::physics::{
    spec_coulomb_force, spec_default_params, spec_nuclear_force, Physics, PhysicsParams,
};

/// Canvas extents are kept nonnegative and in the fixed-point range.
pub open spec fn spec_canvas_clamp(v: int) -> int {
    if v < 0 {
        0
    } else if v > LIMIT {
        LIMIT as int
    } else {
        v
    }
}

pub struct Simulation {
    pub particles: Vec<Particle>,
    pub canvas_width: i64,
    pub canvas_height: i64,
    pub params: PhysicsParams,
    /// Simulation-time accumulator for continuous electron motion.
    pub time_step: i64,
}

/// The orbit back-reference of particle `k`, when set, names a live proton.
pub open spec fn spec_host_ok(ps: Seq<Particle>, k: int) -> bool {
    ps[k].orbiting_around matches Some(h) ==> h < ps.len() && ps[h as int].ptype
        == ParticleType::Proton
}

/// Appending a particle with no orbit back-reference keeps every
/// back-reference valid.
proof fn lemma_push_free_host_ok(ps0: Seq<Particle>, ps1: Seq<Particle>)
    requires
        forall|k: int| 0 <= k < ps0.len() ==> #[trigger] spec_host_ok(ps0, k),
        ps1.len() == ps0.len() + 1,
        forall|k: int| 0 <= k < ps0.len() ==> ps1[k] == ps0[k],
        ps1[ps0.len() as int].orbiting_around is None,
    ensures
        forall|k: int| 0 <= k < ps1.len() ==> #[trigger] spec_host_ok(ps1, k),
{
    assert forall|k: int| 0 <= k < ps1.len() implies #[trigger] spec_host_ok(ps1, k) by {
        if k < ps0.len() {
            assert(spec_host_ok(ps0, k));
        }
    };
}

/// Appending a particle whose back-reference, if any, names a live proton
/// keeps every back-reference valid.
proof fn lemma_push_host_ok(ps0: Seq<Particle>, ps1: Seq<Particle>)
    requires
        forall|k: int| 0 <= k < ps0.len() ==> #[trigger] spec_host_ok(ps0, k),
        ps1.len() == ps0.len() + 1,
        forall|k: int| 0 <= k < ps0.len() ==> ps1[k] == ps0[k],
        ps1[ps0.len() as int].orbiting_around matches Some(h) ==> h < ps0.len() && ps0[h as int].ptype
            == ParticleType::Proton,
    ensures
        forall|k: int| 0 <= k < ps1.len() ==> #[trigger] spec_host_ok(ps1, k),
{
    assert forall|k: int| 0 <= k < ps1.len() implies #[trigger] spec_host_ok(ps1, k) by {
        if k < ps0.len() {
            assert(spec_host_ok(ps0, k));
        }
    };
}

/// Whether a particle kind is a nucleon.
pub open spec fn spec_is_nucleon(t: ParticleType) -> bool {
    t == ParticleType::Proton || t == ParticleType::Neutron
}

/// Separation of a pair, floored at one unit to avoid singularities.
pub open spec fn spec_pair_dist(pi: Particle, pj: Particle) -> int {
    let d0 = pi.spec_distance_to(pj);
    if d0 < SCALE {
        SCALE as int
    } else {
        d0
    }
}

/// Net scalar force magnitude on an ordered pair: nuclear attraction between
/// nucleons, extra proton-proton repulsion, the electrostatic term between
/// charged particles, and extra electron-electron repulsion.
pub open spec fn spec_pair_scalar(pi: Particle, pj: Particle, params: PhysicsParams) -> int {
    let dist = spec_pair_dist(pi, pj);
    let f1: int = if spec_is_nucleon(pi.ptype) && spec_is_nucleon(pj.ptype) {
        clamped(0 + spec_nuclear_force(dist, params))
    } else {
        0
    };
    let f2: int = if pi.ptype == ParticleType::Proton && pj.ptype == ParticleType::Proton {
        clamped(f1 - spec_fxdiv(params.proton_repulsion as int, dist + 100_000))
    } else {
        f1
    };
    let f3: int = if pi.charge != 0 && pj.charge != 0 {
        clamped(
            f2 + spec_coulomb_force(
                dist,
                pi.charge as int,
                pj.charge as int,
                params.coulomb_force as int,
            ),
        )
    } else {
        f2
    };
    if pi.ptype == ParticleType::Electron && pj.ptype == ParticleType::Electron {
        clamped(f3 - spec_fxdiv(params.electron_repulsion as int, dist + 100_000))
    } else {
        f3
    }
}

/// The planar force on `pi` from the pair `(pi, pj)`: the scalar magnitude
/// projected onto the separation direction.
pub open spec fn spec_pair_force(pi: Particle, pj: Particle, params: PhysicsParams) -> (int, int) {
    let dist = spec_pair_dist(pi, pj);
    let f = spec_pair_scalar(pi, pj, params);
    (spec_muldiv(f, pj.x - pi.x, dist), spec_muldiv(f, pj.y - pi.y, dist))
}

/// Net force on particle `i` accumulated over partners below `j`, saturating
/// at each addition.
#[verifier::opaque]
pub open spec fn spec_net_force(ps: Seq<Particle>, params: PhysicsParams, i: int, j: int) -> (
    int,
    int,
)
    decreases j,
{
    if j <= 0 {
        (0, 0)
    } else {
        let (ax, ay) = spec_net_force(ps, params, i, j - 1);
        if j - 1 == i {
            (ax, ay)
        } else {
            let (fx, fy) = spec_pair_force(ps[i], ps[j - 1], params);
            (clamped(ax + fx), clamped(ay + fy))
        }
    }
}

/// Particle `i` after the force pass: its net force, over its mass, added to
/// its velocity.
pub open spec fn spec_apply_net(ps: Seq<Particle>, params: PhysicsParams, i: int) -> Particle {
    let fxy = spec_net_force(ps, params, i, ps.len() as int);
    let p = ps[i];
    Particle {
        dx: clamped(p.dx + spec_fxdiv(fxy.0, p.mass as int)) as i64,
        dy: clamped(p.dy + spec_fxdiv(fxy.1, p.mass as int)) as i64,
        ..p
    }
}

/// Force pairs are antisymmetric: the force on `i` from the pair `(i, j)` is
/// the exact negation of the force on `j` from the same pair.
pub proof fn lemma_pair_force_antisymmetric(pi: Particle, pj: Particle, params: PhysicsParams)
    ensures
        spec_pair_force(pj, pi, params).0 == -spec_pair_force(pi, pj, params).0,
        spec_pair_force(pj, pi, params).1 == -spec_pair_force(pi, pj, params).1,
{
    assert((pi.x - pj.x) * (pi.x - pj.x) == (pj.x - pi.x) * (pj.x - pi.x) && (pi.y - pj.y) * (pi.y
        - pj.y) == (pj.y - pi.y) * (pj.y - pi.y)) by (nonlinear_arith);
    assert(pj.spec_distance_to(pi) == pi.spec_distance_to(pj));
    let dist = spec_pair_dist(pi, pj);
    assert(spec_pair_dist(pj, pi) == dist);
    assert(89875 * pj.charge * pi.charge * params.coulomb_force == 89875 * pi.charge * pj.charge
        * params.coulomb_force) by (nonlinear_arith);
    assert(spec_coulomb_force(
        dist,
        pj.charge as int,
        pi.charge as int,
        params.coulomb_force as int,
    ) == spec_coulomb_force(
        dist,
        pi.charge as int,
        pj.charge as int,
        params.coulomb_force as int,
    ));
    let f = spec_pair_scalar(pi, pj, params);
    assert(spec_pair_scalar(pj, pi, params) == f);
    assert(f * (pi.x - pj.x) == -(f * (pj.x - pi.x)) && f * (pi.y - pj.y) == -(f * (pj.y - pi.y)))
        by (nonlinear_arith);
    lemma_dti_neg(f * (pj.x - pi.x), dist);
    lemma_dti_neg(dti(f * (pj.x - pi.x), dist), 0);
    lemma_dti_neg(f * (pj.y - pi.y), dist);
    lemma_dti_neg(dti(f * (pj.y - pi.y), dist), 0);
}

/// Number of electrons below index `k` that are orbit-hosted by `host`.
pub open spec fn spec_electron_count(ps: Seq<Particle>, host: usize, k: int) -> int
    decreases k,
{
    if k <= 0 {
        0
    } else {
        spec_electron_count(ps, host, k - 1) + (if ps[k - 1].orbiting_around == Some(host) && ps[k
            - 1].ptype == ParticleType::Electron {
            1int
        } else {
            0int
        })
    }
}

/// One capture evaluation over the unordered pair `(i, j)`: a free neutron
/// near a proton starts orbiting it; a free electron near a proton acquires
/// the host, and, unless it carries a pre-assigned slot, the next free
/// quantum slot keyed on the proton's current electron count. Capture is
/// monotonic: a set field is never re-evaluated.
pub open spec fn spec_capture_decision(ps: Seq<Particle>, i: int, j: int) -> Option<
    (int, Particle),
> {
    let pi = ps[i];
    let pj = ps[j];
    let dist = pi.spec_distance_to(pj);
    if (pi.ptype == ParticleType::Proton && pj.ptype == ParticleType::Neutron) || (pi.ptype
        == ParticleType::Neutron && pj.ptype == ParticleType::Proton) {
        // Proton-neutron orbit, without fusion.
        if 15 * SCALE < dist < 60 * SCALE {
            let (proton, neutron): (int, int) = if pi.ptype == ParticleType::Proton {
                (i, j)
            } else {
                (j, i)
            };
            if ps[neutron].orbiting_around is None {
                Some(
                    (neutron, Particle { orbiting_around: Some(proton as usize), ..ps[neutron] }),
                )
            } else {
                None
            }
        } else {
            None
        }
    } else if (pi.ptype == ParticleType::Electron && pj.ptype == ParticleType::Proton) || (pi.ptype
        == ParticleType::Proton && pj.ptype == ParticleType::Electron) {
        // Electron-proton capture into a quantum slot.
        let (electron, proton): (int, int) = if pi.ptype == ParticleType::Electron {
            (i, j)
        } else {
            (j, i)
        };
        if ps[electron].orbiting_around is None && 10 * SCALE < dist < 80 * SCALE {
            if ps[electron].orbital_position is Some {
                // Pre-assigned slot from nucleus construction: only associate.
                Some(
                    (
                        electron,
                        Particle { orbiting_around: Some(proton as usize), ..ps[electron] },
                    ),
                )
            } else {
                let count = spec_electron_count(ps, proton as usize, ps.len() as int);
                match crate::shell::spec_orbital_info(count) {
                    Some(slot) => Some(
                        (
                            electron,
                            Particle {
                                orbiting_around: Some(proton as usize),
                                orbital_position: Some(slot),
                                ..ps[electron]
                            },
                        ),
                    ),
                    // Shell table exhausted: the electron stays free.
                    None => None,
                }
            }
        } else {
            None
        }
    } else {
        None
    }
}

pub open spec fn spec_capture_pair(ps: Seq<Particle>, i: int, j: int) -> Seq<Particle> {
    match spec_capture_decision(ps, i, j) {
        Some(u) => ps.update(u.0, u.1),
        None => ps,
    }
}

/// Any accepted capture decision targets a live index, changes only orbit
/// fields, and fills them monotonically with a live proton host.
proof fn lemma_capture_decision(ps: Seq<Particle>, i: int, j: int)
    requires
        ps.len() <= usize::MAX,
        0 <= i < ps.len(),
        0 <= j < ps.len(),
    ensures
        spec_capture_decision(ps, i, j) matches Some(u) ==> 0 <= u.0 < ps.len() && same_but_orbit(
            ps[u.0],
            u.1,
        ) && orbit_monotone(ps, ps[u.0], u.1),
{
}

/// Fold of the capture evaluation over partners `j, j+1, ...` of anchor `i`.
pub open spec fn spec_capture_scan_j(ps: Seq<Particle>, i: int, j: int) -> Seq<Particle>
    decreases ps.len() - j,
{
    if j < 0 || j >= ps.len() {
        ps
    } else {
        let ps1 = spec_capture_pair(ps, i, j);
        if ps1.len() == ps.len() {
            spec_capture_scan_j(ps1, i, j + 1)
        } else {
            ps1
        }
    }
}

/// Fold of the capture evaluation over all index pairs `i < j`, in order.
pub open spec fn spec_capture_scan(ps: Seq<Particle>, i: int) -> Seq<Particle>
    decreases ps.len() - i,
{
    if i < 0 || i >= ps.len() {
        ps
    } else {
        let ps1 = spec_capture_scan_j(ps, i, i + 1);
        if ps1.len() == ps.len() {
            spec_capture_scan(ps1, i + 1)
        } else {
            ps1
        }
    }
}

/// One capture evaluation leaves the list length, every particle's
/// kinematic state, kind and attributes unchanged, and only ever fills
/// empty orbit fields with a valid proton host.
pub proof fn lemma_capture_pair_frame(ps: Seq<Particle>, i: int, j: int)
    requires
        ps.len() <= usize::MAX,
        0 <= i < ps.len(),
        0 <= j < ps.len(),
    ensures
        spec_capture_pair(ps, i, j).len() == ps.len(),
        forall|k: int|
            0 <= k < ps.len() ==> same_but_orbit(ps[k], #[trigger] spec_capture_pair(ps, i, j)[k]),
        forall|k: int|
            0 <= k < ps.len() ==> orbit_monotone(
                ps,
                ps[k],
                #[trigger] spec_capture_pair(ps, i, j)[k],
            ),
{
    lemma_capture_decision(ps, i, j);
    let ps1 = spec_capture_pair(ps, i, j);
    assert forall|k: int| 0 <= k < ps.len() implies same_but_orbit(ps[k], ps1[k])
        && orbit_monotone(ps, ps[k], ps1[k]) by {
        match spec_capture_decision(ps, i, j) {
            Some(u) => {
                if k != u.0 {
                    assert(ps1[k] == ps[k]);
                }
            },
            None => {},
        }
    };
}

/// Everything but the orbit-assignment fields agrees between `p0` and `p1`.
pub open spec fn same_but_orbit(p0: Particle, p1: Particle) -> bool {
    p1 == (Particle { orbiting_around: p1.orbiting_around, orbital_position: p1.orbital_position, ..p0 })
}

/// Orbit fields only go from empty to filled, and a fresh host is a live
/// proton of `ps`; a fresh slot only lands on an electron.
pub open spec fn orbit_monotone(ps: Seq<Particle>, p0: Particle, p1: Particle) -> bool {
    &&& p0.orbiting_around is Some ==> p1.orbiting_around == p0.orbiting_around
    &&& p0.orbital_position is Some ==> p1.orbital_position == p0.orbital_position
    &&& p1.orbiting_around != p0.orbiting_around ==> (p1.orbiting_around matches Some(h) && h
        < ps.len() && ps[h as int].ptype == ParticleType::Proton)
    &&& p1.orbital_position != p0.orbital_position ==> p0.ptype == ParticleType::Electron
}

/// The capture fold over one anchor's partners keeps the frame conditions of
/// [`lemma_capture_pair_frame`], transitively.
pub proof fn lemma_capture_scan_j_frame(ps: Seq<Particle>, i: int, j: int)
    requires
        ps.len() <= usize::MAX,
        0 <= i < ps.len(),
    ensures
        spec_capture_scan_j(ps, i, j).len() == ps.len(),
        forall|k: int|
            0 <= k < ps.len() ==> same_but_orbit(
                ps[k],
                #[trigger] spec_capture_scan_j(ps, i, j)[k],
            ),
        forall|k: int|
            0 <= k < ps.len() ==> orbit_monotone(
                ps,
                ps[k],
                #[trigger] spec_capture_scan_j(ps, i, j)[k],
            ),
    decreases ps.len() - j,
{
    if j < 0 || j >= ps.len() {
    } else {
        let ps1 = spec_capture_pair(ps, i, j);
        lemma_capture_pair_frame(ps, i, j);
        lemma_capture_scan_j_frame(ps1, i, j + 1);
        assert forall|k: int| 0 <= k < ps.len() implies orbit_monotone(
            ps,
            ps[k],
            #[trigger] spec_capture_scan_j(ps, i, j)[k],
        ) by {
            assert(orbit_monotone(ps, ps[k], ps1[k]));
            assert(orbit_monotone(ps1, ps1[k], spec_capture_scan_j(ps1, i, j + 1)[k]));
            assert(forall|h: int| 0 <= h < ps.len() ==> (#[trigger] ps1[h]).ptype == ps[h].ptype);
        };
    }
}

/// The full capture fold keeps the same frame conditions.
pub proof fn lemma_capture_scan_frame(ps: Seq<Particle>, i: int)
    requires
        ps.len() <= usize::MAX,
    ensures
        spec_capture_scan(ps, i).len() == ps.len(),
        forall|k: int|
            0 <= k < ps.len() ==> same_but_orbit(ps[k], #[trigger] spec_capture_scan(ps, i)[k]),
        forall|k: int|
            0 <= k < ps.len() ==> orbit_monotone(ps, ps[k], #[trigger] spec_capture_scan(ps, i)[k]),
    decreases ps.len() - i,
{
    if i < 0 || i >= ps.len() {
    } else {
        let ps1 = spec_capture_scan_j(ps, i, i + 1);
        lemma_capture_scan_j_frame(ps, i, i + 1);
        lemma_capture_scan_frame(ps1, i + 1);
        assert forall|k: int| 0 <= k < ps.len() implies orbit_monotone(
            ps,
            ps[k],
            #[trigger] spec_capture_scan(ps, i)[k],
        ) by {
            assert(orbit_monotone(ps, ps[k], ps1[k]));
            assert(orbit_monotone(ps1, ps1[k], spec_capture_scan(ps1, i + 1)[k]));
            assert(forall|h: int| 0 <= h < ps.len() ==> (#[trigger] ps1[h]).ptype == ps[h].ptype);
        };
    }
}

/// The planar force one particle of a pair exerts on the other.
fn pair_force(pi: &Particle, pj: &Particle, params: &PhysicsParams) -> (r: (i64, i64))
    requires
        pi.wf(),
        pj.wf(),
    ensures
        (r.0 as int, r.1 as int) == spec_pair_force(*pi, *pj, *params),
{
    let d0 = pi.distance_to(pj);
    let dist: i64 = if d0 < SCALE {
        SCALE
    } else {
        d0
    };

    let mut force_magnitude: i64 = 0;

    // Nuclear forces between protons and neutrons.
    let i_nucleon = matches!(pi.ptype, ParticleType::Proton | ParticleType::Neutron);
    let j_nucleon = matches!(pj.ptype, ParticleType::Proton | ParticleType::Neutron);
    if i_nucleon && j_nucleon {
        force_magnitude = cadd(
            force_magnitude,
            Physics::calculate_nuclear_force(dist, params),
        );
    }
    // Extra repulsion between protons.
    if matches!(pi.ptype, ParticleType::Proton) && matches!(pj.ptype, ParticleType::Proton) {
        force_magnitude = csub(
            force_magnitude,
            crate::fixed::fxdiv(params.proton_repulsion, dist + 100_000),
        );
    }
    // Electrostatic (Coulomb) forces.
    if pi.charge != 0 && pj.charge != 0 {
        let coulomb = Physics::calculate_coulomb_force(dist, pi.charge, pj.charge, params);
        force_magnitude = cadd(force_magnitude, coulomb);
    }
    // Extra repulsion between electrons.
    if matches!(pi.ptype, ParticleType::Electron) && matches!(pj.ptype, ParticleType::Electron) {
        force_magnitude = csub(
            force_magnitude,
            crate::fixed::fxdiv(params.electron_repulsion, dist + 100_000),
        );
    }

    let force_x = cmuldiv(force_magnitude, pj.x - pi.x, dist);
    let force_y = cmuldiv(force_magnitude, pj.y - pi.y, dist);
    (force_x, force_y)
}

impl Simulation {
    /// Every particle is well formed and every orbit back-reference names a
    /// live proton; canvas extents are nonnegative and in range.
    pub open spec fn wf(self) -> bool {
        &&& forall|k: int|
            0 <= k < self.particles@.len() ==> (#[trigger] self.particles@[k]).wf()
        &&& forall|k: int|
            0 <= k < self.particles@.len() ==> #[trigger] spec_host_ok(self.particles@, k)
        &&& 0 <= self.canvas_width <= LIMIT
        &&& 0 <= self.canvas_height <= LIMIT
    }

    pub fn new(canvas_width: i64, canvas_height: i64) -> (sim: Simulation)
        ensures
            sim.wf(),
            sim.particles@.len() == 0,
            sim.canvas_width == spec_canvas_clamp(canvas_width as int),
            sim.canvas_height == spec_canvas_clamp(canvas_height as int),
            sim.params == spec_default_params(),
            sim.time_step == 0,
    {
        let w: i64 = if canvas_width < 0 {
            0
        } else if canvas_width > LIMIT {
            LIMIT
        } else {
            canvas_width
        };
        let h: i64 = if canvas_height < 0 {
            0
        } else if canvas_height > LIMIT {
            LIMIT
        } else {
            canvas_height
        };
        Simulation {
            particles: Vec::new(),
            canvas_width: w,
            canvas_height: h,
            params: PhysicsParams::default(),
            time_step: 0,
        }
    }

    /// Mass a fresh particle of the given kind receives from the current
    /// tunables.
    pub open spec fn spec_mass_for(self, ptype: ParticleType) -> int {
        if ptype == ParticleType::Electron {
            self.params.electron_mass as int
        } else {
            self.params.nuclear_mass as int
        }
    }

    pub fn add_particle(&mut self, x: i64, y: i64, ptype: ParticleType)
        requires
            old(self).wf(),
        ensures
            final(self).wf(),
            final(self).particles@ == old(self).particles@.push(
                Particle::spec_new(x as int, y as int, ptype, old(self).spec_mass_for(ptype)),
            ),
            final(self).canvas_width == old(self).canvas_width,
            final(self).canvas_height == old(self).canvas_height,
            final(self).params == old(self).params,
            final(self).time_step == old(self).time_step,
    {
        let mass = match ptype {
            ParticleType::Proton | ParticleType::Neutron => self.params.nuclear_mass,
            ParticleType::Electron => self.params.electron_mass,
        };
        self.particles.push(Particle::new(x, y, ptype, mass));
        proof {
            lemma_push_free_host_ok(old(self).particles@, self.particles@);
        }
    }

    pub fn add_particle_with_velocity(&mut self, x: i64, y: i64, ptype: ParticleType, dx: i64, dy: i64)
        requires
            old(self).wf(),
        ensures
            final(self).wf(),
            final(self).particles@ == old(self).particles@.push(
                (Particle {
                    dx: clamped(dx as int) as i64,
                    dy: clamped(dy as int) as i64,
                    ..Particle::spec_new(x as int, y as int, ptype, old(self).spec_mass_for(ptype))
                }),
            ),
            final(self).canvas_width == old(self).canvas_width,
            final(self).canvas_height == old(self).canvas_height,
            final(self).params == old(self).params,
            final(self).time_step == old(self).time_step,
    {
        let mass = match ptype {
            ParticleType::Proton | ParticleType::Neutron => self.params.nuclear_mass,
            ParticleType::Electron => self.params.electron_mass,
        };
        let mut particle = Particle::new(x, y, ptype, mass);
        particle.dx = cadd(dx, 0);
        particle.dy = cadd(dy, 0);
        self.particles.push(particle);
        proof {
            lemma_push_free_host_ok(old(self).particles@, self.particles@);
        }
    }

    /// Builds an electrically neutral nucleus batch.
    pub fn add_nucleus(&mut self, x: i64, y: i64, protons: usize, neutrons: usize, electrons: usize)
        requires
            old(self).wf(),
        ensures
            final(self).wf(),
            final(self).particles@ == spec_with_nucleus(
                *old(self),
                x as int,
                y as int,
                protons as int,
                neutrons as int,
                electrons as int,
            ),
            final(self).canvas_width == old(self).canvas_width,
            final(self).canvas_height == old(self).canvas_height,
            final(self).params == old(self).params,
            final(self).time_step == old(self).time_step,
    {
        self.add_nucleus_with_charge(x, y, protons, neutrons, electrons, 0)
    }

    /// Builds a nucleus batch: protons and neutrons on rings around the
    /// center, electrons pre-assigned to their quantum slots and placed on
    /// their curves. The ionic charge only annotates what a host displays;
    /// it deliberately affects neither the particle count nor any force.
    pub fn add_nucleus_with_charge(
        &mut self,
        x: i64,
        y: i64,
        protons: usize,
        neutrons: usize,
        electrons: usize,
        charge: i32,
    )
        requires
            old(self).wf(),
        ensures
            final(self).wf(),
            final(self).particles@ == spec_with_nucleus(
                *old(self),
                x as int,
                y as int,
                protons as int,
                neutrons as int,
                electrons as int,
            ),
            final(self).canvas_width == old(self).canvas_width,
            final(self).canvas_height == old(self).canvas_height,
            final(self).params == old(self).params,
            final(self).time_step == old(self).time_step,
    {
        let _ = charge;
        let ghost sim0 = *old(self);
        let ghost ps0 = self.particles@;
        let proton_start = self.particles.len();
        self.add_nucleus_protons(x, y, protons);
        let ghost ps1 = self.particles@;
        self.add_nucleus_neutrons(x, y, neutrons);
        let ghost ps2 = self.particles@;
        self.add_nucleus_electrons(x, y, electrons, proton_start, protons > 0);
        proof {
            let target = spec_with_nucleus(
                sim0,
                x as int,
                y as int,
                protons as int,
                neutrons as int,
                electrons as int,
            );
            assert(self.particles@ =~= target);
        }
    }

    /// Places the batch's protons on their ring.
    fn add_nucleus_protons(&mut self, x: i64, y: i64, protons: usize)
        requires
            old(self).wf(),
        ensures
            final(self).wf(),
            final(self).particles@ == old(self).particles@ + Seq::new(
                protons as nat,
                |k: int|
                    spec_nucleus_proton(
                        x as int,
                        y as int,
                        k,
                        protons as int,
                        old(self).params.nuclear_mass as int,
                    ),
            ),
            final(self).canvas_width == old(self).canvas_width,
            final(self).canvas_height == old(self).canvas_height,
            final(self).params == old(self).params,
            final(self).time_step == old(self).time_step,
    {
        let ghost sim0 = *old(self);
        let ghost ps0 = self.particles@;
        let mut i: usize = 0;
        while i < protons
            invariant
                self.wf(),
                self.particles@.len() == ps0.len() + i,
                i <= protons,
                self.canvas_width == sim0.canvas_width,
                self.canvas_height == sim0.canvas_height,
                self.params == sim0.params,
                self.time_step == sim0.time_step,
                forall|k: int| 0 <= k < ps0.len() ==> #[trigger] self.particles@[k] == ps0[k],
                forall|k: int|
                    0 <= k < i ==> #[trigger] self.particles@[ps0.len() + k]
                        == spec_nucleus_proton(
                        x as int,
                        y as int,
                        k,
                        protons as int,
                        sim0.params.nuclear_mass as int,
                    ),
            decreases protons - i,
        {
            let angle = ring_angle(i, protons as u64);
            let px = cadd(x, crate::fixed::fxmul(crate::fixed::cos_fx(angle), 40 * SCALE));
            let py = cadd(y, crate::fixed::fxmul(crate::fixed::sin_fx(angle), 40 * SCALE));
            self.add_particle(px, py, ParticleType::Proton);
            proof {
                let target = spec_nucleus_proton(
                    x as int,
                    y as int,
                    i as int,
                    protons as int,
                    sim0.params.nuclear_mass as int,
                );
                assert(clamped(px as int) == target.x as int);
                assert(clamped(py as int) == target.y as int);
                assert(self.particles@[ps0.len() + i] == target);
            }
            i += 1;
        }
        proof {
            let target = ps0 + Seq::new(
                protons as nat,
                |k: int|
                    spec_nucleus_proton(
                        x as int,
                        y as int,
                        k,
                        protons as int,
                        sim0.params.nuclear_mass as int,
                    ),
            );
            assert forall|k: int| 0 <= k < self.particles@.len() implies self.particles@[k]
                == target[k] by {
                if k >= ps0.len() {
                    let t = k - ps0.len();
                    assert(self.particles@[ps0.len() + t] == spec_nucleus_proton(
                        x as int,
                        y as int,
                        t,
                        protons as int,
                        sim0.params.nuclear_mass as int,
                    ));
                }
            };
            assert(self.particles@ =~= target);
        }
    }

    /// Places the batch's neutrons on their wider ring.
    fn add_nucleus_neutrons(&mut self, x: i64, y: i64, neutrons: usize)
        requires
            old(self).wf(),
        ensures
            final(self).wf(),
            final(self).particles@ == old(self).particles@ + Seq::new(
                neutrons as nat,
                |k: int|
                    spec_nucleus_neutron(
                        x as int,
                        y as int,
                        k,
                        neutrons as int,
                        old(self).params.nuclear_mass as int,
                    ),
            ),
            final(self).canvas_width == old(self).canvas_width,
            final(self).canvas_height == old(self).canvas_height,
            final(self).params == old(self).params,
            final(self).time_step == old(self).time_step,
    {
        let ghost sim0 = *old(self);
        let ghost ps0 = self.particles@;
        let mut i: usize = 0;
        while i < neutrons
            invariant
                self.wf(),
                self.particles@.len() == ps0.len() + i,
                i <= neutrons,
                self.canvas_width == sim0.canvas_width,
                self.canvas_height == sim0.canvas_height,
                self.params == sim0.params,
                self.time_step == sim0.time_step,
                forall|k: int| 0 <= k < ps0.len() ==> #[trigger] self.particles@[k] == ps0[k],
                forall|k: int|
                    0 <= k < i ==> #[trigger] self.particles@[ps0.len() + k]
                        == spec_nucleus_neutron(
                        x as int,
                        y as int,
                        k,
                        neutrons as int,
                        sim0.params.nuclear_mass as int,
                    ),
            decreases neutrons - i,
        {
            let den: u64 = if neutrons < 1 {
                1
            } else {
                neutrons as u64
            };
            let angle = ring_angle(i, den);
            let px = cadd(x, crate::fixed::fxmul(crate::fixed::cos_fx(angle), 48 * SCALE));
            let py = cadd(y, crate::fixed::fxmul(crate::fixed::sin_fx(angle), 48 * SCALE));
            self.add_particle(px, py, ParticleType::Neutron);
            proof {
                let target = spec_nucleus_neutron(
                    x as int,
                    y as int,
                    i as int,
                    neutrons as int,
                    sim0.params.nuclear_mass as int,
                );
                assert(clamped(px as int) == target.x as int);
                assert(clamped(py as int) == target.y as int);
                assert(self.particles@[ps0.len() + i] == target);
            }
            i += 1;
        }
        proof {
            let target = ps0 + Seq::new(
                neutrons as nat,
                |k: int|
                    spec_nucleus_neutron(
                        x as int,
                        y as int,
                        k,
                        neutrons as int,
                        sim0.params.nuclear_mass as int,
                    ),
            );
            assert forall|k: int| 0 <= k < self.particles@.len() implies self.particles@[k]
                == target[k] by {
                if k >= ps0.len() {
                    let t = k - ps0.len();
                    assert(self.particles@[ps0.len() + t] == spec_nucleus_neutron(
                        x as int,
                        y as int,
                        t,
                        neutrons as int,
                        sim0.params.nuclear_mass as int,
                    ));
                }
            };
            assert(self.particles@ =~= target);
        }
    }

    /// Creates the batch's electrons directly in their quantum slots,
    /// anchored to the batch's first proton when there is one.
    fn add_nucleus_electrons(
        &mut self,
        x: i64,
        y: i64,
        electrons: usize,
        proton_start: usize,
        has_protons: bool,
    )
        requires
            old(self).wf(),
            has_protons ==> proton_start < old(self).particles@.len() && old(
                self,
            ).particles@[proton_start as int].ptype == ParticleType::Proton,
        ensures
            final(self).wf(),
            final(self).particles@ == old(self).particles@ + Seq::new(
                spec_electrons_created_upto(electrons as int) as nat,
                |k: int|
                    spec_nucleus_electron(
                        x as int,
                        y as int,
                        k,
                        proton_start,
                        has_protons,
                        old(self).params.electron_mass as int,
                    ),
            ),
            final(self).canvas_width == old(self).canvas_width,
            final(self).canvas_height == old(self).canvas_height,
            final(self).params == old(self).params,
            final(self).time_step == old(self).time_step,
    {
        let ghost sim0 = *old(self);
        let ghost ps0 = self.particles@;
        let electron_mass = self.params.electron_mass;
        let mut i: usize = 0;
        while i < electrons
            invariant
                self.wf(),
                has_protons ==> proton_start < ps0.len() && ps0[proton_start as int].ptype
                    == ParticleType::Proton,
                self.particles@.len() == ps0.len() + spec_electrons_created_upto(i as int),
                i <= electrons,
                electron_mass == sim0.params.electron_mass,
                self.canvas_width == sim0.canvas_width,
                self.canvas_height == sim0.canvas_height,
                self.params == sim0.params,
                self.time_step == sim0.time_step,
                forall|k: int| 0 <= k < ps0.len() ==> #[trigger] self.particles@[k] == ps0[k],
                forall|k: int|
                    0 <= k < spec_electrons_created_upto(i as int)
                        ==> #[trigger] self.particles@[ps0.len() + k] == spec_nucleus_electron(
                        x as int,
                        y as int,
                        k,
                        proton_start,
                        has_protons,
                        sim0.params.electron_mass as int,
                    ),
            decreases electrons - i,
        {
            let ghost ps_pre = self.particles@;
            match crate::shell::get_orbital_info(i) {
                Some(slot) => {
                    let pars = crate::shell::get_orbital_parameters(
                        slot.subshell,
                        slot.level,
                        slot.orbital,
                    );
                    let orbital_angle = crate::shell::get_orbital_angle(
                        slot.subshell,
                        slot.orbital,
                    );
                    let total = cadd(pars.2, orbital_angle);
                    let px = cadd(x, crate::fixed::fxmul(pars.0, crate::fixed::cos_fx(total)));
                    let py = cadd(y, crate::fixed::fxmul(pars.0, crate::fixed::sin_fx(total)));
                    let mut electron = Particle::new(px, py, ParticleType::Electron, electron_mass);
                    electron.orbital_position = Some(slot);
                    if has_protons {
                        electron.orbiting_around = Some(proton_start);
                    }
                    self.particles.push(electron);
                    proof {
                        lemma_push_host_ok(ps_pre, self.particles@);
                        let target = spec_nucleus_electron(
                            x as int,
                            y as int,
                            i as int,
                            proton_start,
                            has_protons,
                            sim0.params.electron_mass as int,
                        );
                        assert(clamped(px as int) == target.x as int);
                        assert(clamped(py as int) == target.y as int);
                        assert(self.particles@[ps0.len() + i] == target);
                    }
                },
                None => {
                    // Beyond the shell table: the request is skipped, not
                    // guessed.
                },
            }
            i += 1;
        }
        proof {
            let target = ps0 + Seq::new(
                spec_electrons_created_upto(electrons as int) as nat,
                |k: int|
                    spec_nucleus_electron(
                        x as int,
                        y as int,
                        k,
                        proton_start,
                        has_protons,
                        sim0.params.electron_mass as int,
                    ),
            );
            assert forall|k: int| 0 <= k < self.particles@.len() implies self.particles@[k]
                == target[k] by {
                if k >= ps0.len() {
                    let t = k - ps0.len();
                    assert(self.particles@[ps0.len() + t] == spec_nucleus_electron(
                        x as int,
                        y as int,
                        t,
                        proton_start,
                        has_protons,
                        sim0.params.electron_mass as int,
                    ));
                }
            };
            assert(self.particles@ =~= target);
        }
    }

    pub fn clear(&mut self)
        requires
            old(self).wf(),
        ensures
            final(self).wf(),
            final(self).particles@.len() == 0,
            final(self).canvas_width == old(self).canvas_width,
            final(self).canvas_height == old(self).canvas_height,
            final(self).params == old(self).params,
            final(self).time_step == old(self).time_step,
    {
        self.particles.clear();
    }

    /// Accumulates the pairwise net force on every particle from a snapshot
    /// of the list, then folds each into its velocity, mass-weighted.
    pub fn calculate_forces(&mut self)
        requires
            old(self).wf(),
        ensures
            final(self).wf(),
            final(self).particles@.len() == old(self).particles@.len(),
            forall|i: int|
                0 <= i < old(self).particles@.len() ==> final(self).particles@[i]
                    == spec_apply_net(old(self).particles@, old(self).params, i),
            final(self).canvas_width == old(self).canvas_width,
            final(self).canvas_height == old(self).canvas_height,
            final(self).params == old(self).params,
            final(self).time_step == old(self).time_step,
    {
        let ghost ps = self.particles@;
        let n = self.particles.len();
        let forces = all_net_forces(&self.particles, &self.params);
        let ghost params = self.params;
        let mut updated: Vec<Particle> = Vec::new();
        let mut k: usize = 0;
        while k < n
            invariant
                n == ps.len(),
                self.particles@ == ps,
                self.params == params,
                forces@.len() == n,
                k <= n,
                updated@.len() == k,
                forall|t: int|
                    0 <= t < n ==> ((#[trigger] forces@[t]).0 as int, forces@[t].1 as int)
                        == spec_net_force(ps, params, t, n as int),
                forall|t: int|
                    0 <= t < k ==> #[trigger] updated@[t] == spec_apply_net(ps, params, t),
            decreases n - k,
        {
            let (fx, fy) = (forces[k].0, forces[k].1);
            let mut p = self.particles[k];
            Physics::apply_force(&mut p, fx, fy);
            updated.push(p);
            k += 1;
        }
        self.particles = updated;
        proof {
            assert forall|t: int|
                0 <= t < n implies (#[trigger] self.particles@[t]).wf() && #[trigger] spec_host_ok(
                self.particles@,
                t,
            ) by {
                assert(self.particles@[t] == spec_apply_net(ps, params, t));
                assert(ps[t].wf());
                assert(spec_host_ok(ps, t));
                match ps[t].orbiting_around {
                    Some(h) => {
                        assert(h < n && ps[h as int].ptype == ParticleType::Proton);
                        assert(self.particles@[h as int] == spec_apply_net(ps, params, h as int));
                        assert(self.particles@[h as int].ptype == ps[h as int].ptype);
                    },
                    None => {},
                }
            };
        }
    }

    /// One capture evaluation over the pair `(i, j)`.
    fn capture_pair(&mut self, i: usize, j: usize)
        requires
            old(self).wf(),
            i < old(self).particles@.len(),
            j < old(self).particles@.len(),
            i != j,
        ensures
            final(self).wf(),
            final(self).particles@ == spec_capture_pair(old(self).particles@, i as int, j as int),
            final(self).canvas_width == old(self).canvas_width,
            final(self).canvas_height == old(self).canvas_height,
            final(self).params == old(self).params,
            final(self).time_step == old(self).time_step,
    {
        let ghost ps = self.particles@;
        let n = self.particles.len();
        let pi_type = self.particles[i].ptype;
        let pj_type = self.particles[j].ptype;
        let distance = self.particles[i].distance_to(&self.particles[j]);

        let pn_pair = (matches!(pi_type, ParticleType::Proton) && matches!(
            pj_type,
            ParticleType::Neutron,
        )) || (matches!(pi_type, ParticleType::Neutron) && matches!(
            pj_type,
            ParticleType::Proton,
        ));
        let pe_pair = (matches!(pi_type, ParticleType::Electron) && matches!(
            pj_type,
            ParticleType::Proton,
        )) || (matches!(pi_type, ParticleType::Proton) && matches!(
            pj_type,
            ParticleType::Electron,
        ));

        if pn_pair {
            // Proton-neutron orbit, without fusion.
            if 15 * SCALE < distance && distance < 60 * SCALE {
                let (proton, neutron): (usize, usize) = if matches!(
                    pi_type,
                    ParticleType::Proton,
                ) {
                    (i, j)
                } else {
                    (j, i)
                };
                if self.particles[neutron].orbiting_around.is_none() {
                    let mut p = self.particles[neutron];
                    p.orbiting_around = Some(proton);
                    self.particles[neutron] = p;
                }
            }
        } else if pe_pair {
            // Electron-proton capture into a quantum slot.
            let (electron, proton): (usize, usize) = if matches!(
                pi_type,
                ParticleType::Electron,
            ) {
                (i, j)
            } else {
                (j, i)
            };
            if self.particles[electron].orbiting_around.is_none() && 10 * SCALE < distance
                && distance < 80 * SCALE {
                if self.particles[electron].orbital_position.is_some() {
                    // Pre-assigned slot from nucleus construction: only
                    // associate the electron with this proton.
                    let mut p = self.particles[electron];
                    p.orbiting_around = Some(proton);
                    self.particles[electron] = p;
                } else {
                    // Free electron: assign the next open slot.
                    let electron_count = count_orbiting_electrons(&self.particles, proton);
                    match crate::shell::get_orbital_info(electron_count) {
                        Some(slot) => {
                            let mut p = self.particles[electron];
                            p.orbiting_around = Some(proton);
                            p.orbital_position = Some(slot);
                            self.particles[electron] = p;
                        },
                        None => {},
                    }
                }
            }
        }
        proof {
            assert(self.particles@ =~= spec_capture_pair(ps, i as int, j as int));
            lemma_capture_pair_frame(ps, i as int, j as int);
            lemma_capture_keeps_sim_wf(ps, self.particles@);
        }
    }

    /// Evaluates the capture rules over every index pair, in order, then
    /// applies the per-frame orbital overrides. No rule removes a particle:
    /// fusion-driven removal is a documented non-feature of the rule set.
    pub fn handle_fusions_and_orbits(&mut self)
        requires
            old(self).wf(),
        ensures
            final(self).wf(),
            final(self).particles@ == spec_capture_and_orbit(
                old(self).particles@,
                old(self).time_step as int,
            ),
            final(self).canvas_width == old(self).canvas_width,
            final(self).canvas_height == old(self).canvas_height,
            final(self).params == old(self).params,
            final(self).time_step == old(self).time_step,
    {
        let ghost ps0 = self.particles@;
        let n = self.particles.len();
        let mut i: usize = 0;
        while i < n
            invariant
                self.wf(),
                n == ps0.len(),
                self.particles@.len() == n,
                i <= n,
                self.canvas_width == old(self).canvas_width,
                self.canvas_height == old(self).canvas_height,
                self.params == old(self).params,
                self.time_step == old(self).time_step,
                spec_capture_scan(self.particles@, i as int) == spec_capture_scan(ps0, 0),
            decreases n - i,
        {
            let ghost ps_outer = self.particles@;
            let mut j: usize = i + 1;
            while j < n
                invariant
                    self.wf(),
                    n == ps0.len(),
                    self.particles@.len() == n,
                    i < n,
                    i < j <= n,
                    self.canvas_width == old(self).canvas_width,
                    self.canvas_height == old(self).canvas_height,
                    self.params == old(self).params,
                    self.time_step == old(self).time_step,
                    spec_capture_scan_j(self.particles@, i as int, j as int)
                        == spec_capture_scan_j(ps_outer, i as int, i as int + 1),
                decreases n - j,
            {
                let ghost ps_before = self.particles@;
                self.capture_pair(i, j);
                proof {
                    lemma_capture_pair_frame(ps_before, i as int, j as int);
                }
                j += 1;
            }
            i += 1;
        }
        self.apply_orbital_mechanics();
    }

    /// Applies the orbital overrides from a snapshot of the list: hosted
    /// neutrons ride their ring, fully assigned electrons follow their
    /// subshell curves.
    pub fn apply_orbital_mechanics(&mut self)
        requires
            old(self).wf(),
        ensures
            final(self).wf(),
            final(self).particles@.len() == old(self).particles@.len(),
            forall|k: int|
                0 <= k < old(self).particles@.len() ==> final(self).particles@[k]
                    == spec_orbital_override(old(self).particles@, old(self).time_step as int, k),
            final(self).canvas_width == old(self).canvas_width,
            final(self).canvas_height == old(self).canvas_height,
            final(self).params == old(self).params,
            final(self).time_step == old(self).time_step,
    {
        let ghost ps = self.particles@;
        let ghost time = self.time_step as int;
        let n = self.particles.len();
        let mut updated: Vec<Particle> = Vec::new();
        let mut k: usize = 0;
        while k < n
            invariant
                self.wf(),
                self.particles@ == ps,
                n == ps.len(),
                time == self.time_step as int,
                k <= n,
                updated@.len() == k,
                forall|t: int|
                    0 <= t < k ==> #[trigger] updated@[t] == spec_orbital_override(ps, time, t),
            decreases n - k,
        {
            let p = self.particles[k];
            let mut q = p;
            if matches!(p.ptype, ParticleType::Neutron) {
                // Hosted neutron: fixed-ring override around its proton.
                match p.orbiting_around {
                    Some(h) => if h < n {
                        let host = self.particles[h];
                        let o = crate::orbit::nucleon_orbit(
                            host.x,
                            host.y,
                            host.dx,
                            host.dy,
                            p.x,
                            p.y,
                        );
                        q.x = o.0;
                        q.y = o.1;
                        q.dx = o.2;
                        q.dy = o.3;
                    },
                    None => {},
                }
            } else if matches!(p.ptype, ParticleType::Electron) {
                // Fully assigned electron: parametric subshell override.
                match (p.orbiting_around, p.orbital_position) {
                    (Some(h), Some(slot)) => if h < n {
                        let host = self.particles[h];
                        let o = crate::orbit::calculate_orbital_motion(
                            host.x,
                            host.y,
                            slot.subshell,
                            slot.level,
                            slot.orbital,
                            slot.slot,
                            self.time_step,
                        );
                        q.x = o.0;
                        q.y = o.1;
                        q.dx = o.2;
                        q.dy = o.3;
                    },
                    _ => {},
                }
            }
            updated.push(q);
            proof {
                assert(updated@[k as int] == spec_orbital_override(ps, time, k as int));
            }
            k += 1;
        }
        self.particles = updated;
        proof {
            assert forall|t: int| 0 <= t < n implies (#[trigger] self.particles@[t]).wf() by {
                assert(self.particles@[t] == spec_orbital_override(ps, time, t));
                assert(ps[t].wf());
            };
            lemma_host_ok_preserved(ps, self.particles@);
        }
    }

    /// One full simulation step.
    pub fn update(&mut self)
        requires
            old(self).wf(),
        ensures
            final(self).wf(),
            final(self).particles@.len() == old(self).particles@.len(),
            final(self).particles@ == spec_update_pipeline(*old(self)),
            final(self).time_step == clamped(old(self).time_step + crate::orbit::FRAME_TIME_FX),
            // Capture is monotonic across the whole step: an acquired host or
            // slot is never cleared or changed.
            forall|k: int|
                0 <= k < old(self).particles@.len() ==> ((#[trigger] old(self).particles@[k]).orbiting_around is Some
                    ==> final(self).particles@[k].orbiting_around == old(self).particles@[k].orbiting_around),
            forall|k: int|
                0 <= k < old(self).particles@.len() ==> ((#[trigger] old(self).particles@[k]).orbital_position is Some
                    ==> final(self).particles@[k].orbital_position == old(self).particles@[k].orbital_position),
            final(self).canvas_width == old(self).canvas_width,
            final(self).canvas_height == old(self).canvas_height,
            final(self).params == old(self).params,
    {
        let ghost sim0 = *old(self);
        let ghost ps0 = self.particles@;
        let n = self.particles.len();

        // Advance continuous time for the orbital motion.
        self.time_step = cadd(self.time_step, crate::orbit::FRAME_TIME_FX);

        self.calculate_forces();
        let ghost ps1 = self.particles@;
        proof {
            assert(ps1 =~= Seq::new(ps0.len(), |i: int| spec_apply_net(ps0, sim0.params, i)));
        }

        // Detect captures and apply the orbital overrides.
        self.handle_fusions_and_orbits();
        let ghost ps3 = self.particles@;
        proof {
            lemma_capture_scan_frame(ps1, 0);
            assert(ps3.len() == n);
        }

        // Integrate every particle and reflect it off the canvas edges.
        let mut k: usize = 0;
        while k < n
            invariant
                n == ps3.len(),
                k <= n,
                self.particles@.len() == n,
                self.canvas_width == sim0.canvas_width,
                self.canvas_height == sim0.canvas_height,
                self.params == sim0.params,
                self.time_step == clamped(sim0.time_step + crate::orbit::FRAME_TIME_FX),
                0 <= self.canvas_width <= LIMIT,
                0 <= self.canvas_height <= LIMIT,
                forall|t: int| 0 <= t < n ==> (#[trigger] ps3[t]).wf(),
                forall|t: int| 0 <= t < n ==> #[trigger] spec_host_ok(ps3, t),
                forall|t: int| k <= t < n ==> #[trigger] self.particles@[t] == ps3[t],
                forall|t: int|
                    0 <= t < k ==> #[trigger] self.particles@[t] == ps3[t].spec_step(
                        sim0.canvas_width as int,
                        sim0.canvas_height as int,
                        spec_damping_for(sim0.params, ps3[t].ptype),
                    ),
            decreases n - k,
        {
            let mut p = self.particles[k];
            let damping = if matches!(p.ptype, ParticleType::Electron) {
                self.params.electron_damping
            } else {
                self.params.nuclear_damping
            };
            p.update(self.canvas_width, self.canvas_height, damping);
            self.particles[k] = p;
            k += 1;
        }

        proof {
            assert(self.particles@ =~= spec_update_pipeline(sim0));
            assert forall|t: int| 0 <= t < n implies (#[trigger] self.particles@[t]).wf() by {
                assert(ps3[t].wf());
            };
            lemma_host_ok_preserved(ps3, self.particles@);
            lemma_pipeline_monotone(sim0);
        }
    }

    /// Recomputes the current nucleus groupings from scratch.
    pub fn detect_nuclei(&self) -> (nuclei: Vec<Nucleus>)
        requires
            self.wf(),
        ensures
            views_of(nuclei@) == spec_detect_nuclei(self.particles@),
    {
        detect_nuclei_in(&self.particles)
    }
}

/// The saturating net force on every particle, from a snapshot of the list.
fn all_net_forces(particles: &Vec<Particle>, params: &PhysicsParams) -> (forces: Vec<(i64, i64)>)
    requires
        forall|k: int| 0 <= k < particles@.len() ==> (#[trigger] particles@[k]).wf(),
    ensures
        forces@.len() == particles@.len(),
        forall|k: int|
            0 <= k < particles@.len() ==> ((#[trigger] forces@[k]).0 as int, forces@[k].1 as int)
                == spec_net_force(particles@, *params, k, particles@.len() as int),
{
    let ghost ps = particles@;
    let n = particles.len();
    let mut forces: Vec<(i64, i64)> = Vec::new();
    let mut i: usize = 0;
    while i < n
        invariant
            n == ps.len(),
            particles@ == ps,
            forall|k: int| 0 <= k < n ==> (#[trigger] ps[k]).wf(),
            i <= n,
            forces@.len() == i,
            forall|k: int|
                0 <= k < i ==> ((#[trigger] forces@[k]).0 as int, forces@[k].1 as int)
                    == spec_net_force(ps, *params, k, n as int),
        decreases n - i,
    {
        let f = net_force_on(particles, params, i);
        forces.push(f);
        i += 1;
    }
    forces
}

/// The saturating sum of the pair forces on particle `i` from every other
/// particle, in list order.
fn net_force_on(particles: &Vec<Particle>, params: &PhysicsParams, i: usize) -> (r: (i64, i64))
    requires
        forall|k: int| 0 <= k < particles@.len() ==> (#[trigger] particles@[k]).wf(),
        i < particles@.len(),
    ensures
        (r.0 as int, r.1 as int) == spec_net_force(
            particles@,
            *params,
            i as int,
            particles@.len() as int,
        ),
{
    let ghost ps = particles@;
    let n = particles.len();
    let mut ax: i64 = 0;
    let mut ay: i64 = 0;
    proof {
        reveal_with_fuel(spec_net_force, 1);
    }
    let mut j: usize = 0;
    while j < n
        invariant
            n == ps.len(),
            particles@ == ps,
            forall|k: int| 0 <= k < n ==> (#[trigger] ps[k]).wf(),
            i < n,
            j <= n,
            (ax as int, ay as int) == spec_net_force(ps, *params, i as int, j as int),
        decreases n - j,
    {
        proof {
            reveal_with_fuel(spec_net_force, 2);
        }
        if j != i {
            let (fx, fy) = pair_force(&particles[i], &particles[j], params);
            ax = cadd(ax, fx);
            ay = cadd(ay, fy);
        }
        j += 1;
    }
    (ax, ay)
}


/// Electrons currently orbit-hosted by `host`, over the whole list.
fn count_orbiting_electrons(particles: &Vec<Particle>, host: usize) -> (count: usize)
    ensures
        count as int == spec_electron_count(particles@, host, particles@.len() as int),
{
    let n = particles.len();
    let mut count: usize = 0;
    let mut k: usize = 0;
    while k < n
        invariant
            n == particles@.len(),
            k <= n,
            count <= k,
            count as int == spec_electron_count(particles@, host, k as int),
        decreases n - k,
    {
        let p = &particles[k];
        let hosted = match p.orbiting_around {
            Some(h) => h == host,
            None => false,
        };
        if hosted && matches!(p.ptype, ParticleType::Electron) {
            count += 1;
        }
        k += 1;
    }
    count
}

/// Angle of point `k` on a ring split into `den` even parts.
fn ring_angle(k: usize, den: u64) -> (a: i64)
    ensures
        a == clamped(dti(k * crate::fixed::TWO_PI_FX, den as int)),
{
    assert(0 <= k as int * crate::fixed::TWO_PI_FX as int
        <= 0x4000_0000_0000_0000_0000_0000_0000_0000) by (nonlinear_arith)
        requires
            0 <= k <= 0xffff_ffff_ffff_ffff,
            crate::fixed::TWO_PI_FX == 6_283_186,
    ;
    let p: i128 = k as i128 * crate::fixed::TWO_PI_FX as i128;
    let q = crate::fixed::dti_i128(p, den as i128);
    proof {
        crate::fixed::lemma_dti_bound(p as int, den as int);
    }
    crate::fixed::clamp128(q)
}

/// A pass that only fills orbit fields monotonically with live proton hosts
/// keeps the whole collection well formed.
proof fn lemma_capture_keeps_sim_wf(ps0: Seq<Particle>, ps1: Seq<Particle>)
    requires
        ps1.len() == ps0.len(),
        forall|k: int| 0 <= k < ps0.len() ==> (#[trigger] ps0[k]).wf(),
        forall|k: int| 0 <= k < ps0.len() ==> #[trigger] spec_host_ok(ps0, k),
        forall|k: int| 0 <= k < ps0.len() ==> same_but_orbit(ps0[k], #[trigger] ps1[k]),
        forall|k: int| 0 <= k < ps0.len() ==> orbit_monotone(ps0, ps0[k], #[trigger] ps1[k]),
    ensures
        forall|k: int| 0 <= k < ps1.len() ==> (#[trigger] ps1[k]).wf(),
        forall|k: int| 0 <= k < ps1.len() ==> #[trigger] spec_host_ok(ps1, k),
{
    assert forall|k: int| 0 <= k < ps1.len() implies (#[trigger] ps1[k]).wf() && spec_host_ok(
        ps1,
        k,
    ) by {
        assert(ps0[k].wf());
        assert(spec_host_ok(ps0, k));
        assert(same_but_orbit(ps0[k], ps1[k]));
        assert(orbit_monotone(ps0, ps0[k], ps1[k]));
        if ps1[k].orbital_position is Some {
            // Whether the slot is inherited or freshly assigned, it sits on
            // an electron.
            assert(ps0[k].ptype == ParticleType::Electron);
        }
        match ps1[k].orbiting_around {
            Some(h) => {
                // Whether the host is inherited or freshly assigned, it is a
                // live proton of the pre-pass list.
                assert(h < ps0.len() && ps0[h as int].ptype == ParticleType::Proton);
                assert(same_but_orbit(ps0[h as int], ps1[h as int]));
                assert(ps1[h as int].ptype == ps0[h as int].ptype);
            },
            None => {},
        }
    };
}

/// A pass that rewrites only kinematic state keeps every orbit
/// back-reference valid.
proof fn lemma_host_ok_preserved(ps0: Seq<Particle>, ps1: Seq<Particle>)
    requires
        ps1.len() == ps0.len(),
        forall|k: int| 0 <= k < ps0.len() ==> #[trigger] spec_host_ok(ps0, k),
        forall|k: int|
            0 <= k < ps0.len() ==> (#[trigger] ps1[k]).ptype == ps0[k].ptype
                && ps1[k].orbiting_around == ps0[k].orbiting_around,
    ensures
        forall|k: int| 0 <= k < ps1.len() ==> #[trigger] spec_host_ok(ps1, k),
{
    assert forall|k: int| 0 <= k < ps1.len() implies #[trigger] spec_host_ok(ps1, k) by {
        assert(spec_host_ok(ps0, k));
    };
}

/// Post-capture override of one particle's kinematic state: a hosted
/// neutron rides its fixed ring, a fully assigned electron follows its
/// subshell curve, everything else keeps its force-integrated state.
pub open spec fn spec_orbital_override(ps: Seq<Particle>, time: int, k: int) -> Particle {
    let p = ps[k];
    if p.ptype == ParticleType::Neutron {
        match p.orbiting_around {
            Some(h) => if (h as int) < ps.len() {
                let q = ps[h as int];
                let o = crate::orbit::spec_nucleon_orbit(
                    q.x as int,
                    q.y as int,
                    q.dx as int,
                    q.dy as int,
                    p.x as int,
                    p.y as int,
                );
                Particle { x: o.0 as i64, y: o.1 as i64, dx: o.2 as i64, dy: o.3 as i64, ..p }
            } else {
                p
            },
            None => p,
        }
    } else if p.ptype == ParticleType::Electron {
        match (p.orbiting_around, p.orbital_position) {
            (Some(h), Some(slot)) => if (h as int) < ps.len() {
                let q = ps[h as int];
                let o = crate::orbit::spec_orbital_motion(
                    q.x as int,
                    q.y as int,
                    slot.subshell,
                    slot.level as int,
                    slot.orbital as int,
                    slot.slot as int,
                    time,
                );
                Particle { x: o.0 as i64, y: o.1 as i64, dx: o.2 as i64, dy: o.3 as i64, ..p }
            } else {
                p
            },
            _ => p,
        }
    } else {
        p
    }
}

/// The capture pass followed by the per-frame orbital overrides.
pub open spec fn spec_capture_and_orbit(ps: Seq<Particle>, time: int) -> Seq<Particle> {
    let ps2 = spec_capture_scan(ps, 0);
    Seq::new(ps2.len(), |k: int| spec_orbital_override(ps2, time, k))
}

/// Damping factor applied to a particle of the given kind at the end of a
/// frame.
pub open spec fn spec_damping_for(params: PhysicsParams, t: ParticleType) -> int {
    if t == ParticleType::Electron {
        params.electron_damping as int
    } else {
        params.nuclear_damping as int
    }
}

/// Proton `k` of a batch of `protons`, placed on a ring of radius 40 units
/// around the nucleus center.
pub open spec fn spec_nucleus_proton(x: int, y: int, k: int, protons: int, mass: int) -> Particle {
    let angle = clamped(dti(k * crate::fixed::TWO_PI_FX, protons));
    Particle::spec_new(
        clamped(x + spec_fxmul(crate::fixed::spec_cos(angle), 40 * SCALE)),
        clamped(y + spec_fxmul(crate::fixed::spec_sin(angle), 40 * SCALE)),
        ParticleType::Proton,
        mass,
    )
}

/// Neutron `k` of a batch of `neutrons`, placed on a slightly wider ring:
/// 48 units, one and one-fifth of the proton ring.
pub open spec fn spec_nucleus_neutron(x: int, y: int, k: int, neutrons: int, mass: int) -> Particle {
    let angle = clamped(dti(k * crate::fixed::TWO_PI_FX, if neutrons < 1 {
        1int
    } else {
        neutrons
    }));
    Particle::spec_new(
        clamped(x + spec_fxmul(crate::fixed::spec_cos(angle), 48 * SCALE)),
        clamped(y + spec_fxmul(crate::fixed::spec_sin(angle), 48 * SCALE)),
        ParticleType::Neutron,
        mass,
    )
}

/// Electron `k` of a batch, pre-placed on its quantum slot's curve and
/// already assigned the slot — and the anchor proton, when the batch has
/// protons. Slots beyond the enumerated shell table yield no electron.
pub open spec fn spec_nucleus_electron(
    x: int,
    y: int,
    k: int,
    proton_start: usize,
    has_protons: bool,
    mass: int,
) -> Particle {
    let slot = crate::shell::spec_orbital_info(k)->Some_0;
    let pars = crate::shell::spec_orbital_parameters(
        slot.subshell,
        slot.level as int,
        slot.orbital as int,
    );
    let orbital_angle = crate::shell::spec_orbital_angle(slot.subshell, slot.orbital as int);
    let total = clamped(pars.2 + orbital_angle);
    let base = Particle::spec_new(
        clamped(x + spec_fxmul(pars.0, crate::fixed::spec_cos(total))),
        clamped(y + spec_fxmul(pars.0, crate::fixed::spec_sin(total))),
        ParticleType::Electron,
        mass,
    );
    Particle {
        orbital_position: Some(slot),
        orbiting_around: if has_protons {
            Some(proton_start)
        } else {
            None
        },
        ..base
    }
}

/// Electrons created among the first `i` ordinals of a batch request.
pub open spec fn spec_electrons_created_upto(i: int) -> int {
    if i <= crate::shell::SHELL_CAPACITY {
        i
    } else {
        crate::shell::SHELL_CAPACITY as int
    }
}

/// The particle list after a nucleus batch: the old particles, then the
/// protons, then the neutrons, then the created electrons.
pub open spec fn spec_with_nucleus(
    sim: Simulation,
    x: int,
    y: int,
    protons: int,
    neutrons: int,
    electrons: int,
) -> Seq<Particle> {
    let ps0 = sim.particles@;
    let proton_start = ps0.len() as usize;
    ps0 + Seq::new(
        protons as nat,
        |k: int| spec_nucleus_proton(x, y, k, protons, sim.params.nuclear_mass as int),
    ) + Seq::new(
        neutrons as nat,
        |k: int| spec_nucleus_neutron(x, y, k, neutrons, sim.params.nuclear_mass as int),
    ) + Seq::new(
        spec_electrons_created_upto(electrons) as nat,
        |k: int|
            spec_nucleus_electron(
                x,
                y,
                k,
                proton_start,
                protons > 0,
                sim.params.electron_mass as int,
            ),
    )
}

/// Once set, a particle's orbit host and an electron's quantum slot survive
/// a full simulation step unchanged, whatever else the step does.
pub proof fn lemma_pipeline_monotone(sim: Simulation)
    requires
        sim.particles@.len() <= usize::MAX,
    ensures
        spec_update_pipeline(sim).len() == sim.particles@.len(),
        forall|k: int|
            0 <= k < sim.particles@.len() ==> ((#[trigger] sim.particles@[k]).orbiting_around is Some
                ==> spec_update_pipeline(sim)[k].orbiting_around
                == sim.particles@[k].orbiting_around),
        forall|k: int|
            0 <= k < sim.particles@.len() ==> ((#[trigger] sim.particles@[k]).orbital_position is Some
                ==> spec_update_pipeline(sim)[k].orbital_position
                == sim.particles@[k].orbital_position),
{
    let time1 = clamped(sim.time_step + crate::orbit::FRAME_TIME_FX);
    let ps0 = sim.particles@;
    let ps1 = Seq::new(ps0.len(), |i: int| spec_apply_net(ps0, sim.params, i));
    let ps2 = spec_capture_scan(ps1, 0);
    let ps3 = Seq::new(ps2.len(), |k: int| spec_orbital_override(ps2, time1, k));
    lemma_capture_scan_frame(ps1, 0);
    assert forall|k: int|
        0 <= k < ps0.len() implies ((#[trigger] ps0[k]).orbiting_around is Some
        ==> spec_update_pipeline(sim)[k].orbiting_around == ps0[k].orbiting_around) && (
    ps0[k].orbital_position is Some ==> spec_update_pipeline(sim)[k].orbital_position
        == ps0[k].orbital_position) by {
        assert(ps1[k] == spec_apply_net(ps0, sim.params, k));
        assert(ps1[k].orbiting_around == ps0[k].orbiting_around);
        assert(ps1[k].orbital_position == ps0[k].orbital_position);
        assert(orbit_monotone(ps1, ps1[k], ps2[k]));
        assert(ps3[k] == spec_orbital_override(ps2, time1, k));
        assert(ps3[k].orbiting_around == ps2[k].orbiting_around);
        assert(ps3[k].orbital_position == ps2[k].orbital_position);
        assert(spec_update_pipeline(sim)[k] == ps3[k].spec_step(
            sim.canvas_width as int,
            sim.canvas_height as int,
            spec_damping_for(sim.params, ps3[k].ptype),
        ));
    };
}

/// The full per-step pipeline over a snapshot of the engine: advance time,
/// accumulate and integrate forces, evaluate captures, override orbiters,
/// then advance, reflect and damp every particle.
pub open spec fn spec_update_pipeline(sim: Simulation) -> Seq<Particle> {
    let time1 = clamped(sim.time_step + crate::orbit::FRAME_TIME_FX);
    let ps0 = sim.particles@;
    let ps1 = Seq::new(ps0.len(), |i: int| spec_apply_net(ps0, sim.params, i));
    let ps3 = spec_capture_and_orbit(ps1, time1);
    Seq::new(
        ps3.len(),
        |k: int|
            ps3[k].spec_step(
                sim.canvas_width as int,
                sim.canvas_height as int,
                spec_damping_for(sim.params, ps3[k].ptype),
            ),
    )
}

} // verus!
