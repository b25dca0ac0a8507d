//! A toy 2D "atomic" particle simulation: protons, neutrons and electrons
//! interacting under simplified nuclear, electrostatic and orbital-assignment
//! rules, stepped frame by frame.
//!
//! All quantities are fixed-point numbers: an `i64` counts millionths of a
//! simulation unit (see [`fixed::SCALE`]). Every step of the pipeline — force
//! accumulation, kinematic integration, capture evaluation, orbital motion and
//! boundary reflection — is specified exactly over that integer model and
//! verified.
//!
//! [`SimulationEngine`] is the host-facing facade: engine lifecycle, particle
//! insertion, per-field tunable setters, and flat-record snapshots of the
//! particles and the detected nuclei. Rendering is a consumer of those
//! snapshots and lives outside the library.

use vstd::prelude::*;

pub mod fixed;
pub mod nucleus;
pub mod orbit;
pub mod particle;
pub mod physics;
pub mod shell;
pub mod simulation;

verus! {

use crate::fixed::clamped;
use crate::nucleus::{spec_detect_nuclei, views_of};
use crate::particle::{Particle, ParticleType};
use crate::physics::PhysicsParams;
use crate::simulation::{spec_update_pipeline, spec_with_nucleus, Simulation};

/// The particle kind a host's integer code selects: 0 is a proton, 1 a
/// neutron, everything else an electron.
pub open spec fn spec_kind_of_code(code: int) -> ParticleType {
    if code == 0 {
        ParticleType::Proton
    } else if code == 1 {
        ParticleType::Neutron
    } else {
        ParticleType::Electron
    }
}

/// Flat per-particle snapshot record: position, kind code (0 proton,
/// 1 neutron, 2 electron) and radius.
#[derive(Clone, Copy, Debug, PartialEq, Eq, Structural)]
pub struct ParticleData {
    pub x: i64,
    pub y: i64,
    pub kind: u32,
    pub radius: i64,
}

/// Flat per-nucleus snapshot record: member counts by kind.
#[derive(Clone, Copy, Debug, PartialEq, Eq, Structural)]
pub struct NucleusData {
    pub protons: usize,
    pub neutrons: usize,
    pub electrons: usize,
}

/// Snapshot code of a particle kind.
pub open spec fn spec_code_of_kind(t: ParticleType) -> int {
    match t {
        ParticleType::Proton => 0,
        ParticleType::Neutron => 1,
        ParticleType::Electron => 2,
    }
}

/// The host-facing engine: owns one [`Simulation`] and exposes its lifecycle,
/// insertion helpers, tunable setters and snapshots.
pub struct SimulationEngine {
    pub simulation: Simulation,
}

impl SimulationEngine {
    /// The engine is well formed whenever its simulation is.
    pub open spec fn wf(self) -> bool {
        self.simulation.wf()
    }

    pub fn new(canvas_width: i64, canvas_height: i64) -> (engine: SimulationEngine)
        ensures
            engine.wf(),
            engine.simulation.particles@.len() == 0,
            engine.simulation.canvas_width == crate::simulation::spec_canvas_clamp(
                canvas_width as int,
            ),
            engine.simulation.canvas_height == crate::simulation::spec_canvas_clamp(
                canvas_height as int,
            ),
            engine.simulation.params == crate::physics::spec_default_params(),
            engine.simulation.time_step == 0,
    {
        SimulationEngine { simulation: Simulation::new(canvas_width, canvas_height) }
    }

    /// Runs one full simulation step.
    pub fn update(&mut self)
        requires
            old(self).wf(),
        ensures
            final(self).wf(),
            final(self).simulation.particles@ == spec_update_pipeline(old(self).simulation),
            final(self).simulation.time_step == clamped(old(self).simulation.time_step + crate::orbit::FRAME_TIME_FX),
            final(self).simulation.canvas_width == old(self).simulation.canvas_width,
            final(self).simulation.canvas_height == old(self).simulation.canvas_height,
            final(self).simulation.params == old(self).simulation.params,
    {
        self.simulation.update();
    }

    /// Inserts one particle at rest; the kind comes from the host's integer
    /// code.
    pub fn add_particle(&mut self, x: i64, y: i64, particle_type: u32)
        requires
            old(self).wf(),
        ensures
            final(self).wf(),
            final(self).simulation.particles@ == old(self).simulation.particles@.push(
                Particle::spec_new(
                    x as int,
                    y as int,
                    spec_kind_of_code(particle_type as int),
                    old(self).simulation.spec_mass_for(spec_kind_of_code(particle_type as int)),
                ),
            ),
            final(self).simulation.params == old(self).simulation.params,
            final(self).simulation.canvas_width == old(self).simulation.canvas_width,
            final(self).simulation.canvas_height == old(self).simulation.canvas_height,
            final(self).simulation.time_step == old(self).simulation.time_step,
    {
        let ptype = match particle_type {
            0 => ParticleType::Proton,
            1 => ParticleType::Neutron,
            2 => ParticleType::Electron,
            _ => ParticleType::Electron,
        };
        self.simulation.add_particle(x, y, ptype);
    }

    /// Inserts one particle with an initial velocity.
    pub fn add_particle_with_velocity(
        &mut self,
        x: i64,
        y: i64,
        particle_type: u32,
        dx: i64,
        dy: i64,
    )
        requires
            old(self).wf(),
        ensures
            final(self).wf(),
            final(self).simulation.particles@ == old(self).simulation.particles@.push(
                (Particle {
                    dx: clamped(dx as int) as i64,
                    dy: clamped(dy as int) as i64,
                    ..Particle::spec_new(
                        x as int,
                        y as int,
                        spec_kind_of_code(particle_type as int),
                        old(self).simulation.spec_mass_for(
                            spec_kind_of_code(particle_type as int),
                        ),
                    )
                }),
            ),
            final(self).simulation.params == old(self).simulation.params,
            final(self).simulation.canvas_width == old(self).simulation.canvas_width,
            final(self).simulation.canvas_height == old(self).simulation.canvas_height,
            final(self).simulation.time_step == old(self).simulation.time_step,
    {
        let ptype = match particle_type {
            0 => ParticleType::Proton,
            1 => ParticleType::Neutron,
            2 => ParticleType::Electron,
            _ => ParticleType::Electron,
        };
        self.simulation.add_particle_with_velocity(x, y, ptype, dx, dy);
    }

    /// Inserts a neutral nucleus batch.
    pub fn add_nucleus(&mut self, x: i64, y: i64, protons: usize, neutrons: usize, electrons: usize)
        requires
            old(self).wf(),
        ensures
            final(self).wf(),
            final(self).simulation.particles@ == spec_with_nucleus(
                old(self).simulation,
                x as int,
                y as int,
                protons as int,
                neutrons as int,
                electrons as int,
            ),
            final(self).simulation.params == old(self).simulation.params,
            final(self).simulation.canvas_width == old(self).simulation.canvas_width,
            final(self).simulation.canvas_height == old(self).simulation.canvas_height,
            final(self).simulation.time_step == old(self).simulation.time_step,
    {
        self.simulation.add_nucleus(x, y, protons, neutrons, electrons);
    }

    /// Inserts a nucleus batch with an ionic charge annotation. The charge
    /// only affects what a host displays, never the simulated particles.
    pub fn add_ion(
        &mut self,
        x: i64,
        y: i64,
        protons: usize,
        neutrons: usize,
        electrons: usize,
        charge: i32,
    )
        requires
            old(self).wf(),
        ensures
            final(self).wf(),
            final(self).simulation.particles@ == spec_with_nucleus(
                old(self).simulation,
                x as int,
                y as int,
                protons as int,
                neutrons as int,
                electrons as int,
            ),
            final(self).simulation.params == old(self).simulation.params,
            final(self).simulation.canvas_width == old(self).simulation.canvas_width,
            final(self).simulation.canvas_height == old(self).simulation.canvas_height,
            final(self).simulation.time_step == old(self).simulation.time_step,
    {
        self.simulation.add_nucleus_with_charge(x, y, protons, neutrons, electrons, charge);
    }

    /// Removes every particle.
    pub fn clear(&mut self)
        requires
            old(self).wf(),
        ensures
            final(self).wf(),
            final(self).simulation.particles@.len() == 0,
            final(self).simulation.params == old(self).simulation.params,
            final(self).simulation.canvas_width == old(self).simulation.canvas_width,
            final(self).simulation.canvas_height == old(self).simulation.canvas_height,
            final(self).simulation.time_step == old(self).simulation.time_step,
    {
        self.simulation.clear();
    }

    pub fn set_nuclear_force(&mut self, force: i64)
        requires
            old(self).wf(),
        ensures
            final(self).wf(),
            final(self).simulation == (Simulation {
                params: PhysicsParams { nuclear_force: force, ..old(self).simulation.params },
                ..old(self).simulation
            }),
    {
        self.simulation.params.nuclear_force = force;
    }

    pub fn set_nuclear_range(&mut self, range: i64)
        requires
            old(self).wf(),
        ensures
            final(self).wf(),
            final(self).simulation == (Simulation {
                params: PhysicsParams { nuclear_range: range, ..old(self).simulation.params },
                ..old(self).simulation
            }),
    {
        self.simulation.params.nuclear_range = range;
    }

    pub fn set_nuclear_attractive(&mut self, force: i64)
        requires
            old(self).wf(),
        ensures
            final(self).wf(),
            final(self).simulation == (Simulation {
                params: PhysicsParams { nuclear_attractive: force, ..old(self).simulation.params },
                ..old(self).simulation
            }),
    {
        self.simulation.params.nuclear_attractive = force;
    }

    pub fn set_nuclear_damping(&mut self, damping: i64)
        requires
            old(self).wf(),
        ensures
            final(self).wf(),
            final(self).simulation == (Simulation {
                params: PhysicsParams { nuclear_damping: damping, ..old(self).simulation.params },
                ..old(self).simulation
            }),
    {
        self.simulation.params.nuclear_damping = damping;
    }

    pub fn set_proton_repulsion(&mut self, repulsion: i64)
        requires
            old(self).wf(),
        ensures
            final(self).wf(),
            final(self).simulation == (Simulation {
                params: PhysicsParams {
                    proton_repulsion: repulsion,
                    ..old(self).simulation.params
                },
                ..old(self).simulation
            }),
    {
        self.simulation.params.proton_repulsion = repulsion;
    }

    pub fn set_coulomb_force(&mut self, force: i64)
        requires
            old(self).wf(),
        ensures
            final(self).wf(),
            final(self).simulation == (Simulation {
                params: PhysicsParams { coulomb_force: force, ..old(self).simulation.params },
                ..old(self).simulation
            }),
    {
        self.simulation.params.coulomb_force = force;
    }

    pub fn set_orbital_speed(&mut self, speed: i64)
        requires
            old(self).wf(),
        ensures
            final(self).wf(),
            final(self).simulation == (Simulation {
                params: PhysicsParams { orbital_speed: speed, ..old(self).simulation.params },
                ..old(self).simulation
            }),
    {
        self.simulation.params.orbital_speed = speed;
    }

    pub fn set_orbital_radius(&mut self, radius: i64)
        requires
            old(self).wf(),
        ensures
            final(self).wf(),
            final(self).simulation == (Simulation {
                params: PhysicsParams { orbital_radius: radius, ..old(self).simulation.params },
                ..old(self).simulation
            }),
    {
        self.simulation.params.orbital_radius = radius;
    }

    pub fn set_min_orbital_radius(&mut self, radius: i64)
        requires
            old(self).wf(),
        ensures
            final(self).wf(),
            final(self).simulation == (Simulation {
                params: PhysicsParams {
                    min_orbital_radius: radius,
                    ..old(self).simulation.params
                },
                ..old(self).simulation
            }),
    {
        self.simulation.params.min_orbital_radius = radius;
    }

    pub fn set_max_orbital_radius(&mut self, radius: i64)
        requires
            old(self).wf(),
        ensures
            final(self).wf(),
            final(self).simulation == (Simulation {
                params: PhysicsParams {
                    max_orbital_radius: radius,
                    ..old(self).simulation.params
                },
                ..old(self).simulation
            }),
    {
        self.simulation.params.max_orbital_radius = radius;
    }

    pub fn set_electron_repulsion(&mut self, repulsion: i64)
        requires
            old(self).wf(),
        ensures
            final(self).wf(),
            final(self).simulation == (Simulation {
                params: PhysicsParams {
                    electron_repulsion: repulsion,
                    ..old(self).simulation.params
                },
                ..old(self).simulation
            }),
    {
        self.simulation.params.electron_repulsion = repulsion;
    }

    pub fn set_nuclear_mass(&mut self, mass: i64)
        requires
            old(self).wf(),
        ensures
            final(self).wf(),
            final(self).simulation == (Simulation {
                params: PhysicsParams { nuclear_mass: mass, ..old(self).simulation.params },
                ..old(self).simulation
            }),
    {
        self.simulation.params.nuclear_mass = mass;
    }

    pub fn set_electron_mass(&mut self, mass: i64)
        requires
            old(self).wf(),
        ensures
            final(self).wf(),
            final(self).simulation == (Simulation {
                params: PhysicsParams { electron_mass: mass, ..old(self).simulation.params },
                ..old(self).simulation
            }),
    {
        self.simulation.params.electron_mass = mass;
    }

    pub fn set_electron_damping(&mut self, damping: i64)
        requires
            old(self).wf(),
        ensures
            final(self).wf(),
            final(self).simulation == (Simulation {
                params: PhysicsParams { electron_damping: damping, ..old(self).simulation.params },
                ..old(self).simulation
            }),
    {
        self.simulation.params.electron_damping = damping;
    }

    pub fn get_particle_count(&self) -> (count: usize)
        ensures
            count == self.simulation.particles@.len(),
    {
        self.simulation.particles.len()
    }

    /// Flat snapshot of the particle at `index`, or `None` when the index is
    /// out of range — never a failure.
    pub fn get_particle_data(&self, index: usize) -> (data: Option<ParticleData>)
        ensures
            data is Some <==> index < self.simulation.particles@.len(),
            data matches Some(d) ==> {
                let p = self.simulation.particles@[index as int];
                d.x == p.x && d.y == p.y && d.kind == spec_code_of_kind(p.ptype) && d.radius
                    == p.radius
            },
    {
        if index < self.simulation.particles.len() {
            let particle = &self.simulation.particles[index];
            Some(
                ParticleData {
                    x: particle.x,
                    y: particle.y,
                    kind: match particle.ptype {
                        ParticleType::Proton => 0,
                        ParticleType::Neutron => 1,
                        ParticleType::Electron => 2,
                    },
                    radius: particle.radius,
                },
            )
        } else {
            None
        }
    }

    /// Flat snapshot of the currently detected nuclei: member counts per
    /// grouping, in detection order.
    pub fn get_nuclei_data(&self) -> (data: Vec<NucleusData>)
        requires
            self.wf(),
        ensures
            data@.len() == spec_detect_nuclei(self.simulation.particles@).len(),
            forall|k: int|
                0 <= k < data@.len() ==> {
                    let nu = spec_detect_nuclei(self.simulation.particles@)[k];
                    (#[trigger] data@[k]).protons == nu.protons.len() && data@[k].neutrons
                        == nu.neutrons.len() && data@[k].electrons == nu.electrons.len()
                },
    {
        let nuclei = self.simulation.detect_nuclei();
        let ghost views = spec_detect_nuclei(self.simulation.particles@);
        let mut data: Vec<NucleusData> = Vec::new();
        let mut k: usize = 0;
        while k < nuclei.len()
            invariant
                views_of(nuclei@) == views,
                nuclei@.len() == views.len(),
                k <= nuclei@.len(),
                data@.len() == k,
                forall|t: int|
                    0 <= t < k ==> {
                        let nu = views[t];
                        (#[trigger] data@[t]).protons == nu.protons.len() && data@[t].neutrons
                            == nu.neutrons.len() && data@[t].electrons == nu.electrons.len()
                    },
            decreases nuclei@.len() - k,
        {
            let nucleus = &nuclei[k];
            proof {
                assert(views_of(nuclei@)[k as int] == nuclei@[k as int]@);
            }
            data.push(
                NucleusData {
                    protons: nucleus.protons.len(),
                    neutrons: nucleus.neutrons.len(),
                    electrons: nucleus.electrons.len(),
                },
            );
            k += 1;
        }
        data
    }
}

} // verus!
