//! Nucleus detection: a single greedy pass that clusters proximal nucleons
//! around not-yet-grouped protons, in particle-list order. Nucleons within
//! the capture radius are consumed by the first group that reaches them;
//! electrons are listed as loosely associated and never consumed.

use vstd::prelude::*;

verus! {

use crate::fixed::SCALE;
use crate::particle::{Particle, ParticleType};

/// Capture radius for grouping, in fixed-point subunits: 100 units.
pub const GROUP_RADIUS: i64 = 100_000_000;

/// An ephemeral grouping of particle indices: the protons and neutrons that
/// form the cluster, and the electrons loosely associated with its anchor.
#[derive(Debug, Clone, PartialEq)]
pub struct Nucleus {
    pub protons: Vec<usize>,
    pub neutrons: Vec<usize>,
    pub electrons: Vec<usize>,
}

/// Spec-level shadow of a [`Nucleus`].
pub ghost struct NucleusView {
    pub protons: Seq<usize>,
    pub neutrons: Seq<usize>,
    pub electrons: Seq<usize>,
}

impl View for Nucleus {
    type V = NucleusView;

    open spec fn view(&self) -> NucleusView {
        NucleusView {
            protons: self.protons@,
            neutrons: self.neutrons@,
            electrons: self.electrons@,
        }
    }
}

/// Whether particle `j` lies within the grouping radius of anchor `i`.
pub open spec fn spec_within_group_radius(ps: Seq<Particle>, i: int, j: int) -> bool {
    ps[i].spec_distance_to(ps[j]) < GROUP_RADIUS
}

/// State threaded through one anchor's scan: the group gathered so far and
/// the consumed-particle mask.
pub ghost struct GroupScan {
    pub group: NucleusView,
    pub used: Seq<bool>,
}

/// One anchor's scan step over candidate `j`.
pub open spec fn spec_group_step(ps: Seq<Particle>, i: int, j: int, st: GroupScan) -> GroupScan {
    if st.used[j] || i == j {
        st
    } else if spec_within_group_radius(ps, i, j) {
        match ps[j].ptype {
            ParticleType::Proton => GroupScan {
                group: NucleusView { protons: st.group.protons.push(j as usize), ..st.group },
                used: st.used.update(j, true),
            },
            ParticleType::Neutron => GroupScan {
                group: NucleusView { neutrons: st.group.neutrons.push(j as usize), ..st.group },
                used: st.used.update(j, true),
            },
            ParticleType::Electron => GroupScan {
                group: NucleusView { electrons: st.group.electrons.push(j as usize), ..st.group },
                used: st.used,
            },
        }
    } else {
        st
    }
}

/// Scan all candidates from `j` up for the group anchored at `i`.
pub open spec fn spec_group_scan(ps: Seq<Particle>, i: int, j: int, st: GroupScan) -> GroupScan
    decreases ps.len() - j,
{
    if j < 0 || j >= ps.len() {
        st
    } else {
        spec_group_scan(ps, i, j + 1, spec_group_step(ps, i, j, st))
    }
}

/// Fresh scan state for the group anchored at `i`: the anchor is its first
/// proton and is consumed.
pub open spec fn spec_group_start(i: int, used: Seq<bool>) -> GroupScan {
    GroupScan {
        group: NucleusView {
            protons: seq![i as usize],
            neutrons: Seq::empty(),
            electrons: Seq::empty(),
        },
        used: used.update(i, true),
    }
}

/// The full detection pass from anchor candidate `i` on.
pub open spec fn spec_detect_from(
    ps: Seq<Particle>,
    i: int,
    used: Seq<bool>,
    acc: Seq<NucleusView>,
) -> Seq<NucleusView>
    decreases ps.len() - i,
{
    if i < 0 || i >= ps.len() {
        acc
    } else if ps[i].ptype != ParticleType::Proton || used[i] {
        spec_detect_from(ps, i + 1, used, acc)
    } else {
        let st = spec_group_scan(ps, i, 0, spec_group_start(i, used));
        spec_detect_from(ps, i + 1, st.used, acc.push(st.group))
    }
}

/// The detected groupings of a particle list, in proton list order.
pub open spec fn spec_detect_nuclei(ps: Seq<Particle>) -> Seq<NucleusView> {
    spec_detect_from(ps, 0, Seq::new(ps.len(), |k: int| false), Seq::empty())
}

/// Detection reads the particle list without mutating it, so two passes over
/// the same list always yield identical groupings.
pub proof fn lemma_detect_idempotent(
    ps: Seq<Particle>,
    first: Seq<NucleusView>,
    second: Seq<NucleusView>,
)
    requires
        first == spec_detect_nuclei(ps),
        second == spec_detect_nuclei(ps),
    ensures
        first == second,
{
}

/// The spec-level views of a list of groupings.
pub open spec fn views_of(nuclei: Seq<Nucleus>) -> Seq<NucleusView> {
    nuclei.map_values(|nu: Nucleus| nu@)
}

/// Greedy grouping pass over the particle list.
pub fn detect_nuclei_in(particles: &Vec<Particle>) -> (nuclei: Vec<Nucleus>)
    requires
        forall|k: int| 0 <= k < particles@.len() ==> (#[trigger] particles@[k]).bounded(),
    ensures
        views_of(nuclei@) == spec_detect_nuclei(particles@),
{
    let ghost ps = particles@;
    let n = particles.len();
    let mut nuclei: Vec<Nucleus> = Vec::new();
    let mut used: Vec<bool> = Vec::new();
    for _k in 0..n
        invariant
            used@.len() == _k,
            forall|t: int| 0 <= t < _k ==> !(#[trigger] used@[t]),
    {
        used.push(false);
    }
    proof {
        assert(used@ =~= Seq::new(ps.len(), |k: int| false));
        assert(views_of(nuclei@) =~= Seq::<NucleusView>::empty());
    }

    let mut i: usize = 0;
    while i < n
        invariant
            n == ps.len(),
            particles@ == ps,
            used@.len() == n,
            i <= n,
            forall|k: int| 0 <= k < n ==> (#[trigger] ps[k]).bounded(),
            spec_detect_from(ps, i as int, used@, views_of(nuclei@)) == spec_detect_nuclei(ps),
        decreases n - i,
    {
        let ghost used0 = used@;
        let ghost acc0 = views_of(nuclei@);
        let anchor_is_free_proton = matches!(particles[i].ptype, ParticleType::Proton) && !used[i];
        if anchor_is_free_proton {
            let mut nucleus = Nucleus {
                protons: Vec::new(),
                neutrons: Vec::new(),
                electrons: Vec::new(),
            };
            nucleus.protons.push(i);
            used[i] = true;
            proof {
                assert(nucleus@.protons =~= seq![i as usize]);
                assert(nucleus@.neutrons =~= Seq::<usize>::empty());
                assert(nucleus@.electrons =~= Seq::<usize>::empty());
                assert(used@ =~= used0.update(i as int, true));
                assert(GroupScan { group: nucleus@, used: used@ } == spec_group_start(
                    i as int,
                    used0,
                ));
            }

            // Gather nearby particles for this anchor.
            let ghost st0 = GroupScan { group: nucleus@, used: used@ };
            let mut j: usize = 0;
            while j < n
                invariant
                    n == ps.len(),
                    particles@ == ps,
                    used@.len() == n,
                    j <= n,
                    i < n,
                    forall|k: int| 0 <= k < n ==> (#[trigger] ps[k]).bounded(),
                    spec_group_scan(
                        ps,
                        i as int,
                        j as int,
                        GroupScan { group: nucleus@, used: used@ },
                    ) == spec_group_scan(ps, i as int, 0, st0),
                decreases n - j,
            {
                let ghost st_now = GroupScan { group: nucleus@, used: used@ };
                if !used[j] && i != j {
                    let distance = particles[i].distance_to(&particles[j]);
                    if distance < GROUP_RADIUS {
                        match particles[j].ptype {
                            ParticleType::Proton => {
                                nucleus.protons.push(j);
                                used[j] = true;
                            },
                            ParticleType::Neutron => {
                                nucleus.neutrons.push(j);
                                used[j] = true;
                            },
                            ParticleType::Electron => {
                                nucleus.electrons.push(j);
                            },
                        }
                    }
                }
                assert(GroupScan { group: nucleus@, used: used@ } == spec_group_step(
                    ps,
                    i as int,
                    j as int,
                    st_now,
                ));
                j += 1;
            }
            let ghost st_final = GroupScan { group: nucleus@, used: used@ };
            nuclei.push(nucleus);
            proof {
                assert(st_final == spec_group_scan(ps, i as int, 0, st0));
                assert(views_of(nuclei@) =~= acc0.push(st_final.group));
                assert(spec_detect_from(ps, i as int, used0, acc0) == spec_detect_from(
                    ps,
                    i as int + 1,
                    st_final.used,
                    acc0.push(st_final.group),
                ));
            }
        } else {
            proof {
                assert(spec_detect_from(ps, i as int, used0, acc0) == spec_detect_from(
                    ps,
                    i as int + 1,
                    used0,
                    acc0,
                ));
            }
        }
        i += 1;
    }
    nuclei
}

} // verus!
