//! The swarm that searches on its own.

use vstd::prelude::*;
use crate::number::negated;
use crate::optimizer_config::JobConfig;
use crate::particle::{Particle, ParticleState};
use crate::record::{Best, Record};
use crate::space_ranger::{SpaceRanger, Walls};
use crate::swarm::{
    adopt, adopted, adopted_heads_the_swarm, falls_due, heads, initialise_particles,
    move_particle, particles_fit, progress, progress_after, recruits, samples_fit,
    score_particles, scored_all, stall_after, states, top_record, Progress,
};
use crate::swarm_config::SwarmConfig;

verus! {

/// What a [`SwarmIndependant`] holds, as a mathematical value.
pub struct Loner {
    pub name: Seq<char>,
    /// The local, tribal, global and inertial weights.
    pub motion_coeffs: Seq<u64>,
    /// The inertial growth factor.
    pub igf: u64,
    /// The factor by which a velocity is multiplied at a wall.
    pub wbf: u64,
    /// Every how many iterations the swarm reports; `None` for never.
    pub uce: Option<usize>,
    pub particles: Seq<ParticleState>,
    pub num_particles: nat,
    /// The swarm's best record.
    pub record: Best,
}

/// A swarm that searches on its own.
pub struct SwarmIndependant {
    name: String,
    motion_coeffs: [u64; 4],
    _igf: u64,
    wbf: u64,
    uce: Option<usize>,
    particles: Vec<Particle>,
    num_particles: usize,
    record: Record,
}

impl View for SwarmIndependant {
    type V = Loner;

    closed spec fn view(&self) -> Loner {
        Loner {
            name: self.name@,
            motion_coeffs: self.motion_coeffs@,
            igf: self._igf,
            wbf: self.wbf,
            uce: self.uce,
            particles: states(self.particles@),
            num_particles: self.num_particles as nat,
            record: self.record@,
        }
    }
}

impl SwarmIndependant {
    /// A swarm called `name` that will hold `num_particles` particles and move
    /// them as `config` says.
    pub fn new(
        name: String,
        config: &SwarmConfig,
        update_console_every: Option<usize>,
        num_particles: usize,
    ) -> (r: Self)
        ensures
            r@ == (Loner {
                name: name@,
                motion_coeffs: config@.motion_coeffs,
                igf: config@.igf,
                wbf: negated(config@.wbf),
                uce: update_console_every,
                particles: Seq::empty(),
                num_particles: num_particles as nat,
                record: Best::blank(1),
            }),
    {
        let r = SwarmIndependant {
            name,
            motion_coeffs: config.motion_coeffs(),
            _igf: config.inertial_growth_factor(),
            wbf: config.wall_bounce_factor(),
            uce: update_console_every,
            particles: Vec::with_capacity(num_particles),
            num_particles,
            record: Record::blank(1),
        };
        assert(r@.particles =~= Seq::empty());
        r
    }

    /// Whether the swarm is in the middle of a job over `num_variables`
    /// dimensions: it has all its particles, and they belong to that space.
    pub open spec fn ready(&self, num_variables: nat) -> bool {
        &&& particles_fit(self@.particles, self@.num_particles, num_variables)
        &&& self@.num_particles >= 1
    }

    /// Begins a job: blanks the swarm's record, adds a particle for each of
    /// `samples`, and returns the bound enforcement of the job's space.
    pub fn start(&mut self, job_config: &JobConfig, samples: &Vec<(Vec<u64>, Vec<u64>)>) -> (r:
        SpaceRanger)
        ensures
            final(self)@ == (Loner {
                record: Best::blank(job_config.num_variables as nat),
                particles: old(self)@.particles + recruits(
                    samples@,
                    job_config.num_variables as nat,
                ),
                ..old(self)@
            }),
            r@ == (Walls {
                num_variables: job_config.num_variables as nat,
                pos_ranges: job_config.pos_bounds@,
                vel_ranges: job_config.vel_bounds@,
                wbf: old(self)@.wbf,
            }),
            job_config.wf() ==> r.wf(),
            old(self)@.particles.len() == 0 && samples@.len() == old(self)@.num_particles
                && samples@.len() >= 1 && samples_fit(samples@, job_config.num_variables as nat)
                ==> final(self).ready(job_config.num_variables as nat),
            old(self)@.particles.len() == 0 ==> heads(final(self)@.record, final(self)@.particles),
    {
        self.record = Record::blank(job_config.num_variables);
        initialise_particles(&mut self.particles, job_config.num_variables, samples);
        SpaceRanger::new(
            job_config.num_variables,
            &job_config.pos_bounds,
            &job_config.vel_bounds,
            self.wbf,
        )
    }

    /// Puts particle `i` where it moved to and enforces the bounds on it.
    /// `rebound` holds each velocity of `moved` times the wall-bounce factor.
    pub fn move_particle(
        &mut self,
        i: usize,
        space_ranger: &SpaceRanger,
        moved: Vec<u64>,
        rebound: &Vec<u64>,
    )
        requires
            i < old(self)@.particles.len(),
            space_ranger.wf(),
            moved@.len() == 2 * space_ranger@.num_variables,
            rebound@.len() == space_ranger@.num_variables,
        ensures
            final(self)@ == (Loner {
                particles: old(self)@.particles.update(
                    i as int,
                    ParticleState {
                        pos_vel: space_ranger@.constrained(moved@, rebound@),
                        ..old(self)@.particles[i as int]
                    },
                ),
                ..old(self)@
            }),
            old(self).ready(space_ranger@.num_variables) ==> final(self).ready(
                space_ranger@.num_variables,
            ),
            heads(old(self)@.record, old(self)@.particles) ==> heads(
                final(self)@.record,
                final(self)@.particles,
            ),
    {
        move_particle(&mut self.particles, i, space_ranger, moved, rebound);
    }

    /// Ends an iteration. `costs` holds the cost at each particle's position.
    /// Every particle takes note of its cost; the front runner's record becomes
    /// the swarm's where it is the better one; and `no_new_record_count` goes
    /// down by one, though not below zero, where the swarm's record improved,
    /// and up by one where it did not.
    pub fn update_particles(&mut self, costs: &Vec<u64>, no_new_record_count: &mut i128)
        requires
            old(self)@.particles.len() == costs@.len(),
            costs@.len() >= 1,
            forall|k: int|
                0 <= k < old(self)@.particles.len() ==> (#[trigger] old(self)@.particles[k]).wf(),
            i128::MIN < *old(no_new_record_count) < i128::MAX,
        ensures
            final(self)@ == old(self)@.after_costs(costs@),
            *final(no_new_record_count) == stall_after(
                *old(no_new_record_count) as int,
                top_record(old(self)@.particles, costs@, old(self)@.record).precedes(
                    old(self)@.record,
                ),
            ),
            forall|num_variables: nat| #[trigger]
                old(self).ready(num_variables) ==> final(self).ready(num_variables),
            heads(old(self)@.record, old(self)@.particles) ==> heads(
                final(self)@.record,
                final(self)@.particles,
            ),
    {
        proof {
            if heads(old(self)@.record, old(self)@.particles) {
                adopted_heads_the_swarm(old(self)@.particles, costs@, old(self)@.record);
            }
        }
        let best_cost: u64 = self.record.get_cost();
        proof {
            let given = old(self)@.particles;
            assert(states(self.particles@) == given);
            assert forall|k: int| 0 <= k < self.particles@.len() implies (
            #[trigger] self.particles@[k])@.wf() by {
                assert(given[k].wf());
            }
        }
        let best_cost_index = score_particles(&mut self.particles, costs, best_cost);
        proof {
            let scored = scored_all(old(self)@.particles, costs@);
            assert(states(self.particles@) == scored);
            assert(self.particles@.len() == scored.len());
            assert(scored[best_cost_index as int] == self.particles@[best_cost_index as int]@);
            assert forall|k: int| 0 <= k < costs@.len() implies (#[trigger] states(
                self.particles@,
            )[k]).wf() by {
                assert(self.particles@[k]@.wf());
            }
        }
        let top_record = self.particles[best_cost_index].get_record();
        adopt(&mut self.record, top_record, no_new_record_count);
    }

    /// Whether the console is to be updated after iteration `itteration`,
    /// counted from 0.
    pub fn console_due(&self, itteration: usize) -> (r: bool)
        requires
            itteration < usize::MAX,
        ensures
            r == match self@.uce {
                Some(update_period) => falls_due(itteration, update_period),
                None => false,
            },
    {
        match self.uce {
            Some(update_period) => update_period > 0 && (itteration + 1) % update_period == 0,
            None => false,
        }
    }

    /// How the swarm goes on after iteration `itteration` of the job: it stops
    /// as soon as its best cost is below the job's exit cost, and with the last
    /// iteration otherwise.
    pub fn progress(&self, itteration: usize, job_config: &JobConfig) -> (r: Progress)
        ensures
            r == progress_after(
                self@.record.cost,
                job_config.exit_cost,
                itteration,
                job_config.max_itterations,
            ),
    {
        progress(
            self.record.get_cost(),
            job_config.exit_cost,
            itteration,
            job_config.max_itterations,
        )
    }

    /// The swarm's name.
    pub fn name(&self) -> (r: &String)
        ensures
            r@ == self@.name,
    {
        &self.name
    }

    /// The local, tribal, global and inertial weights.
    pub fn motion_coeffs(&self) -> (r: [u64; 4])
        ensures
            r@ == self@.motion_coeffs,
    {
        self.motion_coeffs
    }

    /// The number of particles that the swarm is to hold.
    pub fn num_particles(&self) -> (r: usize)
        ensures
            r == self@.num_particles,
    {
        self.num_particles
    }

    /// Particle `i`.
    pub fn particle(&self, i: usize) -> (r: &Particle)
        requires
            i < self@.particles.len(),
        ensures
            r@ == self@.particles[i as int],
    {
        &self.particles[i]
    }

    /// A copy of the swarm's best record.
    pub fn record(&self) -> (r: Record)
        ensures
            r@ == self@.record,
    {
        self.record.clone()
    }
}

impl Loner {
    /// The swarm at the end of an iteration in which `costs` were found.
    pub open spec fn after_costs(self, costs: Seq<u64>) -> Loner {
        Loner {
            particles: scored_all(self.particles, costs),
            record: adopted(self.particles, costs, self.record),
            ..self
        }
    }
}

} // verus!
