//! The swarm that shares its best record with the other swarms of its job,
//! and the rules of that sharing: when a swarm tries for the shared record,
//! what it does once it holds it, and what it does when it cannot have it.

use vstd::prelude::*;
use crate::number::negated;
use crate::optimizer_config::JobConfig;
use crate::particle::{Particle, ParticleState};
use crate::record::{Best, Record};
use crate::space_ranger::{SpaceRanger, Walls};
use crate::swarm::{
    adopt, adopted, adopted_heads_the_swarm, falls_due, heads, initialise_particles,
    move_particle, particles_fit, progress, progress_after, recruits, samples_fit,
    score_particles, scored_all, stall_after, states, top_record, Progress,
};
use crate::swarm_config::SwarmConfig;

verus! {

/// What a [`SwarmColaborative`] holds, as a mathematical value.
pub struct Ally {
    pub name: Seq<char>,
    /// The local, tribal, global and inertial weights.
    pub motion_coeffs: Seq<u64>,
    /// The inertial growth factor.
    pub igf: u64,
    /// The factor by which a velocity is multiplied at a wall.
    pub wbf: u64,
    /// Every how many iterations the swarm shares its best record.
    pub tgse: usize,
    /// Every how many iterations the swarm reports; `None` for never.
    pub uce: Option<usize>,
    pub particles: Seq<ParticleState>,
    pub num_particles: nat,
    /// The swarm's own best record.
    pub tribal_record: Best,
    /// The best record of all swarms, as this swarm last saw it.
    pub global_record: Best,
}

impl Ally {
    /// The swarm at the end of an iteration in which `costs` were found,
    /// before it shares anything.
    pub open spec fn after_costs(self, costs: Seq<u64>) -> Ally {
        Ally {
            particles: scored_all(self.particles, costs),
            tribal_record: adopted(self.particles, costs, self.tribal_record),
            ..self
        }
    }

    /// Whether the swarm is to try to share after iteration `itteration`: the
    /// sharing period has come round, or an earlier try is still owed.
    pub open spec fn share_due(self, itteration: usize, try_agian: bool) -> bool {
        falls_due(itteration, self.tgse) || try_agian
    }

    /// The swarm after it held the shared record, which read `shared`: it now
    /// sees the better of `shared` and its own record as the global one.
    pub open spec fn after_sharing(self, shared: Best) -> Ally {
        Ally {
            global_record: if self.tribal_record.precedes(shared) {
                self.tribal_record
            } else {
                shared
            },
            ..self
        }
    }
}

/// A swarm that shares its best record with the other swarms of its job.
pub struct SwarmColaborative {
    name: String,
    motion_coeffs: [u64; 4],
    _igf: u64,
    wbf: u64,
    tgse: usize,
    uce: Option<usize>,
    particles: Vec<Particle>,
    num_particles: usize,
    tribal_record: Record,
    global_record: Record,
}

impl View for SwarmColaborative {
    type V = Ally;

    closed spec fn view(&self) -> Ally {
        Ally {
            name: self.name@,
            motion_coeffs: self.motion_coeffs@,
            igf: self._igf,
            wbf: self.wbf,
            tgse: self.tgse,
            uce: self.uce,
            particles: states(self.particles@),
            num_particles: self.num_particles as nat,
            tribal_record: self.tribal_record@,
            global_record: self.global_record@,
        }
    }
}

impl SwarmColaborative {
    /// A swarm called `name` that will hold `num_particles` particles and move
    /// and share as `config`, a collaborative configuration, says.
    pub fn new(
        name: String,
        config: &SwarmConfig,
        update_console_every: Option<usize>,
        num_particles: usize,
    ) -> (r: Self)
        requires
            config@.tgse.is_some(),
        ensures
            r@ == (Ally {
                name: name@,
                motion_coeffs: config@.motion_coeffs,
                igf: config@.igf,
                wbf: negated(config@.wbf),
                tgse: config@.tgse.unwrap(),
                uce: update_console_every,
                particles: Seq::empty(),
                num_particles: num_particles as nat,
                tribal_record: Best::blank(1),
                global_record: Best::blank(1),
            }),
    {
        let r = SwarmColaborative {
            name,
            motion_coeffs: config.motion_coeffs(),
            _igf: config.inertial_growth_factor(),
            wbf: config.wall_bounce_factor(),
            tgse: config.tribal_global_share_every(),
            uce: update_console_every,
            particles: Vec::with_capacity(num_particles),
            num_particles,
            tribal_record: Record::blank(1),
            global_record: Record::blank(1),
        };
        assert(r@.particles =~= Seq::empty());
        r
    }

    /// Whether the swarm is in the middle of a job over `num_variables`
    /// dimensions: it has all its particles, and they belong to that space.
    pub open spec fn ready(&self, num_variables: nat) -> bool {
        &&& particles_fit(self@.particles, self@.num_particles, num_variables)
        &&& self@.num_particles >= 1
    }

    /// Begins a job: blanks both records, adds a particle for each of
    /// `samples`, and returns the bound enforcement of the job's space.
    pub fn start(&mut self, job_config: &JobConfig, samples: &Vec<(Vec<u64>, Vec<u64>)>) -> (r:
        SpaceRanger)
        ensures
            final(self)@ == (Ally {
                tribal_record: Best::blank(job_config.num_variables as nat),
                global_record: Best::blank(job_config.num_variables as nat),
                particles: old(self)@.particles + recruits(
                    samples@,
                    job_config.num_variables as nat,
                ),
                ..old(self)@
            }),
            r@ == (Walls {
                num_variables: job_config.num_variables as nat,
                pos_ranges: job_config.pos_bounds@,
                vel_ranges: job_config.vel_bounds@,
                wbf: old(self)@.wbf,
            }),
            job_config.wf() ==> r.wf(),
            old(self)@.particles.len() == 0 && samples@.len() == old(self)@.num_particles
                && samples@.len() >= 1 && samples_fit(samples@, job_config.num_variables as nat)
                ==> final(self).ready(job_config.num_variables as nat),
            old(self)@.particles.len() == 0 ==> heads(
                final(self)@.tribal_record,
                final(self)@.particles,
            ),
    {
        self.tribal_record = Record::blank(job_config.num_variables);
        self.global_record = Record::blank(job_config.num_variables);
        initialise_particles(&mut self.particles, job_config.num_variables, samples);
        SpaceRanger::new(
            job_config.num_variables,
            &job_config.pos_bounds,
            &job_config.vel_bounds,
            self.wbf,
        )
    }

    /// Puts particle `i` where it moved to and enforces the bounds on it.
    /// `rebound` holds each velocity of `moved` times the wall-bounce factor.
    pub fn move_particle(
        &mut self,
        i: usize,
        space_ranger: &SpaceRanger,
        moved: Vec<u64>,
        rebound: &Vec<u64>,
    )
        requires
            i < old(self)@.particles.len(),
            space_ranger.wf(),
            moved@.len() == 2 * space_ranger@.num_variables,
            rebound@.len() == space_ranger@.num_variables,
        ensures
            final(self)@ == (Ally {
                particles: old(self)@.particles.update(
                    i as int,
                    ParticleState {
                        pos_vel: space_ranger@.constrained(moved@, rebound@),
                        ..old(self)@.particles[i as int]
                    },
                ),
                ..old(self)@
            }),
            old(self).ready(space_ranger@.num_variables) ==> final(self).ready(
                space_ranger@.num_variables,
            ),
            heads(old(self)@.tribal_record, old(self)@.particles) ==> heads(
                final(self)@.tribal_record,
                final(self)@.particles,
            ),
    {
        move_particle(&mut self.particles, i, space_ranger, moved, rebound);
    }

    /// Ends the search part of an iteration. `costs` holds the cost at each
    /// particle's position. Every particle takes note of its cost; the front
    /// runner's record becomes the swarm's own where it is the better one; and
    /// `no_new_record_count` goes down by one, though not below zero, where the
    /// swarm's record improved, and up by one where it did not.
    pub fn update_particles(&mut self, costs: &Vec<u64>, no_new_record_count: &mut i128)
        requires
            old(self)@.particles.len() == costs@.len(),
            costs@.len() >= 1,
            forall|k: int|
                0 <= k < old(self)@.particles.len() ==> (#[trigger] old(self)@.particles[k]).wf(),
            i128::MIN < *old(no_new_record_count) < i128::MAX,
        ensures
            final(self)@ == old(self)@.after_costs(costs@),
            *final(no_new_record_count) == stall_after(
                *old(no_new_record_count) as int,
                top_record(old(self)@.particles, costs@, old(self)@.tribal_record).precedes(
                    old(self)@.tribal_record,
                ),
            ),
            forall|num_variables: nat| #[trigger]
                old(self).ready(num_variables) ==> final(self).ready(num_variables),
            heads(old(self)@.tribal_record, old(self)@.particles) ==> heads(
                final(self)@.tribal_record,
                final(self)@.particles,
            ),
    {
        proof {
            if heads(old(self)@.tribal_record, old(self)@.particles) {
                adopted_heads_the_swarm(old(self)@.particles, costs@, old(self)@.tribal_record);
            }
        }
        let best_cost: u64 = self.tribal_record.get_cost();
        proof {
            let given = old(self)@.particles;
            assert(states(self.particles@) == given);
            assert forall|k: int| 0 <= k < self.particles@.len() implies (
            #[trigger] self.particles@[k])@.wf() by {
                assert(given[k].wf());
            }
        }
        let best_cost_index = score_particles(&mut self.particles, costs, best_cost);
        proof {
            let scored = scored_all(old(self)@.particles, costs@);
            assert(states(self.particles@) == scored);
            assert(self.particles@.len() == scored.len());
            assert(scored[best_cost_index as int] == self.particles@[best_cost_index as int]@);
            assert forall|k: int| 0 <= k < costs@.len() implies (#[trigger] states(
                self.particles@,
            )[k]).wf() by {
                assert(self.particles@[k]@.wf());
            }
        }
        let top_record = self.particles[best_cost_index].get_record();
        adopt(&mut self.tribal_record, top_record, no_new_record_count);
    }

    /// Whether the swarm is to try for the shared record after iteration
    /// `itteration`, counted from 0, where `try_agian` says that an earlier try
    /// is still owed.
    pub fn share_due(&self, itteration: usize, try_agian: bool) -> (r: bool)
        requires
            self@.tgse > 0,
            itteration < usize::MAX,
        ensures
            r == self@.share_due(itteration, try_agian),
    {
        (itteration + 1) % self.tgse == 0 || try_agian
    }

    /// Shares with the other swarms after iteration `itteration`. `lock` is
    /// what the shared record reads where the swarm got hold of it without
    /// waiting, and `None` where it did not, or did not try.
    ///
    /// Where no sharing is due, nothing happens. Where it is due and the
    /// shared record was not to be had, `try_agian` is set, so that sharing is
    /// due again after the next iteration. Where it was had, `try_agian` is
    /// cleared; the swarm's own record, if it is the better one, becomes what
    /// the swarm sees as the global record and is returned, to be written to
    /// the shared record; otherwise the swarm takes the shared record as the
    /// global one and nothing is to be written.
    pub fn globalise(&mut self, itteration: usize, lock: Option<Record>, try_agian: &mut bool) -> (write:
        Option<Record>)
        requires
            old(self)@.tgse > 0,
            itteration < usize::MAX,
        ensures
            !old(self)@.share_due(itteration, *old(try_agian)) ==> {
                &&& final(self)@ == old(self)@
                &&& *final(try_agian) == *old(try_agian)
                &&& write.is_none()
            },
            old(self)@.share_due(itteration, *old(try_agian)) && lock.is_none() ==> {
                &&& final(self)@ == old(self)@
                &&& *final(try_agian)
                &&& write.is_none()
            },
            old(self)@.share_due(itteration, *old(try_agian)) && lock.is_some() ==> {
                &&& final(self)@ == old(self)@.after_sharing(lock.unwrap()@)
                &&& !*final(try_agian)
                &&& write.is_some() == old(self)@.tribal_record.precedes(lock.unwrap()@)
                &&& write.is_some() ==> write.unwrap()@ == old(self)@.tribal_record
            },
    {
        if (itteration + 1) % self.tgse == 0 || *try_agian {
            match lock {
                Some(shared) => {
                    *try_agian = false;
                    if self.tribal_record < shared {
                        self.global_record = self.tribal_record.clone();
                        Some(self.global_record.clone())
                    } else {
                        self.global_record = shared;
                        None
                    }
                },
                None => {
                    *try_agian = true;
                    None
                },
            }
        } else {
            None
        }
    }

    /// Whether the console is to be updated after iteration `itteration`,
    /// counted from 0.
    pub fn console_due(&self, itteration: usize) -> (r: bool)
        requires
            itteration < usize::MAX,
        ensures
            r == match self@.uce {
                Some(update_period) => falls_due(itteration, update_period),
                None => false,
            },
    {
        match self.uce {
            Some(update_period) => update_period > 0 && (itteration + 1) % update_period == 0,
            None => false,
        }
    }

    /// How the swarm goes on after iteration `itteration` of the job and its
    /// sharing: it stops as soon as the global record, as it last saw it, has a
    /// cost below the job's exit cost, and with the last iteration otherwise.
    /// A swarm that stops because the exit cost is reached shares once more
    /// before it does, whether or not sharing is due.
    pub fn progress(&self, itteration: usize, job_config: &JobConfig) -> (r: Progress)
        ensures
            r == progress_after(
                self@.global_record.cost,
                job_config.exit_cost,
                itteration,
                job_config.max_itterations,
            ),
    {
        progress(
            self.global_record.get_cost(),
            job_config.exit_cost,
            itteration,
            job_config.max_itterations,
        )
    }

    /// The swarm's name.
    pub fn name(&self) -> (r: &String)
        ensures
            r@ == self@.name,
    {
        &self.name
    }

    /// The local, tribal, global and inertial weights.
    pub fn motion_coeffs(&self) -> (r: [u64; 4])
        ensures
            r@ == self@.motion_coeffs,
    {
        self.motion_coeffs
    }

    /// Every how many iterations the swarm shares its best record.
    pub fn tribal_global_share_every(&self) -> (r: usize)
        ensures
            r == self@.tgse,
    {
        self.tgse
    }

    /// The number of particles that the swarm is to hold.
    pub fn num_particles(&self) -> (r: usize)
        ensures
            r == self@.num_particles,
    {
        self.num_particles
    }

    /// Particle `i`.
    pub fn particle(&self, i: usize) -> (r: &Particle)
        requires
            i < self@.particles.len(),
        ensures
            r@ == self@.particles[i as int],
    {
        &self.particles[i]
    }

    /// A copy of the swarm's own best record.
    pub fn tribal_record(&self) -> (r: Record)
        ensures
            r@ == self@.tribal_record,
    {
        self.tribal_record.clone()
    }

    /// A copy of the best record of all swarms, as this swarm last saw it.
    pub fn global_record(&self) -> (r: Record)
        ensures
            r@ == self@.global_record,
    {
        self.global_record.clone()
    }
}

/// What a swarm sees as the global record after sharing is the better of its
/// own record and the shared one: it is one of the two, and neither orders
/// before it.
pub proof fn sharing_takes_the_better(ally: Ally, shared: Best)
    ensures
        ally.after_sharing(shared).global_record == shared || ally.after_sharing(
            shared,
        ).global_record == ally.tribal_record,
        !shared.precedes(ally.after_sharing(shared).global_record),
        !ally.tribal_record.precedes(ally.after_sharing(shared).global_record),
{
}

/// A try that is owed is due at once: after a failed try for the shared
/// record, sharing is due after the next iteration, whatever the period.
pub proof fn owed_try_is_due(ally: Ally, itteration: usize)
    ensures
        ally.share_due(itteration, true),
{
}

} // verus!
