//! What every swarm decides in one iteration: which particle is its front
//! runner, whether that one's record becomes the swarm's, and how long the
//! swarm has gone without a new record.

use vstd::prelude::*;
use crate::number::{is_nan, lt, rank, less_than};
use crate::particle::{Particle, ParticleState};
use crate::record::{copy_of, Best, Record};
use crate::space_ranger::SpaceRanger;

verus! {

/// The particles of a swarm, as mathematical values.
pub open spec fn states(particles: Seq<Particle>) -> Seq<ParticleState> {
    particles.map_values(|p: Particle| p@)
}

/// Whether particle `i` contends for the swarm's record: the cost at its
/// position improves on its own record and is below `bar`, the cost of the
/// swarm's record.
pub open spec fn contends(particles: Seq<ParticleState>, costs: Seq<u64>, bar: u64, i: int) -> bool {
    &&& 0 <= i < particles.len()
    &&& i < costs.len()
    &&& particles[i].improves(costs[i])
    &&& lt(costs[i], bar)
}

/// Whether `lead` is the front runner among the first `n` particles: of those
/// that contend, the first of those with the lowest cost; particle 0 where none
/// contends.
pub open spec fn leads_among(
    particles: Seq<ParticleState>,
    costs: Seq<u64>,
    bar: u64,
    n: int,
    lead: int,
) -> bool {
    if exists|i: int| i < n && contends(particles, costs, bar, i) {
        &&& lead < n
        &&& contends(particles, costs, bar, lead)
        &&& forall|j: int|
            j < n && #[trigger] contends(particles, costs, bar, j) ==> rank(costs[lead]) <= rank(
                costs[j],
            )
        &&& forall|j: int|
            j < lead && #[trigger] contends(particles, costs, bar, j) ==> rank(costs[lead]) < rank(
                costs[j],
            )
    } else {
        lead == 0
    }
}

/// Whether `lead` is the front runner of the swarm.
pub open spec fn leads(particles: Seq<ParticleState>, costs: Seq<u64>, bar: u64, lead: int) -> bool {
    leads_among(particles, costs, bar, particles.len() as int, lead)
}

/// The front runner of the swarm.
pub open spec fn front_runner(particles: Seq<ParticleState>, costs: Seq<u64>, bar: u64) -> int {
    choose|lead: int| leads(particles, costs, bar, lead)
}

/// The front runner's record once every particle took note of its cost.
pub open spec fn top_record(particles: Seq<ParticleState>, costs: Seq<u64>, record: Best) -> Best {
    let lead = front_runner(particles, costs, record.cost);
    particles[lead].scored(costs[lead]).rec
}

/// The swarm's record at the end of an iteration: the front runner's where
/// that is the better one, the swarm's own `record` otherwise.
pub open spec fn adopted(particles: Seq<ParticleState>, costs: Seq<u64>, record: Best) -> Best {
    if top_record(particles, costs, record).precedes(record) {
        top_record(particles, costs, record)
    } else {
        record
    }
}

/// Whether `record` is as good as any particle's: its cost is a number, and no
/// particle has a record that orders before it.
pub open spec fn heads(record: Best, particles: Seq<ParticleState>) -> bool {
    &&& !is_nan(record.cost)
    &&& forall|k: int| 0 <= k < particles.len() ==> !(#[trigger] particles[k]).rec.precedes(record)
}

/// Every particle after it took note of its cost.
pub open spec fn scored_all(particles: Seq<ParticleState>, costs: Seq<u64>) -> Seq<ParticleState> {
    Seq::new(particles.len(), |k: int| particles[k].scored(costs[k]))
}

/// The count of iterations without a new record, after one more iteration: one
/// less, but never below zero, where the swarm's record improved; one more
/// where it did not.
pub open spec fn stall_after(count: int, improved: bool) -> int {
    if improved {
        if count - 1 < 0 {
            0
        } else {
            count - 1
        }
    } else {
        count + 1
    }
}

/// Among the first `n` particles there is a front runner.
pub proof fn front_runner_among(
    particles: Seq<ParticleState>,
    costs: Seq<u64>,
    bar: u64,
    n: nat,
) -> (lead: int)
    ensures
        leads_among(particles, costs, bar, n as int, lead),
        0 <= lead,
        n > 0 ==> lead < n,
    decreases n,
{
    if n == 0 {
        0
    } else {
        let last = n - 1;
        let before = front_runner_among(particles, costs, bar, last as nat);
        if contends(particles, costs, bar, last) {
            if exists|i: int| i < last && contends(particles, costs, bar, i) {
                if rank(costs[last]) < rank(costs[before]) {
                    last
                } else {
                    before
                }
            } else {
                last
            }
        } else {
            if exists|i: int| i < last && contends(particles, costs, bar, i) {
                let i = choose|i: int| i < last && contends(particles, costs, bar, i);
                assert(i < n && contends(particles, costs, bar, i));
            }
            before
        }
    }
}

/// There is one front runner and no other.
pub proof fn front_runner_is_unique(
    particles: Seq<ParticleState>,
    costs: Seq<u64>,
    bar: u64,
    a: int,
    b: int,
)
    requires
        leads(particles, costs, bar, a),
        leads(particles, costs, bar, b),
    ensures
        a == b,
        a == front_runner(particles, costs, bar),
{
    let n = particles.len() as int;
    if exists|i: int| i < n && contends(particles, costs, bar, i) {
        assert(contends(particles, costs, bar, a));
        assert(contends(particles, costs, bar, b));
        if a < b {
            assert(rank(costs[b]) < rank(costs[a]));
        }
        if b < a {
            assert(rank(costs[a]) < rank(costs[b]));
        }
    }
    let c = front_runner(particles, costs, bar);
    assert(leads(particles, costs, bar, c));
    if exists|i: int| i < n && contends(particles, costs, bar, i) {
        assert(contends(particles, costs, bar, c));
        if a < c {
            assert(rank(costs[c]) < rank(costs[a]));
        }
        if c < a {
            assert(rank(costs[a]) < rank(costs[c]));
        }
    }
}

/// The swarm's record never gets worse: at the end of an iteration it is the
/// record that the swarm had, or one that orders before it.
pub proof fn adopted_never_worsens(particles: Seq<ParticleState>, costs: Seq<u64>, record: Best)
    ensures
        adopted(particles, costs, record) == record || adopted(particles, costs, record).precedes(
            record,
        ),
{
}

/// The swarm's record stays as good as any particle's. Where it was so before
/// an iteration, it is so after every particle took note of its cost and the
/// front runner's record was adopted or not.
pub proof fn adopted_heads_the_swarm(particles: Seq<ParticleState>, costs: Seq<u64>, record: Best)
    requires
        particles.len() == costs.len(),
        particles.len() >= 1,
        heads(record, particles),
    ensures
        heads(adopted(particles, costs, record), scored_all(particles, costs)),
{
    let n = particles.len();
    let bar = record.cost;
    let lead = front_runner_among(particles, costs, bar, n);
    front_runner_is_unique(particles, costs, bar, lead, lead);
    let top = top_record(particles, costs, record);
    let kept = adopted(particles, costs, record);
    let after = scored_all(particles, costs);
    if exists|i: int| i < n && contends(particles, costs, bar, i) {
        assert(contends(particles, costs, bar, lead));
        assert(top.cost == costs[lead]);
        assert(kept == top);
        assert forall|k: int| 0 <= k < after.len() implies !(#[trigger] after[k]).rec.precedes(
            kept,
        ) by {
            if particles[k].improves(costs[k]) {
                if lt(costs[k], bar) {
                    assert(contends(particles, costs, bar, k));
                }
            } else {
                assert(!particles[k].rec.precedes(record));
            }
        }
    } else {
        assert(!contends(particles, costs, bar, 0));
        assert(!particles[0].rec.precedes(record));
        assert(lead == 0);
        assert(kept == record);
        assert forall|k: int| 0 <= k < after.len() implies !(#[trigger] after[k]).rec.precedes(
            kept,
        ) by {
            assert(!contends(particles, costs, bar, k));
            assert(!particles[k].rec.precedes(record));
        }
    }
}

/// Lets every particle take note of the cost at its position, and finds the
/// front runner against the swarm's best cost `bar`.
pub fn score_particles(particles: &mut Vec<Particle>, costs: &Vec<u64>, bar: u64) -> (lead: usize)
    requires
        old(particles)@.len() == costs@.len(),
        forall|k: int| 0 <= k < old(particles)@.len() ==> (#[trigger] old(particles)@[k])@.wf(),
    ensures
        states(final(particles)@) == scored_all(states(old(particles)@), costs@),
        forall|k: int| 0 <= k < final(particles)@.len() ==> (#[trigger] final(particles)@[k])@.wf(),
        lead == front_runner(states(old(particles)@), costs@, bar),
        leads(states(old(particles)@), costs@, bar, lead as int),
        old(particles)@.len() > 0 ==> lead < old(particles)@.len(),
{
    let n: usize = particles.len();
    let ghost before = states(particles@);
    let mut best_cost: u64 = bar;
    let mut best_cost_index: usize = 0;
    let ghost mut found = false;
    let mut i: usize = 0;
    while i < n
        invariant
            i <= n,
            n == costs@.len(),
            particles@.len() == n,
            before == states(old(particles)@),
            before.len() == n,
            forall|k: int| 0 <= k < n ==> (#[trigger] particles@[k])@.wf(),
            forall|k: int| 0 <= k < i ==> (#[trigger] particles@[k])@ == before[k].scored(costs@[k]),
            forall|k: int| i <= k < n ==> (#[trigger] particles@[k])@ == before[k],
            !found ==> best_cost_index == 0 && best_cost == bar,
            !found ==> forall|j: int| j < i ==> !#[trigger] contends(before, costs@, bar, j),
            found ==> best_cost_index < i && best_cost == costs@[best_cost_index as int],
            found ==> contends(before, costs@, bar, best_cost_index as int),
            found ==> forall|j: int|
                j < i && #[trigger] contends(before, costs@, bar, j) ==> rank(best_cost) <= rank(
                    costs@[j],
                ),
            found ==> forall|j: int|
                j < best_cost_index && #[trigger] contends(before, costs@, bar, j) ==> rank(
                    best_cost,
                ) < rank(costs@[j]),
        decreases n - i,
    {
        assert(particles@[i as int]@ == before[i as int]);
        let cost: u64 = costs[i];
        if let Some(new_cost) = particles[i].test_cost(cost) {
            if less_than(new_cost, best_cost) {
                best_cost = new_cost;
                best_cost_index = i;
                proof {
                    found = true;
                }
            }
        }
        i += 1;
    }
    proof {
        let after = states(particles@);
        let want = scored_all(before, costs@);
        assert(after =~= want);
        if found {
            assert(contends(before, costs@, bar, best_cost_index as int));
        }
        assert(leads(before, costs@, bar, best_cost_index as int));
        let c = front_runner(before, costs@, bar);
        front_runner_is_unique(before, costs@, bar, best_cost_index as int, c);
    }
    best_cost_index
}

/// Takes the front runner's record `top` as the swarm's `record` where it is
/// the better one, and counts the iteration in `no_new_record_count`.
pub fn adopt(record: &mut Record, top: Record, no_new_record_count: &mut i128)
    requires
        i128::MIN < *old(no_new_record_count) < i128::MAX,
    ensures
        final(record)@ == (if top@.precedes(old(record)@) {
            top@
        } else {
            old(record)@
        }),
        *final(no_new_record_count) == stall_after(
            *old(no_new_record_count) as int,
            top@.precedes(old(record)@),
        ),
{
    if top < *record {
        *record = top;
        *no_new_record_count -= 1;
        if *no_new_record_count < 0 {
            *no_new_record_count = 0;
        }
    } else {
        *no_new_record_count += 1;
    }
}

/// The particle that starts at each of `samples`, a position and a velocity,
/// with a blank record.
pub open spec fn recruits(samples: Seq<(Vec<u64>, Vec<u64>)>, num_variables: nat) -> Seq<
    ParticleState,
> {
    Seq::new(
        samples.len(),
        |k: int|
            ParticleState {
                pos_vel: samples[k].0@ + samples[k].1@,
                rec: Best::blank(num_variables),
                num_vars: num_variables,
            },
    )
}

/// Whether each of `samples` is a position and a velocity in a space of
/// `num_variables` dimensions.
pub open spec fn samples_fit(samples: Seq<(Vec<u64>, Vec<u64>)>, num_variables: nat) -> bool {
    forall|k: int|
        0 <= k < samples.len() ==> (#[trigger] samples[k]).0@.len() == num_variables
            && samples[k].1@.len() == num_variables
}

/// Whether `particles` are `count` well-formed particles of a space of
/// `num_variables` dimensions.
pub open spec fn particles_fit(particles: Seq<ParticleState>, count: nat, num_variables: nat) -> bool {
    &&& particles.len() == count
    &&& forall|k: int|
        0 <= k < particles.len() ==> (#[trigger] particles[k]).wf() && particles[k].num_vars
            == num_variables
}

/// Whether something is due at iteration `itteration`, counted from 0, where
/// it is due every `period` iterations.
pub open spec fn falls_due(itteration: usize, period: usize) -> bool {
    period > 0 && (itteration + 1) % (period as int) == 0
}

/// How a swarm goes on after an iteration.
#[derive(Clone, Copy, Debug, PartialEq, Eq, Structural)]
pub enum Progress {
    /// The search goes on with the next iteration.
    Continue,
    /// A cost below the exit cost is known: the search is over.
    Reached,
    /// The iterations are used up: the search is over.
    Exhausted,
}

/// How a swarm goes on after iteration `itteration`, counted from 0, of at most
/// `max_itterations`, where `best_cost` is the best cost that it knows of. A
/// cost below `exit_cost` ends the search at once; otherwise it ends with the
/// last iteration.
pub open spec fn progress_after(
    best_cost: u64,
    exit_cost: u64,
    itteration: usize,
    max_itterations: usize,
) -> Progress {
    if lt(best_cost, exit_cost) {
        Progress::Reached
    } else if itteration + 1 >= max_itterations {
        Progress::Exhausted
    } else {
        Progress::Continue
    }
}

/// Tells how a swarm goes on after iteration `itteration`.
pub fn progress(best_cost: u64, exit_cost: u64, itteration: usize, max_itterations: usize) -> (r:
    Progress)
    ensures
        r == progress_after(best_cost, exit_cost, itteration, max_itterations),
{
    if less_than(best_cost, exit_cost) {
        Progress::Reached
    } else if itteration >= max_itterations || max_itterations - itteration <= 1 {
        Progress::Exhausted
    } else {
        Progress::Continue
    }
}

/// Adds to `particles` one particle for each of `samples`.
pub fn initialise_particles(
    particles: &mut Vec<Particle>,
    num_variables: usize,
    samples: &Vec<(Vec<u64>, Vec<u64>)>,
)
    ensures
        states(final(particles)@) == states(old(particles)@) + recruits(
            samples@,
            num_variables as nat,
        ),
{
    let ghost before = states(particles@);
    let mut k: usize = 0;
    while k < samples.len()
        invariant
            k <= samples@.len(),
            before == states(old(particles)@),
            states(particles@) == before + recruits(samples@, num_variables as nat).subrange(
                0,
                k as int,
            ),
        decreases samples@.len() - k,
    {
        let ghost so_far = states(particles@);
        let mut pos = copy_of(&samples[k].0);
        let mut vel = copy_of(&samples[k].1);
        let p = Particle::new(&mut pos, &mut vel, num_variables);
        particles.push(p);
        k += 1;
        assert(states(particles@) =~= so_far.push(p@));
        assert(states(particles@) =~= before + recruits(samples@, num_variables as nat).subrange(
            0,
            k as int,
        ));
    }
    assert(recruits(samples@, num_variables as nat).subrange(0, samples@.len() as int)
        =~= recruits(samples@, num_variables as nat));
}

/// Puts particle `i` where it moved to and enforces the bounds on it: its
/// state becomes `moved`, constrained. `rebound` holds each velocity of `moved`
/// times the wall-bounce factor.
pub fn move_particle(
    particles: &mut Vec<Particle>,
    i: usize,
    space_ranger: &SpaceRanger,
    moved: Vec<u64>,
    rebound: &Vec<u64>,
)
    requires
        i < old(particles)@.len(),
        space_ranger.wf(),
        moved@.len() == 2 * space_ranger@.num_variables,
        rebound@.len() == space_ranger@.num_variables,
    ensures
        states(final(particles)@) == states(old(particles)@).update(
            i as int,
            ParticleState {
                pos_vel: space_ranger@.constrained(moved@, rebound@),
                ..old(particles)@[i as int]@
            },
        ),
{
    let ghost before = states(particles@);
    let state = particles[i].pos_vel();
    *state = moved;
    space_ranger.constrain(state, rebound);
    assert(states(particles@) =~= before.update(
        i as int,
        ParticleState {
            pos_vel: space_ranger@.constrained(moved@, rebound@),
            ..old(particles)@[i as int]@
        },
    ));
}

} // verus!
