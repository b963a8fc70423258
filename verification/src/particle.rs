//! One candidate solution: where it is, how fast it moves, and the best cost
//! that it has met so far.

use vstd::prelude::*;
use vstd::slice::slice_subrange;
use crate::number::lt;
use crate::record::{copy_of, Best, Record};

verus! {

/// What a [`Particle`] holds, as a mathematical value.
pub struct ParticleState {
    /// The position in each dimension, then the velocity in each dimension.
    pub pos_vel: Seq<u64>,
    /// The best cost met so far, and where.
    pub rec: Best,
    /// The number of dimensions.
    pub num_vars: nat,
}

impl ParticleState {
    /// Whether the state has a position and a velocity in each dimension, and a
    /// record in the same space.
    pub open spec fn wf(self) -> bool {
        &&& self.pos_vel.len() == 2 * self.num_vars
        &&& self.rec.location.len() == self.num_vars
    }

    /// The position: the first half of the state.
    pub open spec fn position(self) -> Seq<u64> {
        self.pos_vel.subrange(0, self.num_vars as int)
    }

    /// Whether `cost` is lower than the best cost met so far.
    pub open spec fn improves(self, cost: u64) -> bool {
        lt(cost, self.rec.cost)
    }

    /// The state after `cost` was found at the current position: the record is
    /// replaced where `cost` improves on it.
    pub open spec fn scored(self, cost: u64) -> ParticleState {
        if self.improves(cost) {
            ParticleState { rec: Best { cost, location: self.position() }, ..self }
        } else {
            self
        }
    }
}

/// A particle of a swarm.
pub struct Particle {
    pos_vel: Vec<u64>,
    rec: Record,
    num_vars: usize,
}

impl View for Particle {
    type V = ParticleState;

    closed spec fn view(&self) -> ParticleState {
        ParticleState {
            pos_vel: self.pos_vel@,
            rec: self.rec@,
            num_vars: self.num_vars as nat,
        }
    }
}

impl Particle {
    /// A particle at `pos` with velocity `vel`, in a space of `num_vars`
    /// dimensions, with a blank record. The velocities are moved to the end of
    /// `pos`, which then holds the particle's whole state.
    pub fn new(pos: &mut Vec<u64>, vel: &mut Vec<u64>, num_vars: usize) -> (r: Self)
        ensures
            final(pos)@ == old(pos)@ + old(vel)@,
            final(vel)@ == Seq::<u64>::empty(),
            r@ == (ParticleState {
                pos_vel: old(pos)@ + old(vel)@,
                rec: Best::blank(num_vars as nat),
                num_vars: num_vars as nat,
            }),
            old(pos)@.len() == num_vars && old(vel)@.len() == num_vars ==> r@.wf(),
    {
        pos.append(vel);
        Particle { pos_vel: copy_of(pos), rec: Record::blank(num_vars), num_vars }
    }

    /// The state, positions first and velocities after them, for the caller to
    /// read and to change.
    pub fn pos_vel(&mut self) -> (r: &mut Vec<u64>)
        ensures
            r@ == old(self)@.pos_vel,
            final(self)@ == (ParticleState { pos_vel: final(r)@, ..old(self)@ }),
    {
        &mut self.pos_vel
    }

    /// The state, positions first and velocities after them, to read.
    pub fn state(&self) -> (r: &Vec<u64>)
        ensures
            r@ == self@.pos_vel,
    {
        &self.pos_vel
    }

    /// The position.
    pub fn pos_slice(&self) -> (r: &[u64])
        requires
            self@.wf(),
        ensures
            r@ == self@.position(),
    {
        slice_subrange(self.pos_vel.as_slice(), 0, self.num_vars)
    }

    /// The number of dimensions.
    pub fn num_vars(&self) -> (r: usize)
        ensures
            r == self@.num_vars,
    {
        self.num_vars
    }

    /// Takes note of `cost`, the cost at the current position. Where it is
    /// lower than the best cost met so far, it becomes the record, with the
    /// current position, and is returned; otherwise nothing changes.
    pub fn test_cost(&mut self, cost: u64) -> (r: Option<u64>)
        requires
            old(self)@.wf(),
        ensures
            final(self)@ == old(self)@.scored(cost),
            final(self)@.wf(),
            r == (if old(self)@.improves(cost) {
                Some(cost)
            } else {
                None
            }),
    {
        if self.rec.loses_to(cost) {
            self.rec = Record::new(cost, self.pos_slice());
            Some(cost)
        } else {
            None
        }
    }

    /// A copy of the best cost met so far and its location.
    pub fn get_record(&self) -> (r: Record)
        ensures
            r@ == self@.rec,
    {
        self.rec.clone()
    }
}

} // verus!
