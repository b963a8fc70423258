//! The best-known record: a cost and the point at which it was found. Records
//! are ordered by cost alone.

use vstd::prelude::*;
use vstd::slice::slice_to_vec;
use crate::number::{lt, same, rank, is_nan, is_finite, less_than, INFINITY, ZERO};

verus! {

/// What a [`Record`] holds, as a mathematical value.
pub struct Best {
    pub cost: u64,
    pub location: Seq<u64>,
}

impl Best {
    /// The record that every finite cost supersedes: infinite cost at the
    /// origin of a space of `num_vars` dimensions.
    pub open spec fn blank(num_vars: nat) -> Best {
        Best { cost: INFINITY, location: Seq::new(num_vars, |i: int| ZERO) }
    }

    /// Whether `self` orders strictly before `other`: its cost is lower.
    pub open spec fn precedes(self, other: Best) -> bool {
        lt(self.cost, other.cost)
    }

    /// Whether `self` and `other` are equal as records: their costs are.
    pub open spec fn ties(self, other: Best) -> bool {
        same(self.cost, other.cost)
    }

    /// The record kept when `other` is offered to `self`: `other` if its cost is
    /// lower, `self` otherwise.
    pub open spec fn merged(self, other: Best) -> Best {
        if lt(other.cost, self.cost) {
            other
        } else {
            self
        }
    }

    /// The record kept after the first `n` of `others` were offered to `self`, in
    /// order.
    pub open spec fn merged_all(self, others: Seq<Record>, n: nat) -> Best
        decreases n,
    {
        if n == 0 {
            self
        } else {
            self.merged_all(others, (n - 1) as nat).merged(others[n - 1]@)
        }
    }
}

/// A best-known cost and its location.
#[derive(Debug)]
pub struct Record {
    cost: u64,
    location: Vec<u64>,
}

impl View for Record {
    type V = Best;

    closed spec fn view(&self) -> Best {
        Best { cost: self.cost, location: self.location@ }
    }
}

impl Clone for Record {
    fn clone(&self) -> (r: Self)
        ensures
            r@ == self@,
    {
        Record { cost: self.cost, location: copy_of(&self.location) }
    }
}

/// A fresh vector with the elements of `v`.
pub fn copy_of(v: &Vec<u64>) -> (r: Vec<u64>)
    ensures
        r@ == v@,
{
    let mut out: Vec<u64> = Vec::with_capacity(v.len());
    let mut i: usize = 0;
    while i < v.len()
        invariant
            i <= v.len(),
            out@ == v@.subrange(0, i as int),
        decreases v.len() - i,
    {
        out.push(v[i]);
        i += 1;
        assert(out@ =~= v@.subrange(0, i as int));
    }
    assert(v@.subrange(0, v.len() as int) =~= v@);
    out
}

impl Record {
    /// The blank record of a space of `num_vars` dimensions.
    pub fn blank(num_vars: usize) -> (r: Self)
        ensures
            r@ == Best::blank(num_vars as nat),
    {
        let mut location: Vec<u64> = Vec::with_capacity(num_vars);
        let mut i: usize = 0;
        while i < num_vars
            invariant
                i <= num_vars,
                location@ == Seq::new(i as nat, |k: int| ZERO),
            decreases num_vars - i,
        {
            location.push(ZERO);
            i += 1;
            assert(location@ =~= Seq::new(i as nat, |k: int| ZERO));
        }
        Record { cost: INFINITY, location }
    }

    /// A record of `cost` found at `location`.
    pub fn new(cost: u64, location: &[u64]) -> (r: Self)
        ensures
            r@ == (Best { cost, location: location@ }),
    {
        Record { cost, location: slice_to_vec(location) }
    }

    /// Keeps the lower of two records in `self`: replaces `self` by `other_rec`
    /// where that one's cost is lower, and leaves it alone otherwise.
    pub fn blind_accumulate(&mut self, other_rec: &Self)
        ensures
            final(self)@ == old(self)@.merged(other_rec@),
    {
        if less_than(other_rec.cost, self.cost) {
            self.cost = other_rec.cost;
            self.location = copy_of(&other_rec.location);
        }
    }

    /// Whether `other_cost` is lower than this record's cost.
    pub fn loses_to(&self, other_cost: u64) -> (r: bool)
        ensures
            r == lt(other_cost, self@.cost),
    {
        less_than(other_cost, self.cost)
    }

    /// The cost and a copy of the location.
    pub fn to_tuple(&self) -> (r: (u64, Vec<u64>))
        ensures
            r.0 == self@.cost,
            r.1@ == self@.location,
    {
        (self.cost, copy_of(&self.location))
    }

    /// The coordinate of the location in dimension `i`.
    pub fn pos(&self, i: usize) -> (r: u64)
        requires
            i < self@.location.len(),
        ensures
            r == self@.location[i as int],
    {
        self.location[i]
    }

    /// A copy of the location.
    pub fn get_location(&self) -> (r: Vec<u64>)
        ensures
            r@ == self@.location,
    {
        copy_of(&self.location)
    }

    /// The cost.
    pub fn get_cost(&self) -> (r: u64)
        ensures
            r == self@.cost,
    {
        self.cost
    }

    /// The number of dimensions of the location.
    pub fn num_vars(&self) -> (r: usize)
        ensures
            r == self@.location.len(),
    {
        self.location.len()
    }
}

/// A record with a finite cost orders before every blank record.
pub proof fn finite_precedes_blank(r: Best, num_vars: nat)
    requires
        is_finite(r.cost),
    ensures
        r.precedes(Best::blank(num_vars)),
        Best::blank(num_vars).cost == INFINITY,
{
}

/// The blank record is the identity of merging among records of finite cost:
/// offered to such a record it changes nothing, and offered such a record it
/// gives way to it.
pub proof fn blank_is_identity(r: Best, num_vars: nat)
    requires
        is_finite(r.cost),
    ensures
        r.merged(Best::blank(num_vars)) == r,
        Best::blank(num_vars).merged(r) == r,
{
}

/// Merging keeps the minimum, whichever record is offered to which: between two
/// records whose costs are numbers, both orders of merging end with the lower
/// cost.
pub proof fn merge_keeps_minimum(a: Best, b: Best)
    requires
        !is_nan(a.cost),
        !is_nan(b.cost),
    ensures
        rank(a.merged(b).cost) == rank(b.merged(a).cost),
        rank(a.merged(b).cost) <= rank(a.cost),
        rank(a.merged(b).cost) <= rank(b.cost),
        a.merged(b) == a || a.merged(b) == b,
{
}

/// After a merge, the record offered does not beat the one kept.
pub proof fn merge_never_loses(a: Best, b: Best)
    ensures
        !b.precedes(a.merged(b)),
{
}

/// Merging records one by one keeps the lowest: where every cost is a number,
/// the record kept is the one started from or one of those offered, and none of
/// them has a lower cost.
pub proof fn merged_all_is_lowest(start: Best, others: Seq<Record>, n: nat)
    requires
        n <= others.len(),
        !is_nan(start.cost),
        forall|i: int| 0 <= i < n ==> !is_nan((#[trigger] others[i])@.cost),
    ensures
        !is_nan(start.merged_all(others, n).cost),
        rank(start.merged_all(others, n).cost) <= rank(start.cost),
        forall|i: int|
            0 <= i < n ==> rank(start.merged_all(others, n).cost) <= rank(
                (#[trigger] others[i])@.cost,
            ),
        start.merged_all(others, n) == start || exists|i: int|
            0 <= i < n && start.merged_all(others, n) == (#[trigger] others[i])@,
    decreases n,
{
    if n > 0 {
        let before = start.merged_all(others, (n - 1) as nat);
        merged_all_is_lowest(start, others, (n - 1) as nat);
        let last = others[n - 1]@;
        merge_keeps_minimum(before, last);
        if before.merged(last) == last {
            assert(start.merged_all(others, n) == others[n - 1]@);
        } else {
            if before != start {
                let i = choose|i: int| 0 <= i < n - 1 && before == (#[trigger] others[i])@;
                assert(start.merged_all(others, n) == others[i]@);
            }
        }
    }
}

} // verus!
