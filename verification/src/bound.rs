//! Per-dimension ranges for positions and velocities.

use vstd::prelude::*;
use crate::number::{is_finite, lt, negated, is_finite_number, less_than, negate, ZERO};

verus! {

/// Whether `range` is a range that can be sampled: both ends are finite, and
/// the low end is below the high end.
pub open spec fn is_range(range: [u64; 2]) -> bool {
    lt(range[0], range[1]) && is_finite(range[0]) && is_finite(range[1])
}

/// Whether `max` is a maximum that makes a range: positive and finite.
pub open spec fn is_maximum(max: u64) -> bool {
    lt(ZERO, max) && is_finite(max)
}

/// Whether every pair of `lims` is a range.
pub open spec fn limits_valid(lims: Seq<[u64; 2]>) -> bool {
    forall|i: int| 0 <= i < lims.len() ==> is_range(#[trigger] lims[i])
}

/// Whether every entry of `maxs` is a positive finite number.
pub open spec fn maxima_valid(maxs: Seq<u64>) -> bool {
    forall|i: int| 0 <= i < maxs.len() ==> is_maximum(#[trigger] maxs[i])
}

/// Whether `ranges` holds the symmetric range `[-max, max]` of each of `maxs`.
pub open spec fn symmetric(ranges: Seq<[u64; 2]>, maxs: Seq<u64>) -> bool {
    &&& ranges.len() == maxs.len()
    &&& forall|i: int|
        0 <= i < maxs.len() ==> (#[trigger] ranges[i])[0] == negated(maxs[i]) && ranges[i][1]
            == maxs[i]
}

/// One range per dimension; in each, the ends are finite and the low end is
/// below the high end.
#[derive(Debug)]
pub struct Bound {
    ranges: Vec<[u64; 2]>,
}

impl View for Bound {
    type V = Seq<[u64; 2]>;

    closed spec fn view(&self) -> Seq<[u64; 2]> {
        self.ranges@
    }
}

impl Clone for Bound {
    fn clone(&self) -> (r: Self)
        ensures
            r@ == self@,
    {
        Bound { ranges: copy_of_ranges(&self.ranges) }
    }
}

/// A fresh vector with the ranges of `v`.
pub fn copy_of_ranges(v: &Vec<[u64; 2]>) -> (r: Vec<[u64; 2]>)
    ensures
        r@ == v@,
{
    let mut out: Vec<[u64; 2]> = Vec::with_capacity(v.len());
    let mut i: usize = 0;
    while i < v.len()
        invariant
            i <= v.len(),
            out@ == v@.subrange(0, i as int),
        decreases v.len() - i,
    {
        out.push(v[i]);
        i += 1;
        assert(out@ =~= v@.subrange(0, i as int));
    }
    assert(v@.subrange(0, v.len() as int) =~= v@);
    out
}

impl Bound {
    /// Whether the ranges are well formed; every `Bound` built by this module is.
    pub open spec fn wf(&self) -> bool {
        limits_valid(self@)
    }

    /// Tells whether `lims` can make a `Bound`.
    pub fn check_limits(lims: &Vec<[u64; 2]>) -> (r: bool)
        ensures
            r == limits_valid(lims@),
    {
        let mut i: usize = 0;
        while i < lims.len()
            invariant
                i <= lims.len(),
                forall|k: int| 0 <= k < i ==> is_range(#[trigger] lims@[k]),
            decreases lims.len() - i,
        {
            if !(less_than(lims[i][0], lims[i][1]) && is_finite_number(lims[i][0])
                && is_finite_number(lims[i][1])) {
                return false;
            }
            i += 1;
        }
        true
    }

    /// Tells whether `maxs` can make a `Bound`.
    pub fn check_maxima(maxs: &Vec<u64>) -> (r: bool)
        ensures
            r == maxima_valid(maxs@),
    {
        let mut i: usize = 0;
        while i < maxs.len()
            invariant
                i <= maxs.len(),
                forall|k: int| 0 <= k < i ==> is_maximum(#[trigger] maxs@[k]),
            decreases maxs.len() - i,
        {
            if !(less_than(ZERO, maxs[i]) && is_finite_number(maxs[i])) {
                return false;
            }
            i += 1;
        }
        true
    }

    /// The bound whose ranges are the `[low, high]` pairs of `lims`.
    pub fn from_upper_lower(lims: Vec<[u64; 2]>) -> (r: Self)
        requires
            limits_valid(lims@),
        ensures
            r@ == lims@,
            r.wf(),
    {
        Bound { ranges: lims }
    }

    /// The bound whose ranges are `[-max, max]` for each of `maxs`.
    pub fn from_max(maxs: Vec<u64>) -> (r: Self)
        requires
            maxima_valid(maxs@),
        ensures
            symmetric(r@, maxs@),
            r.wf(),
    {
        let mut ranges: Vec<[u64; 2]> = Vec::new();
        let mut i: usize = 0;
        while i < maxs.len()
            invariant
                i <= maxs.len(),
                maxima_valid(maxs@),
                ranges@.len() == i,
                forall|k: int|
                    0 <= k < i ==> (#[trigger] ranges@[k])[0] == negated(maxs@[k]) && ranges@[k][1]
                        == maxs@[k],
            decreases maxs.len() - i,
        {
            let x: u64 = maxs[i];
            ranges.push([negate(x), x]);
            i += 1;
        }
        let r = Bound { ranges };
        proof {
            assert forall|k: int| 0 <= k < r@.len() implies is_range(#[trigger] r@[k]) by {
                assert(r@[k][0] == negated(maxs@[k]) && r@[k][1] == maxs@[k]);
                assert(is_maximum(maxs@[k]));
            }
        }
        r
    }

    /// The number of dimensions.
    pub fn len(&self) -> (r: usize)
        ensures
            r == self@.len(),
    {
        self.ranges.len()
    }

    /// A copy of the ranges, one `[low, high]` pair per dimension.
    pub fn range_vec(&self) -> (r: Vec<[u64; 2]>)
        ensures
            r@ == self@,
    {
        copy_of_ranges(&self.ranges)
    }
}

} // verus!
