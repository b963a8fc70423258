//! Bound enforcement: a particle that leaves the search space is put back on
//! the wall that it crossed and bounces off it, and no velocity leaves its own
//! range.

use vstd::prelude::*;
use crate::bound::{is_range, limits_valid, Bound};
use crate::number::{is_nan, lt, less_than};

verus! {

/// Whether `x` lies outside `range`: below its low end or above its high end.
pub open spec fn strays(x: u64, range: [u64; 2]) -> bool {
    lt(x, range[0]) || lt(range[1], x)
}

/// `x` brought into `range`: the end that it lies beyond, or `x` itself where
/// it lies beyond neither.
pub open spec fn clamped(x: u64, range: [u64; 2]) -> u64 {
    if lt(x, range[0]) {
        range[0]
    } else if lt(range[1], x) {
        range[1]
    } else {
        x
    }
}

/// Whether `x` is a number that lies within `range`, ends included.
pub open spec fn within(x: u64, range: [u64; 2]) -> bool {
    !is_nan(x) && !lt(x, range[0]) && !lt(range[1], x)
}

/// The velocity that leaves a dimension: where the position `pos` strayed from
/// `pos_range`, the rebound velocity takes the place of `vel`; the result is
/// then brought into `vel_range`.
pub open spec fn settled(
    pos: u64,
    vel: u64,
    rebound: u64,
    pos_range: [u64; 2],
    vel_range: [u64; 2],
) -> u64 {
    clamped(
        if strays(pos, pos_range) {
            rebound
        } else {
            vel
        },
        vel_range,
    )
}

/// What a [`SpaceRanger`] holds, as a mathematical value.
pub struct Walls {
    pub num_variables: nat,
    pub pos_ranges: Seq<[u64; 2]>,
    pub vel_ranges: Seq<[u64; 2]>,
    pub wbf: u64,
}

impl Walls {
    /// The state that bound enforcement makes of `pos_vel`, where `rebound`
    /// holds each velocity times the wall-bounce factor: every position
    /// clamped, every velocity settled.
    pub open spec fn constrained(self, pos_vel: Seq<u64>, rebound: Seq<u64>) -> Seq<u64> {
        let n = self.num_variables as int;
        Seq::new(
            2 * self.num_variables,
            |k: int|
                if k < n {
                    clamped(pos_vel[k], self.pos_ranges[k])
                } else {
                    settled(
                        pos_vel[k - n],
                        pos_vel[k],
                        rebound[k - n],
                        self.pos_ranges[k - n],
                        self.vel_ranges[k - n],
                    )
                },
        )
    }
}

/// The walls of a search space and the factor by which a velocity is
/// multiplied when a particle hits one.
pub struct SpaceRanger {
    num_variables: usize,
    pos_ranges: Vec<[u64; 2]>,
    vel_ranges: Vec<[u64; 2]>,
    wbf: u64,
}

impl View for SpaceRanger {
    type V = Walls;

    closed spec fn view(&self) -> Walls {
        Walls {
            num_variables: self.num_variables as nat,
            pos_ranges: self.pos_ranges@,
            vel_ranges: self.vel_ranges@,
            wbf: self.wbf,
        }
    }
}

impl SpaceRanger {
    /// Whether there is one position range and one velocity range per
    /// dimension.
    pub open spec fn wf(&self) -> bool {
        &&& self@.pos_ranges.len() == self@.num_variables
        &&& self@.vel_ranges.len() == self@.num_variables
    }

    /// The policy for a space of `num_variables` dimensions with the given
    /// walls and wall-bounce factor.
    pub fn new(num_variables: usize, pos_bounds: &Bound, vel_bounds: &Bound, wbf: u64) -> (r: Self)
        ensures
            r@ == (Walls {
                num_variables: num_variables as nat,
                pos_ranges: pos_bounds@,
                vel_ranges: vel_bounds@,
                wbf,
            }),
    {
        SpaceRanger {
            num_variables,
            pos_ranges: pos_bounds.range_vec(),
            vel_ranges: vel_bounds.range_vec(),
            wbf,
        }
    }

    /// The factor by which a velocity is multiplied at a wall.
    pub fn wall_bounce_factor(&self) -> (r: u64)
        ensures
            r == self@.wbf,
    {
        self.wbf
    }

    /// Enforces the bounds on a particle's state `pos_vel`, which holds the
    /// positions and then the velocities. `rebound` holds, for each dimension,
    /// the velocity times the wall-bounce factor.
    ///
    /// In each dimension, a position beyond a wall is put on that wall and the
    /// velocity is replaced by its rebound. After that the velocity, rebounded
    /// or not, is brought into its own range. Positions are not touched by the
    /// second step.
    pub fn constrain(&self, pos_vel: &mut Vec<u64>, rebound: &Vec<u64>)
        requires
            self.wf(),
            old(pos_vel)@.len() == 2 * self@.num_variables,
            rebound@.len() == self@.num_variables,
        ensures
            final(pos_vel)@ == self@.constrained(old(pos_vel)@, rebound@),
    {
        let n: usize = self.num_variables;
        let mut i: usize = 0;
        while i < n
            invariant
                i <= n,
                n == self.num_variables,
                self.wf(),
                pos_vel@.len() == 2 * n,
                pos_vel@.len() == old(pos_vel)@.len(),
                rebound@.len() == n,
                forall|k: int|
                    0 <= k < i ==> #[trigger] pos_vel@[k] == clamped(
                        old(pos_vel)@[k],
                        self@.pos_ranges[k],
                    ),
                forall|k: int|
                    0 <= k < i ==> #[trigger] pos_vel@[k + n] == settled(
                        old(pos_vel)@[k],
                        old(pos_vel)@[k + n],
                        rebound@[k],
                        self@.pos_ranges[k],
                        self@.vel_ranges[k],
                    ),
                forall|k: int| i <= k < n ==> #[trigger] pos_vel@[k] == old(pos_vel)@[k],
                forall|k: int| i <= k < n ==> #[trigger] pos_vel@[k + n] == old(pos_vel)@[k + n],
            decreases n - i,
        {
            assert(pos_vel.len() == 2 * n);
            let iv: usize = i + n;
            let ghost before = pos_vel@;
            assert(before[i as int] == old(pos_vel)@[i as int]);
            assert(before[i + n] == old(pos_vel)@[i + n]);

            if less_than(pos_vel[i], self.pos_ranges[i][0]) {
                pos_vel.set(i, self.pos_ranges[i][0]);
                pos_vel.set(iv, rebound[i]);
            } else if less_than(self.pos_ranges[i][1], pos_vel[i]) {
                pos_vel.set(i, self.pos_ranges[i][1]);
                pos_vel.set(iv, rebound[i]);
            }
            if less_than(pos_vel[iv], self.vel_ranges[i][0]) {
                pos_vel.set(iv, self.vel_ranges[i][0]);
            } else if less_than(self.vel_ranges[i][1], pos_vel[iv]) {
                pos_vel.set(iv, self.vel_ranges[i][1]);
            }
            proof {
                assert forall|k: int| 0 <= k < i implies #[trigger] pos_vel@[k] == before[k] by {}
                assert forall|k: int| 0 <= k < i implies #[trigger] pos_vel@[k + n] == before[k
                    + n] by {}
                assert forall|k: int| i < k < n implies #[trigger] pos_vel@[k] == before[k] by {}
                assert forall|k: int| i < k < n implies #[trigger] pos_vel@[k + n] == before[k
                    + n] by {}
            }
            i += 1;
        }
        proof {
            let want = self@.constrained(old(pos_vel)@, rebound@);
            assert forall|k: int| 0 <= k < 2 * n implies pos_vel@[k] == want[k] by {
                if k >= n {
                    assert(pos_vel@[(k - n) + n] == want[k]);
                }
            }
            assert(pos_vel@ =~= want);
        }
    }
}

/// Bound enforcement keeps a particle inside. Where the walls are ranges and
/// the position, the velocity and its rebound in dimension `i` are numbers,
/// the position of that dimension ends within its walls and the velocity
/// within its range.
pub proof fn constrained_is_within(walls: Walls, pos_vel: Seq<u64>, rebound: Seq<u64>, i: int)
    requires
        0 <= i < walls.num_variables,
        walls.pos_ranges.len() == walls.num_variables,
        walls.vel_ranges.len() == walls.num_variables,
        limits_valid(walls.pos_ranges),
        limits_valid(walls.vel_ranges),
        pos_vel.len() == 2 * walls.num_variables,
        rebound.len() == walls.num_variables,
        !is_nan(pos_vel[i]),
        !is_nan(pos_vel[i + walls.num_variables]),
        !is_nan(rebound[i]),
    ensures
        within(walls.constrained(pos_vel, rebound)[i], walls.pos_ranges[i]),
        within(
            walls.constrained(pos_vel, rebound)[i + walls.num_variables],
            walls.vel_ranges[i],
        ),
{
    assert(is_range(walls.pos_ranges[i]));
    assert(is_range(walls.vel_ranges[i]));
}

/// Bound enforcement leaves alone what is inside: a state whose positions do
/// not stray and whose velocities lie within their ranges comes out as it went
/// in, whatever the rebounds.
pub proof fn constrained_keeps_what_is_within(walls: Walls, pos_vel: Seq<u64>, rebound: Seq<u64>)
    requires
        walls.pos_ranges.len() == walls.num_variables,
        walls.vel_ranges.len() == walls.num_variables,
        pos_vel.len() == 2 * walls.num_variables,
        rebound.len() == walls.num_variables,
        forall|i: int|
            0 <= i < walls.num_variables ==> !strays(
                #[trigger] pos_vel[i],
                walls.pos_ranges[i],
            ),
        forall|i: int|
            0 <= i < walls.num_variables ==> !strays(
                #[trigger] pos_vel[i + walls.num_variables],
                walls.vel_ranges[i],
            ),
    ensures
        walls.constrained(pos_vel, rebound) == pos_vel,
{
    let n = walls.num_variables as int;
    let out = walls.constrained(pos_vel, rebound);
    assert forall|k: int| 0 <= k < 2 * n implies out[k] == pos_vel[k] by {
        if k < n {
            assert(!strays(pos_vel[k], walls.pos_ranges[k]));
        } else {
            assert(!strays(pos_vel[(k - n) + n], walls.vel_ranges[k - n]));
            assert(!strays(pos_vel[k - n], walls.pos_ranges[k - n]));
        }
    }
    assert(out =~= pos_vel);
}

} // verus!
