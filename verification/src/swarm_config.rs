//! How a swarm moves: its motion coefficients, its wall-bounce damping, and
//! whether it shares what it finds with the other swarms.

use vstd::prelude::*;
use crate::number::{absolute, negated, lt, abs, negate, less_than, ZERO, ONE};

verus! {

/// What a [`SwarmConfig`] holds, as a mathematical value.
pub struct Motion {
    /// The local, tribal, global and inertial weights, in that order.
    pub motion_coeffs: Seq<u64>,
    /// The inertial growth factor.
    pub igf: u64,
    /// The wall-bounce damping, as a non-negative number.
    pub wbf: u64,
    /// Every how many iterations the swarm shares its best record; `None` for an
    /// independent swarm.
    pub tgse: Option<usize>,
}

/// The coefficients of one swarm.
#[derive(Clone, Copy, Debug)]
pub struct SwarmConfig {
    motion_coeffs: [u64; 4],
    igf: u64,
    wbf: u64,
    tgse: Option<usize>,
}

impl View for SwarmConfig {
    type V = Motion;

    closed spec fn view(&self) -> Motion {
        Motion {
            motion_coeffs: self.motion_coeffs@,
            igf: self.igf,
            wbf: self.wbf,
            tgse: self.tgse,
        }
    }
}

/// Makes a coefficient non-negative: a negative one becomes its opposite.
pub fn correct_sine(param: u64) -> (r: u64)
    ensures
        r == absolute(param),
{
    abs(param)
}

impl SwarmConfig {
    /// A swarm that shares its best record with the others every
    /// `tribal_global_share_every` iterations. Each coefficient is stored as its
    /// absolute value.
    pub fn new_collaborative(
        local: u64,
        tribal: u64,
        global: u64,
        inertial: u64,
        inertial_growth_factor: u64,
        wall_bounce_factor: u64,
        tribal_global_share_every: usize,
    ) -> (r: Self)
        ensures
            r@.motion_coeffs == seq![
                absolute(local),
                absolute(tribal),
                absolute(global),
                absolute(inertial),
            ],
            r@.igf == absolute(inertial_growth_factor),
            r@.wbf == absolute(wall_bounce_factor),
            r@.tgse == Some(tribal_global_share_every),
    {
        let l = correct_sine(local);
        let t = correct_sine(tribal);
        let g = correct_sine(global);
        let i = correct_sine(inertial);
        let igf = correct_sine(inertial_growth_factor);
        let wbf = correct_sine(wall_bounce_factor);
        let r = SwarmConfig {
            motion_coeffs: [l, t, g, i],
            igf,
            wbf,
            tgse: Some(tribal_global_share_every),
        };
        assert(r@.motion_coeffs =~= seq![l, t, g, i]);
        r
    }

    /// A swarm that keeps to itself. Each coefficient is stored as its absolute
    /// value, and the global weight is zero.
    pub fn new_independant(
        local: u64,
        tribal: u64,
        inertial: u64,
        inertial_growth_factor: u64,
        wall_bounce_factor: u64,
    ) -> (r: Self)
        ensures
            r@.motion_coeffs == seq![absolute(local), absolute(tribal), ZERO, absolute(inertial)],
            r@.igf == absolute(inertial_growth_factor),
            r@.wbf == absolute(wall_bounce_factor),
            r@.tgse == None::<usize>,
    {
        let l = correct_sine(local);
        let t = correct_sine(tribal);
        let i = correct_sine(inertial);
        let igf = correct_sine(inertial_growth_factor);
        let wbf = correct_sine(wall_bounce_factor);
        let r = SwarmConfig { motion_coeffs: [l, t, ZERO, i], igf, wbf, tgse: None };
        assert(r@.motion_coeffs =~= seq![l, t, ZERO, i]);
        r
    }

    /// The collaborative swarm used where the caller names none: weights 1.45,
    /// 1.65, 1.55 and 0.4, growth factor 1.125, wall bounce 0.125, sharing every
    /// 8 iterations.
    pub fn default_collab() -> (r: Self)
        ensures
            r@.motion_coeffs == seq![
                0x3FF7_3333_3333_3333u64,
                0x3FFA_6666_6666_6666u64,
                0x3FF8_CCCC_CCCC_CCCDu64,
                0x3FD9_9999_9999_999Au64,
            ],
            r@.igf == 0x3FF2_0000_0000_0000u64,
            r@.wbf == 0x3FC0_0000_0000_0000u64,
            r@.tgse == Some(8usize),
    {
        let r = SwarmConfig {
            motion_coeffs: [
                0x3FF7_3333_3333_3333u64,
                0x3FFA_6666_6666_6666u64,
                0x3FF8_CCCC_CCCC_CCCDu64,
                0x3FD9_9999_9999_999Au64,
            ],
            igf: 0x3FF2_0000_0000_0000u64,
            wbf: 0x3FC0_0000_0000_0000u64,
            tgse: Some(8usize),
        };
        assert(r@.motion_coeffs =~= seq![
            0x3FF7_3333_3333_3333u64,
            0x3FFA_6666_6666_6666u64,
            0x3FF8_CCCC_CCCC_CCCDu64,
            0x3FD9_9999_9999_999Au64,
        ]);
        r
    }

    /// The independent swarm used where the caller names none: weights 1.45,
    /// 1.65, 0 and 0.4, growth factor 1.125, wall bounce 0.125.
    pub fn default_independant() -> (r: Self)
        ensures
            r@.motion_coeffs == seq![
                0x3FF7_3333_3333_3333u64,
                0x3FFA_6666_6666_6666u64,
                ZERO,
                0x3FD9_9999_9999_999Au64,
            ],
            r@.igf == 0x3FF2_0000_0000_0000u64,
            r@.wbf == 0x3FC0_0000_0000_0000u64,
            r@.tgse == None::<usize>,
    {
        let r = SwarmConfig {
            motion_coeffs: [
                0x3FF7_3333_3333_3333u64,
                0x3FFA_6666_6666_6666u64,
                ZERO,
                0x3FD9_9999_9999_999Au64,
            ],
            igf: 0x3FF2_0000_0000_0000u64,
            wbf: 0x3FC0_0000_0000_0000u64,
            tgse: None,
        };
        assert(r@.motion_coeffs =~= seq![
            0x3FF7_3333_3333_3333u64,
            0x3FFA_6666_6666_6666u64,
            ZERO,
            0x3FD9_9999_9999_999Au64,
        ]);
        r
    }

    /// The local, tribal, global and inertial weights.
    pub fn motion_coeffs(&self) -> (r: [u64; 4])
        ensures
            r@ == self@.motion_coeffs,
    {
        self.motion_coeffs
    }

    /// The inertial growth factor.
    pub fn inertial_growth_factor(&self) -> (r: u64)
        ensures
            r == self@.igf,
    {
        self.igf
    }

    /// The factor by which a velocity is multiplied when its particle hits a
    /// wall: the opposite of the stored damping, so that the velocity turns
    /// round.
    pub fn wall_bounce_factor(&self) -> (r: u64)
        ensures
            r == negated(self@.wbf),
    {
        negate(self.wbf)
    }

    /// Every how many iterations the swarm shares its best record.
    pub fn tribal_global_share_every(&self) -> (r: usize)
        requires
            self@.tgse.is_some(),
        ensures
            Some(r) == self@.tgse,
    {
        match self.tgse {
            Some(tgse) => tgse,
            None => 0,
        }
    }

    /// Whether the swarm shares its best record with the others.
    pub fn is_collaborative(&self) -> (r: bool)
        ensures
            r == self@.tgse.is_some(),
    {
        match self.tgse {
            Some(_) => true,
            None => false,
        }
    }
}

/// How one coefficient is chosen for each swarm.
#[derive(Clone, Copy, Debug)]
pub enum ParamDist {
    /// The same value for every swarm.
    Fixed(u64),
    /// A mean and a relative variance strictly between 0 and 1: each swarm gets
    /// the mean times one plus a draw from minus the variance to the variance.
    Range([u64; 2]),
}

impl ParamDist {
    /// Whether a coefficient can be chosen this way: a range needs a variance
    /// strictly between 0 and 1.
    pub open spec fn wf(self) -> bool {
        match self {
            ParamDist::Fixed(_) => true,
            ParamDist::Range(mean_var) => lt(ZERO, mean_var[1]) && lt(mean_var[1], ONE),
        }
    }

    /// Whether `self` is `raw` with its value, or its mean, made non-negative.
    pub open spec fn corrects(self, raw: ParamDist) -> bool {
        match raw {
            ParamDist::Fixed(value) => self == ParamDist::Fixed(absolute(value)),
            ParamDist::Range(mean_var) => match self {
                ParamDist::Range(out) => out[0] == absolute(mean_var[0]) && out[1] == mean_var[1],
                ParamDist::Fixed(_) => false,
            },
        }
    }

    /// The coefficient chosen where `drawn` is what a range would give.
    pub open spec fn chosen(self, drawn: u64) -> u64 {
        match self {
            ParamDist::Fixed(value) => value,
            ParamDist::Range(_) => drawn,
        }
    }

    /// Tells whether a coefficient can be chosen this way.
    pub fn check(&self) -> (r: bool)
        ensures
            r == self.wf(),
    {
        match self {
            ParamDist::Fixed(_) => true,
            ParamDist::Range(mean_var) => less_than(ZERO, mean_var[1]) && less_than(
                mean_var[1],
                ONE,
            ),
        }
    }

    /// The coefficient for one swarm: the fixed value, or `drawn` for a range,
    /// where `drawn` is the mean times one plus the caller's random draw.
    pub fn sample(&self, drawn: u64) -> (r: u64)
        ensures
            r == self.chosen(drawn),
    {
        match self {
            ParamDist::Fixed(value) => *value,
            ParamDist::Range(_) => drawn,
        }
    }
}

/// Makes the value of a distribution, or its mean, non-negative.
pub fn correct_sine_dist(param: ParamDist) -> (r: ParamDist)
    requires
        param.wf(),
    ensures
        r.corrects(param),
        r.wf(),
{
    match param {
        ParamDist::Fixed(value) => ParamDist::Fixed(correct_sine(value)),
        ParamDist::Range(mean_var) => {
            let mean = correct_sine(mean_var[0]);
            ParamDist::Range([mean, mean_var[1]])
        },
    }
}

/// What a [`SwarmConfigDistribution`] holds, as a mathematical value.
pub struct MotionChoice {
    /// How the local, tribal, global and inertial weights, the inertial growth
    /// factor and the wall-bounce damping are chosen, in that order.
    pub params: Seq<ParamDist>,
    /// The sharing period of every swarm; `None` for independent swarms.
    pub tgse: Option<usize>,
}

/// How the coefficients of each swarm are chosen, where every swarm is to get
/// its own.
#[derive(Clone, Copy, Debug)]
pub struct SwarmConfigDistribution {
    l: ParamDist,
    t: ParamDist,
    g: ParamDist,
    i: ParamDist,
    igf: ParamDist,
    wbf: ParamDist,
    tgse: Option<usize>,
}

impl View for SwarmConfigDistribution {
    type V = MotionChoice;

    closed spec fn view(&self) -> MotionChoice {
        MotionChoice {
            params: seq![self.l, self.t, self.g, self.i, self.igf, self.wbf],
            tgse: self.tgse,
        }
    }
}

impl SwarmConfigDistribution {
    /// Whether each coefficient can be chosen as described.
    pub open spec fn wf(&self) -> bool {
        &&& self@.params.len() == 6
        &&& forall|k: int| 0 <= k < 6 ==> (#[trigger] self@.params[k]).wf()
    }

    /// Collaborative swarms that share every `tribal_global_share_every`
    /// iterations. Each value or mean is stored as its absolute value.
    pub fn new_collaborative(
        local: ParamDist,
        tribal: ParamDist,
        global: ParamDist,
        inertial: ParamDist,
        inertial_growth_factor: ParamDist,
        wall_bounce_factor: ParamDist,
        tribal_global_share_every: usize,
    ) -> (r: Self)
        requires
            local.wf(),
            tribal.wf(),
            global.wf(),
            inertial.wf(),
            inertial_growth_factor.wf(),
            wall_bounce_factor.wf(),
        ensures
            r@.params.len() == 6,
            r@.params[0].corrects(local),
            r@.params[1].corrects(tribal),
            r@.params[2].corrects(global),
            r@.params[3].corrects(inertial),
            r@.params[4].corrects(inertial_growth_factor),
            r@.params[5].corrects(wall_bounce_factor),
            r@.tgse == Some(tribal_global_share_every),
            r.wf(),
    {
        let l = correct_sine_dist(local);
        let t = correct_sine_dist(tribal);
        let g = correct_sine_dist(global);
        let i = correct_sine_dist(inertial);
        let ifg = correct_sine_dist(inertial_growth_factor);
        let wbf = correct_sine_dist(wall_bounce_factor);
        SwarmConfigDistribution {
            l,
            t,
            g,
            i,
            igf: ifg,
            wbf,
            tgse: Some(tribal_global_share_every),
        }
    }

    /// Independent swarms. Each value or mean is stored as its absolute value,
    /// and the global weight is fixed at zero.
    pub fn new_independant(
        local: ParamDist,
        tribal: ParamDist,
        inertial: ParamDist,
        inertial_growth_factor: ParamDist,
        wall_bounce_factor: ParamDist,
    ) -> (r: Self)
        requires
            local.wf(),
            tribal.wf(),
            inertial.wf(),
            inertial_growth_factor.wf(),
            wall_bounce_factor.wf(),
        ensures
            r@.params.len() == 6,
            r@.params[0].corrects(local),
            r@.params[1].corrects(tribal),
            r@.params[2] == ParamDist::Fixed(ZERO),
            r@.params[3].corrects(inertial),
            r@.params[4].corrects(inertial_growth_factor),
            r@.params[5].corrects(wall_bounce_factor),
            r@.tgse == None::<usize>,
            r.wf(),
    {
        let l = correct_sine_dist(local);
        let t = correct_sine_dist(tribal);
        let i = correct_sine_dist(inertial);
        let ifg = correct_sine_dist(inertial_growth_factor);
        let wbf = correct_sine_dist(wall_bounce_factor);
        SwarmConfigDistribution {
            l,
            t,
            g: ParamDist::Fixed(ZERO),
            i,
            igf: ifg,
            wbf,
            tgse: None,
        }
    }

    /// How each coefficient is chosen: local, tribal, global and inertial
    /// weight, inertial growth factor, wall-bounce damping.
    pub fn params(&self) -> (r: [ParamDist; 6])
        ensures
            r@ == self@.params,
    {
        let r = [self.l, self.t, self.g, self.i, self.igf, self.wbf];
        assert(r@ =~= self@.params);
        r
    }

    /// The configuration of one swarm. `drawn` holds, for each coefficient in
    /// the order of [`Self::params`], what its range would give; a fixed
    /// coefficient takes its fixed value and ignores the entry.
    pub fn sample_configuration(&self, drawn: &[u64; 6]) -> (r: SwarmConfig)
        ensures
            r@.motion_coeffs == seq![
                self@.params[0].chosen(drawn[0]),
                self@.params[1].chosen(drawn[1]),
                self@.params[2].chosen(drawn[2]),
                self@.params[3].chosen(drawn[3]),
            ],
            r@.igf == self@.params[4].chosen(drawn[4]),
            r@.wbf == self@.params[5].chosen(drawn[5]),
            r@.tgse == self@.tgse,
    {
        let l = self.l.sample(drawn[0]);
        let t = self.t.sample(drawn[1]);
        let g = self.g.sample(drawn[2]);
        let i = self.i.sample(drawn[3]);
        let r = SwarmConfig {
            motion_coeffs: [l, t, g, i],
            igf: self.igf.sample(drawn[4]),
            wbf: self.wbf.sample(drawn[5]),
            tgse: self.tgse,
        };
        assert(r@.motion_coeffs =~= seq![l, t, g, i]);
        r
    }
}

} // verus!
