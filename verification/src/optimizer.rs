//! The optimizer: what it asks of the swarm configurations of a job, and how
//! it makes one answer of what its swarms found.

use vstd::prelude::*;
use crate::optimizer_config::{ConfigError, PSOConfig};
use crate::record::{Best, Record};
use crate::swarm_config::SwarmConfig;

verus! {

/// Whether the first `n` of `configs` are of one mind with the first of all:
/// collaborative if that one is, independent if it is not.
pub open spec fn agree(configs: Seq<SwarmConfig>, n: int) -> bool {
    forall|i: int| 0 <= i < n ==> (#[trigger] configs[i])@.tgse.is_some() == configs[0]@.tgse.is_some()
}

/// What a job with `num_threads` swarms makes of `configs`: `Ok(true)` for a
/// collaborative job, `Ok(false)` for an independent one, or the first rule
/// that they break.
pub open spec fn classification(num_threads: usize, configs: Seq<SwarmConfig>) -> Result<
    bool,
    ConfigError,
> {
    if configs.len() != num_threads {
        Err(ConfigError::SwarmConfigCount)
    } else if num_threads == 1 {
        if configs[0]@.tgse.is_some() {
            Err(ConfigError::LoneCollaborator)
        } else {
            Ok(false)
        }
    } else if !agree(configs, num_threads as int) {
        Err(ConfigError::MixedSwarms)
    } else {
        Ok(configs[0]@.tgse.is_some())
    }
}

/// A particle swarm optimizer.
pub struct PSO {
    config: PSOConfig,
}

impl View for PSO {
    type V = PSOConfig;

    closed spec fn view(&self) -> PSOConfig {
        self.config
    }
}

impl PSO {
    /// An optimizer that runs as `config` says.
    pub fn new(config: PSOConfig) -> (r: Self)
        requires
            config.wf(),
        ensures
            r@ == config,
    {
        PSO { config }
    }

    /// The configuration.
    pub fn config(&self) -> (r: PSOConfig)
        ensures
            r == self@,
    {
        self.config
    }

    /// One copy of `swarm_config` for each swarm.
    pub fn replicate(&self, swarm_config: &SwarmConfig) -> (r: Vec<SwarmConfig>)
        ensures
            r@.len() == self@.num_threads,
            forall|i: int| 0 <= i < r@.len() ==> (#[trigger] r@[i])@ == swarm_config@,
    {
        let mut out: Vec<SwarmConfig> = Vec::with_capacity(self.config.num_threads);
        let mut i: usize = 0;
        while i < self.config.num_threads
            invariant
                i <= self.config.num_threads,
                out@.len() == i,
                forall|k: int| 0 <= k < i ==> (#[trigger] out@[k])@ == swarm_config@,
            decreases self.config.num_threads - i,
        {
            out.push(*swarm_config);
            i += 1;
        }
        out
    }

    /// Tests `swarm_configs` against the rules of a job and tells what kind of
    /// job they make: `Ok(true)` for a collaborative one, `Ok(false)` for an
    /// independent one. There must be one configuration per swarm; a single
    /// swarm cannot be collaborative; and several swarms are either all
    /// collaborative or all independent.
    pub fn check_swarm_configs(&self, swarm_configs: &Vec<SwarmConfig>) -> (r: Result<
        bool,
        ConfigError,
    >)
        requires
            self@.wf(),
        ensures
            r == classification(self@.num_threads, swarm_configs@),
    {
        if self.config.num_threads != swarm_configs.len() {
            return Err(ConfigError::SwarmConfigCount);
        }
        if self.config.num_threads == 1 {
            if swarm_configs[0].is_collaborative() {
                return Err(ConfigError::LoneCollaborator);
            }
            return Ok(false);
        }
        let is_collaborative_opt = swarm_configs[0].is_collaborative();
        let mut i: usize = 1;
        while i < self.config.num_threads
            invariant
                1 <= i <= self.config.num_threads,
                self.config.num_threads == swarm_configs@.len(),
                is_collaborative_opt == swarm_configs@[0]@.tgse.is_some(),
                agree(swarm_configs@, i as int),
            decreases self.config.num_threads - i,
        {
            if is_collaborative_opt != swarm_configs[i].is_collaborative() {
                return Err(ConfigError::MixedSwarms);
            }
            i += 1;
        }
        Ok(is_collaborative_opt)
    }

    /// Tells whether `swarm_configs`, which keep the rules of a job, make a
    /// collaborative job.
    pub fn verify_swarm_configs(&self, swarm_configs: &Vec<SwarmConfig>) -> (r: bool)
        requires
            self@.wf(),
            classification(self@.num_threads, swarm_configs@).is_ok(),
        ensures
            classification(self@.num_threads, swarm_configs@) == Ok::<bool, ConfigError>(r),
            r == swarm_configs@[0]@.tgse.is_some(),
    {
        match self.check_swarm_configs(swarm_configs) {
            Ok(is_collaborative_job) => is_collaborative_job,
            Err(_) => false,
        }
    }

    /// The answer of an independent job over `num_variables` dimensions:
    /// the cost and location of the lowest of `thread_records`, the records that
    /// the swarms came back with. They are merged one by one, in order, into a
    /// blank record.
    pub fn run_independant_job(&self, num_variables: usize, thread_records: &Vec<Record>) -> (r: (
        u64,
        Vec<u64>,
    ))
        ensures
            r.0 == Best::blank(num_variables as nat).merged_all(
                thread_records@,
                thread_records@.len(),
            ).cost,
            r.1@ == Best::blank(num_variables as nat).merged_all(
                thread_records@,
                thread_records@.len(),
            ).location,
    {
        let mut minimum = Record::blank(num_variables);
        let mut i: usize = 0;
        while i < thread_records.len()
            invariant
                i <= thread_records@.len(),
                minimum@ == Best::blank(num_variables as nat).merged_all(thread_records@, i as nat),
            decreases thread_records@.len() - i,
        {
            minimum.blind_accumulate(&thread_records[i]);
            i += 1;
        }
        minimum.to_tuple()
    }
}

} // verus!
