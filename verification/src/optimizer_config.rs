//! What a caller fixes before a job runs: how many swarms of how many
//! particles, and the space that they search.

use vstd::prelude::*;
use crate::bound::{limits_valid, maxima_valid, symmetric, Bound};

verus! {

/// The largest number of swarms that one optimizer runs.
pub const MAX_THREADS: usize = 32;

/// The largest number of dimensions of a search space.
pub const MAX_VARIABLES: usize = 128;

/// Why a configuration is refused.
#[derive(Clone, Copy, Debug, PartialEq, Eq, Structural)]
pub enum ConfigError {
    /// The number of swarms is above [`MAX_THREADS`].
    TooManySwarms,
    /// There is no swarm.
    NoSwarms,
    /// A swarm would have no particles.
    NoParticles,
    /// The number of dimensions is above [`MAX_VARIABLES`].
    TooManyVariables,
    /// The search space has no dimension.
    NoVariables,
    /// The position ranges are not one per dimension.
    PositionBoundCount,
    /// The maximum velocities are not one per dimension.
    VelocityBoundCount,
    /// A position range has a low end that is not below its high end, or an
    /// end that is not finite.
    InvalidRange,
    /// A maximum velocity is not a positive finite number.
    InvalidMaximum,
    /// The swarm configurations are not one per swarm.
    SwarmConfigCount,
    /// A single swarm was given a collaborative configuration.
    LoneCollaborator,
    /// Some swarm configurations are collaborative and some are independent.
    MixedSwarms,
}

impl ConfigError {
    /// What the error says, as text.
    pub open spec fn text(self) -> Seq<char> {
        match self {
            ConfigError::TooManySwarms => "The number of swarms must not exceed 32!"@,
            ConfigError::NoSwarms => "There must be at least one swarm!"@,
            ConfigError::NoParticles => "There must be at least one particle in each swarm!"@,
            ConfigError::TooManyVariables => "The number of variables must not exceed 128!"@,
            ConfigError::NoVariables => "There must be at least one variable!"@,
            ConfigError::PositionBoundCount => "The variable bounds must have one entry for each variable!"@,
            ConfigError::VelocityBoundCount => "The maximum velocities must have one entry for each variable!"@,
            ConfigError::InvalidRange => "Every variable needs a finite lower bound below a finite upper bound!"@,
            ConfigError::InvalidMaximum => "Every maximum velocity must be a positive finite number!"@,
            ConfigError::SwarmConfigCount => "One swarm configuration must be provided for each swarm!"@,
            ConfigError::LoneCollaborator => "A single swarm may not use a collaborative swarm configuration!"@,
            ConfigError::MixedSwarms => "All swarm configurations must be collaborative, or all independent!"@,
        }
    }

    /// What the error says, for a person to read.
    pub fn message(&self) -> (r: &'static str)
        ensures
            r@ == self.text(),
    {
        match self {
            ConfigError::TooManySwarms => "The number of swarms must not exceed 32!",
            ConfigError::NoSwarms => "There must be at least one swarm!",
            ConfigError::NoParticles => "There must be at least one particle in each swarm!",
            ConfigError::TooManyVariables => "The number of variables must not exceed 128!",
            ConfigError::NoVariables => "There must be at least one variable!",
            ConfigError::PositionBoundCount => "The variable bounds must have one entry for each variable!",
            ConfigError::VelocityBoundCount => "The maximum velocities must have one entry for each variable!",
            ConfigError::InvalidRange => "Every variable needs a finite lower bound below a finite upper bound!",
            ConfigError::InvalidMaximum => "Every maximum velocity must be a positive finite number!",
            ConfigError::SwarmConfigCount => "One swarm configuration must be provided for each swarm!",
            ConfigError::LoneCollaborator => "A single swarm may not use a collaborative swarm configuration!",
            ConfigError::MixedSwarms => "All swarm configurations must be collaborative, or all independent!",
        }
    }
}

/// How many swarms run, how large each is, and how much they report.
#[derive(Clone, Copy, Debug)]
pub struct PSOConfig {
    pub num_threads: usize,
    pub nppt: usize,
    pub uce: Option<usize>,
    pub is_verbose: bool,
}

impl PSOConfig {
    /// Whether an optimizer can be configured with these counts.
    pub open spec fn admits(num_swarms: usize, num_particles_per_thread: usize) -> bool {
        1 <= num_swarms <= MAX_THREADS && num_particles_per_thread >= 1
    }

    /// The first rule that the counts break, if any.
    pub open spec fn verdict(num_swarms: usize, num_particles_per_thread: usize) -> Result<
        (),
        ConfigError,
    > {
        if num_swarms > MAX_THREADS {
            Err(ConfigError::TooManySwarms)
        } else if num_swarms == 0 {
            Err(ConfigError::NoSwarms)
        } else if num_particles_per_thread == 0 {
            Err(ConfigError::NoParticles)
        } else {
            Ok(())
        }
    }

    /// Whether the configuration keeps the rules that `new` enforces.
    pub open spec fn wf(&self) -> bool {
        &&& Self::admits(self.num_threads, self.nppt)
        &&& self.uce != Some(0usize)
    }

    /// Tests the counts against the rules, and names the first one broken.
    pub fn check(num_swarms: usize, num_particles_per_thread: usize) -> (r: Result<(), ConfigError>)
        ensures
            r == Self::verdict(num_swarms, num_particles_per_thread),
            r.is_ok() <==> Self::admits(num_swarms, num_particles_per_thread),
    {
        if num_swarms > MAX_THREADS {
            Err(ConfigError::TooManySwarms)
        } else if num_swarms == 0 {
            Err(ConfigError::NoSwarms)
        } else if num_particles_per_thread == 0 {
            Err(ConfigError::NoParticles)
        } else {
            Ok(())
        }
    }

    /// A configuration of `num_swarms` swarms of `num_particles_per_thread`
    /// particles each. The console is updated every `update_console_every`
    /// iterations, or never where that is 0.
    pub fn new(
        num_swarms: usize,
        num_particles_per_thread: usize,
        update_console_every: usize,
        verbose: bool,
    ) -> (r: Self)
        requires
            Self::admits(num_swarms, num_particles_per_thread),
        ensures
            r.num_threads == num_swarms,
            r.nppt == num_particles_per_thread,
            r.uce == (if update_console_every == 0 {
                None
            } else {
                Some(update_console_every)
            }),
            r.is_verbose == verbose,
            r.wf(),
    {
        let uce = if update_console_every == 0 {
            None
        } else {
            Some(update_console_every)
        };
        PSOConfig {
            num_threads: num_swarms,
            nppt: num_particles_per_thread,
            uce,
            is_verbose: verbose,
        }
    }
}

/// The search space of one job and when the search stops.
#[derive(Debug)]
pub struct JobConfig {
    pub num_variables: usize,
    pub pos_bounds: Bound,
    pub vel_bounds: Bound,
    pub max_itterations: usize,
    pub exit_cost: u64,
}

impl Clone for JobConfig {
    fn clone(&self) -> (r: Self)
        ensures
            r.num_variables == self.num_variables,
            r.pos_bounds@ == self.pos_bounds@,
            r.vel_bounds@ == self.vel_bounds@,
            r.max_itterations == self.max_itterations,
            r.exit_cost == self.exit_cost,
    {
        JobConfig {
            num_variables: self.num_variables,
            pos_bounds: self.pos_bounds.clone(),
            vel_bounds: self.vel_bounds.clone(),
            max_itterations: self.max_itterations,
            exit_cost: self.exit_cost,
        }
    }
}

impl JobConfig {
    /// Whether a job can be configured with this space.
    pub open spec fn admits(
        num_variables: usize,
        variable_bounds: Seq<[u64; 2]>,
        max_velocities: Seq<u64>,
    ) -> bool {
        Self::verdict(num_variables, variable_bounds, max_velocities).is_ok()
    }

    /// The first rule that the space breaks, if any.
    pub open spec fn verdict(
        num_variables: usize,
        variable_bounds: Seq<[u64; 2]>,
        max_velocities: Seq<u64>,
    ) -> Result<(), ConfigError> {
        if num_variables > MAX_VARIABLES {
            Err(ConfigError::TooManyVariables)
        } else if num_variables == 0 {
            Err(ConfigError::NoVariables)
        } else if variable_bounds.len() != num_variables {
            Err(ConfigError::PositionBoundCount)
        } else if max_velocities.len() != num_variables {
            Err(ConfigError::VelocityBoundCount)
        } else if !limits_valid(variable_bounds) {
            Err(ConfigError::InvalidRange)
        } else if !maxima_valid(max_velocities) {
            Err(ConfigError::InvalidMaximum)
        } else {
            Ok(())
        }
    }

    /// Whether the configuration keeps the rules that `new` enforces.
    pub open spec fn wf(&self) -> bool {
        &&& 1 <= self.num_variables <= MAX_VARIABLES
        &&& self.pos_bounds@.len() == self.num_variables
        &&& self.vel_bounds@.len() == self.num_variables
        &&& self.pos_bounds.wf()
        &&& self.vel_bounds.wf()
    }

    /// Tests the space against the rules, and names the first one broken.
    pub fn check(
        num_variables: usize,
        variable_bounds: &Vec<[u64; 2]>,
        max_velocities: &Vec<u64>,
    ) -> (r: Result<(), ConfigError>)
        ensures
            r == Self::verdict(num_variables, variable_bounds@, max_velocities@),
    {
        if num_variables > MAX_VARIABLES {
            Err(ConfigError::TooManyVariables)
        } else if num_variables == 0 {
            Err(ConfigError::NoVariables)
        } else if variable_bounds.len() != num_variables {
            Err(ConfigError::PositionBoundCount)
        } else if max_velocities.len() != num_variables {
            Err(ConfigError::VelocityBoundCount)
        } else if !Bound::check_limits(variable_bounds) {
            Err(ConfigError::InvalidRange)
        } else if !Bound::check_maxima(max_velocities) {
            Err(ConfigError::InvalidMaximum)
        } else {
            Ok(())
        }
    }

    /// A job over `num_variables` dimensions. Positions stay within
    /// `variable_bounds`, velocities within plus and minus `max_velocities`. The
    /// search ends after `max_itterations` iterations, or as soon as a cost
    /// below `exit_cost` is known.
    pub fn new(
        num_variables: usize,
        variable_bounds: Vec<[u64; 2]>,
        max_velocities: Vec<u64>,
        max_itterations: usize,
        exit_cost: u64,
    ) -> (r: Self)
        requires
            Self::admits(num_variables, variable_bounds@, max_velocities@),
        ensures
            r.num_variables == num_variables,
            r.pos_bounds@ == variable_bounds@,
            symmetric(r.vel_bounds@, max_velocities@),
            r.max_itterations == max_itterations,
            r.exit_cost == exit_cost,
            r.wf(),
    {
        let pos_bounds = Bound::from_upper_lower(variable_bounds);
        let vel_bounds = Bound::from_max(max_velocities);
        JobConfig { num_variables, pos_bounds, vel_bounds, max_itterations, exit_cost }
    }
}

} // verus!
