//! A particle swarm optimizer's verified core: the configuration rules, the
//! best-known record and its order, bound enforcement, and the decisions that a
//! swarm takes from one iteration to the next.
//!
//! Every number that the optimizer handles is a double-precision number held as
//! the 64 bits of its encoding (see [`number`]). The library orders such numbers
//! and moves them about; it leaves the arithmetic on them, the random draws and
//! the threads to its caller.

pub mod number;
pub mod record;
pub mod record_order;
pub mod bound;
pub mod optimizer_config;
pub mod swarm_config;
pub mod space_ranger;
pub mod particle;
pub mod swarm;
pub mod swarm_independant;
pub mod swarm_colaborative;
pub mod optimizer;

pub use bound::Bound;
pub use optimizer::PSO;
pub use optimizer_config::{ConfigError, JobConfig, PSOConfig};
pub use particle::Particle;
pub use record::Record;
pub use space_ranger::SpaceRanger;
pub use swarm_colaborative::SwarmColaborative;
pub use swarm_independant::SwarmIndependant;
pub use swarm_config::{ParamDist, SwarmConfig, SwarmConfigDistribution};
