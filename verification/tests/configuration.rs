use ps_optim::number::less_than;
use ps_optim::optimizer_config::{MAX_THREADS, MAX_VARIABLES};
use ps_optim::{
    Bound, ConfigError, JobConfig, PSOConfig, ParamDist, SwarmConfig, SwarmConfigDistribution, PSO,
};
use rand::distributions::{Distribution, Uniform};
use rand::Rng;

fn bits(xs: &[f64]) -> Vec<u64> {
    xs.iter().map(|x| x.to_bits()).collect()
}

fn floats(xs: &[u64]) -> Vec<f64> {
    xs.iter().map(|x| f64::from_bits(*x)).collect()
}

fn ranges(xs: &[[f64; 2]]) -> Vec<[u64; 2]> {
    xs.iter().map(|r| [r[0].to_bits(), r[1].to_bits()]).collect()
}

fn float_ranges(xs: &[[u64; 2]]) -> Vec<[f64; 2]> {
    xs.iter().map(|r| [f64::from_bits(r[0]), f64::from_bits(r[1])]).collect()
}

#[test]
fn optimizer_config_keeps_what_it_is_given() {
    let c = PSOConfig::new(8, 128, 10, true);
    assert_eq!(c.num_threads, 8);
    assert_eq!(c.nppt, 128);
    assert_eq!(c.uce, Some(10));
    assert!(c.is_verbose);
    let c = PSOConfig::new(1, 1, 0, false);
    assert_eq!(c.uce, None);
    assert!(!c.is_verbose);
    let pso = PSO::new(c);
    assert_eq!(pso.config().num_threads, 1);
}

#[test]
fn swarm_count_must_be_between_one_and_the_maximum() {
    assert_eq!(MAX_THREADS, 32);
    assert_eq!(PSOConfig::check(0, 128), Err(ConfigError::NoSwarms));
    assert_eq!(PSOConfig::check(33, 128), Err(ConfigError::TooManySwarms));
    assert_eq!(PSOConfig::check(usize::MAX, 128), Err(ConfigError::TooManySwarms));
    assert_eq!(PSOConfig::check(1, 128), Ok(()));
    assert_eq!(PSOConfig::check(32, 128), Ok(()));
}

#[test]
fn swarms_need_particles() {
    assert_eq!(PSOConfig::check(8, 0), Err(ConfigError::NoParticles));
    assert_eq!(PSOConfig::check(0, 0), Err(ConfigError::NoSwarms));
    assert_eq!(PSOConfig::check(33, 0), Err(ConfigError::TooManySwarms));
    assert_eq!(PSOConfig::check(8, 1), Ok(()));
}

#[test]
fn job_needs_one_bound_per_variable() {
    let short = ranges(&[[-10.0, 10.0]; 3]);
    let maxs = bits(&[1.0; 4]);
    assert_eq!(JobConfig::check(4, &short, &maxs), Err(ConfigError::PositionBoundCount));
    let lims = ranges(&[[-10.0, 10.0]; 4]);
    let few = bits(&[1.0; 2]);
    assert_eq!(JobConfig::check(4, &lims, &few), Err(ConfigError::VelocityBoundCount));
    assert_eq!(JobConfig::check(4, &lims, &maxs), Ok(()));
}

#[test]
fn job_dimensions_are_limited() {
    assert_eq!(MAX_VARIABLES, 128);
    assert_eq!(JobConfig::check(0, &Vec::new(), &Vec::new()), Err(ConfigError::NoVariables));
    let lims = ranges(&[[-1.0, 1.0]; 129]);
    let maxs = bits(&[1.0; 129]);
    assert_eq!(JobConfig::check(129, &lims, &maxs), Err(ConfigError::TooManyVariables));
    assert_eq!(JobConfig::check(129, &Vec::new(), &maxs), Err(ConfigError::TooManyVariables));
    let lims = ranges(&[[-1.0, 1.0]; 128]);
    let maxs = bits(&[1.0; 128]);
    assert_eq!(JobConfig::check(128, &lims, &maxs), Ok(()));
}

#[test]
fn job_refuses_inverted_ranges_and_non_positive_maxima() {
    let maxs = bits(&[1.0, 1.0]);
    let inverted = ranges(&[[-1.0, 1.0], [2.0, 1.0]]);
    assert_eq!(JobConfig::check(2, &inverted, &maxs), Err(ConfigError::InvalidRange));
    let empty = ranges(&[[-1.0, 1.0], [1.0, 1.0]]);
    assert_eq!(JobConfig::check(2, &empty, &maxs), Err(ConfigError::InvalidRange));
    let endless = ranges(&[[-1.0, 1.0], [0.0, f64::INFINITY]]);
    assert_eq!(JobConfig::check(2, &endless, &maxs), Err(ConfigError::InvalidRange));
    let nan = ranges(&[[-1.0, 1.0], [f64::NAN, 1.0]]);
    assert_eq!(JobConfig::check(2, &nan, &maxs), Err(ConfigError::InvalidRange));
    let lims = ranges(&[[-1.0, 1.0], [0.0, 1.0]]);
    assert_eq!(JobConfig::check(2, &lims, &bits(&[1.0, 0.0])), Err(ConfigError::InvalidMaximum));
    assert_eq!(JobConfig::check(2, &lims, &bits(&[-1.0, 1.0])), Err(ConfigError::InvalidMaximum));
    assert_eq!(
        JobConfig::check(2, &lims, &bits(&[1.0, f64::INFINITY])),
        Err(ConfigError::InvalidMaximum)
    );
    assert_eq!(JobConfig::check(2, &inverted, &bits(&[-1.0, 1.0])), Err(ConfigError::InvalidRange));
}

#[test]
fn job_config_keeps_what_it_is_given() {
    let lims = [[-10.0, 10.0], [-5.0, 5.0], [2.5, 20.0], [-20.0, 2.5]];
    let job = JobConfig::new(4, ranges(&lims), bits(&[1.5; 4]), 100, 0.00001f64.to_bits());
    assert_eq!(job.num_variables, 4);
    assert_eq!(job.max_itterations, 100);
    assert_eq!(f64::from_bits(job.exit_cost), 0.00001);
    assert_eq!(float_ranges(&job.pos_bounds.range_vec()), lims.to_vec());
    assert_eq!(float_ranges(&job.vel_bounds.range_vec()), vec![[-1.5, 1.5]; 4]);
    assert_eq!(job.pos_bounds.len(), 4);
    let copy = job.clone();
    assert_eq!(copy.num_variables, 4);
    assert_eq!(copy.pos_bounds.range_vec(), job.pos_bounds.range_vec());
    assert_eq!(copy.vel_bounds.range_vec(), job.vel_bounds.range_vec());
}

#[test]
fn bounds_are_checked() {
    assert!(Bound::check_limits(&ranges(&[[-1.0, 1.0], [0.0, 0.5]])));
    assert!(!Bound::check_limits(&ranges(&[[-1.0, 1.0], [0.5, 0.5]])));
    assert!(!Bound::check_limits(&ranges(&[[1.0, -1.0]])));
    assert!(Bound::check_limits(&Vec::new()));
    assert!(Bound::check_maxima(&bits(&[1.0, 0.25, f64::MAX])));
    assert!(!Bound::check_maxima(&bits(&[1.0, 0.25, f64::INFINITY])));
    assert!(!Bound::check_limits(&ranges(&[[f64::NEG_INFINITY, 1.0]])));
    assert!(!Bound::check_limits(&ranges(&[[-1.0, f64::INFINITY]])));
    assert!(Bound::check_limits(&ranges(&[[f64::MIN, f64::MAX]])));
    assert!(!Bound::check_maxima(&bits(&[1.0, 0.0])));
    assert!(!Bound::check_maxima(&bits(&[1.0, -0.0])));
    assert!(!Bound::check_maxima(&bits(&[-1.0])));
    assert!(!Bound::check_maxima(&bits(&[f64::NAN])));
}

#[test]
fn bound_from_maxima_is_symmetric() {
    let b = Bound::from_max(bits(&[1.125, 0.25, 3.0]));
    assert_eq!(
        float_ranges(&b.range_vec()),
        vec![[-1.125, 1.125], [-0.25, 0.25], [-3.0, 3.0]]
    );
    assert_eq!(b.clone().range_vec(), b.range_vec());
}

#[test]
fn samples_of_a_bound_fall_within_it() {
    let lims = [[-10.0, 10.0], [-5.0, 5.0], [2.5, 20.0], [-20.0, 2.5], [0.0, 1e-9]];
    let bound = Bound::from_upper_lower(ranges(&lims));
    let dists: Vec<Uniform<f64>> = bound
        .range_vec()
        .iter()
        .map(|r| Uniform::new(f64::from_bits(r[0]), f64::from_bits(r[1])))
        .collect();
    let mut rng = rand::thread_rng();
    for _ in 0..2000 {
        let sample: Vec<u64> = dists.iter().map(|d| d.sample(&mut rng).to_bits()).collect();
        let walls = bound.range_vec();
        for i in 0..sample.len() {
            assert!(!less_than(sample[i], walls[i][0]));
            assert!(less_than(sample[i], walls[i][1]));
        }
    }
}

#[test]
fn signs_are_corrected() {
    let c = SwarmConfig::new_independant(
        (-1.45f64).to_bits(),
        1.65f64.to_bits(),
        (-0.4f64).to_bits(),
        1.125f64.to_bits(),
        0.125f64.to_bits(),
    );
    assert_eq!(floats(&c.motion_coeffs()), vec![1.45, 1.65, 0.0, 0.4]);
    assert_eq!(f64::from_bits(c.inertial_growth_factor()), 1.125);
    assert_eq!(f64::from_bits(c.wall_bounce_factor()), -0.125);
    assert!(!c.is_collaborative());
    for w in c.motion_coeffs() {
        assert!(!f64::from_bits(w).is_sign_negative());
    }
}

#[test]
fn collaborative_config_keeps_its_period() {
    let c = SwarmConfig::new_collaborative(
        (-0.35f64).to_bits(),
        0.8f64.to_bits(),
        (-1.9f64).to_bits(),
        0.5f64.to_bits(),
        (-1.125f64).to_bits(),
        (-0.125f64).to_bits(),
        15,
    );
    assert_eq!(floats(&c.motion_coeffs()), vec![0.35, 0.8, 1.9, 0.5]);
    assert_eq!(f64::from_bits(c.inertial_growth_factor()), 1.125);
    assert_eq!(f64::from_bits(c.wall_bounce_factor()), -0.125);
    assert!(c.is_collaborative());
    assert_eq!(c.tribal_global_share_every(), 15);
}

#[test]
fn default_configs_hold_the_documented_numbers() {
    let c = SwarmConfig::default_collab();
    assert_eq!(floats(&c.motion_coeffs()), vec![1.45, 1.65, 1.55, 0.4]);
    assert_eq!(f64::from_bits(c.inertial_growth_factor()), 1.125);
    assert_eq!(f64::from_bits(c.wall_bounce_factor()), -0.125);
    assert!(c.is_collaborative());
    assert_eq!(c.tribal_global_share_every(), 8);
    let i = SwarmConfig::default_independant();
    assert_eq!(floats(&i.motion_coeffs()), vec![1.45, 1.65, 0.0, 0.4]);
    assert_eq!(f64::from_bits(i.inertial_growth_factor()), 1.125);
    assert_eq!(f64::from_bits(i.wall_bounce_factor()), -0.125);
    assert!(!i.is_collaborative());
}

#[test]
fn variance_must_lie_between_zero_and_one() {
    assert!(ParamDist::Fixed(1.0f64.to_bits()).check());
    assert!(ParamDist::Fixed((-1.0f64).to_bits()).check());
    assert!(ParamDist::Range([1.65f64.to_bits(), 0.25f64.to_bits()]).check());
    assert!(!ParamDist::Range([1.65f64.to_bits(), 0.0f64.to_bits()]).check());
    assert!(!ParamDist::Range([1.65f64.to_bits(), 1.0f64.to_bits()]).check());
    assert!(!ParamDist::Range([1.65f64.to_bits(), (-0.25f64).to_bits()]).check());
    assert!(!ParamDist::Range([1.65f64.to_bits(), f64::NAN.to_bits()]).check());
}

#[test]
fn range_samples_stay_within_the_variance() {
    let dist = ParamDist::Range([10.0f64.to_bits(), 0.2f64.to_bits()]);
    let mut rng = rand::thread_rng();
    if let ParamDist::Range(mean_var) = dist {
        let (mean, var) = (f64::from_bits(mean_var[0]), f64::from_bits(mean_var[1]));
        for _ in 0..5000 {
            let offset: f64 = rng.gen_range(-1.0 * var, var);
            let drawn = mean * (1.0 + offset);
            let value = dist.sample(drawn.to_bits());
            assert!(!less_than(value, 8.0f64.to_bits()));
            assert!(!less_than(12.0f64.to_bits(), value));
        }
    } else {
        panic!("a range was built");
    }
    assert_eq!(f64::from_bits(ParamDist::Fixed(1.45f64.to_bits()).sample(7.0f64.to_bits())), 1.45);
}

#[test]
fn distribution_corrects_signs_and_samples() {
    let d = SwarmConfigDistribution::new_independant(
        ParamDist::Fixed((-1.45f64).to_bits()),
        ParamDist::Range([(-1.65f64).to_bits(), 0.125f64.to_bits()]),
        ParamDist::Range([0.4f64.to_bits(), 0.125f64.to_bits()]),
        ParamDist::Fixed(1.125f64.to_bits()),
        ParamDist::Range([0.125f64.to_bits(), 0.1f64.to_bits()]),
    );
    let params = d.params();
    match params[0] {
        ParamDist::Fixed(v) => assert_eq!(f64::from_bits(v), 1.45),
        ParamDist::Range(_) => panic!("fixed"),
    }
    match params[1] {
        ParamDist::Range(mv) => {
            assert_eq!(f64::from_bits(mv[0]), 1.65);
            assert_eq!(f64::from_bits(mv[1]), 0.125);
        }
        ParamDist::Fixed(_) => panic!("range"),
    }
    match params[2] {
        ParamDist::Fixed(v) => assert_eq!(f64::from_bits(v), 0.0),
        ParamDist::Range(_) => panic!("fixed"),
    }
    let drawn = bits(&[9.0, 1.7, 9.0, 0.41, 9.0, 0.13]);
    let drawn: [u64; 6] = [drawn[0], drawn[1], drawn[2], drawn[3], drawn[4], drawn[5]];
    let c = d.sample_configuration(&drawn);
    assert_eq!(floats(&c.motion_coeffs()), vec![1.45, 1.7, 0.0, 0.41]);
    assert_eq!(f64::from_bits(c.inertial_growth_factor()), 1.125);
    assert_eq!(f64::from_bits(c.wall_bounce_factor()), -0.13);
    assert!(!c.is_collaborative());

    let d = SwarmConfigDistribution::new_collaborative(
        ParamDist::Fixed(1.0f64.to_bits()),
        ParamDist::Fixed(2.0f64.to_bits()),
        ParamDist::Range([(-3.0f64).to_bits(), 0.5f64.to_bits()]),
        ParamDist::Fixed(4.0f64.to_bits()),
        ParamDist::Fixed(5.0f64.to_bits()),
        ParamDist::Fixed(6.0f64.to_bits()),
        9,
    );
    let c = d.sample_configuration(&[0, 0, 3.25f64.to_bits(), 0, 0, 0]);
    assert_eq!(floats(&c.motion_coeffs()), vec![1.0, 2.0, 3.25, 4.0]);
    assert!(c.is_collaborative());
    assert_eq!(c.tribal_global_share_every(), 9);
}

#[test]
fn swarm_configs_are_classified() {
    let collab = SwarmConfig::default_collab();
    let indep = SwarmConfig::default_independant();
    let three = PSO::new(PSOConfig::new(3, 8, 0, false));
    assert_eq!(three.check_swarm_configs(&vec![collab; 3]), Ok(true));
    assert_eq!(three.check_swarm_configs(&vec![indep; 3]), Ok(false));
    assert!(three.verify_swarm_configs(&vec![collab; 3]));
    assert!(!three.verify_swarm_configs(&vec![indep; 3]));
    assert_eq!(three.check_swarm_configs(&vec![collab; 2]), Err(ConfigError::SwarmConfigCount));
    assert_eq!(three.check_swarm_configs(&vec![collab; 4]), Err(ConfigError::SwarmConfigCount));
    assert_eq!(
        three.check_swarm_configs(&vec![collab, collab, indep]),
        Err(ConfigError::MixedSwarms)
    );
    assert_eq!(
        three.check_swarm_configs(&vec![indep, collab, indep]),
        Err(ConfigError::MixedSwarms)
    );
    let one = PSO::new(PSOConfig::new(1, 8, 0, false));
    assert_eq!(one.check_swarm_configs(&vec![collab]), Err(ConfigError::LoneCollaborator));
    assert_eq!(one.check_swarm_configs(&vec![indep]), Ok(false));
    assert_eq!(one.check_swarm_configs(&Vec::new()), Err(ConfigError::SwarmConfigCount));
}

#[test]
fn replicate_gives_each_swarm_the_same_config() {
    let pso = PSO::new(PSOConfig::new(5, 8, 0, false));
    let configs = pso.replicate(&SwarmConfig::default_collab());
    assert_eq!(configs.len(), 5);
    for c in configs.iter() {
        assert_eq!(floats(&c.motion_coeffs()), vec![1.45, 1.65, 1.55, 0.4]);
        assert_eq!(c.tribal_global_share_every(), 8);
    }
    assert_eq!(pso.check_swarm_configs(&configs), Ok(true));
}

#[test]
fn every_error_has_its_message() {
    let all = [
        ConfigError::TooManySwarms,
        ConfigError::NoSwarms,
        ConfigError::NoParticles,
        ConfigError::TooManyVariables,
        ConfigError::NoVariables,
        ConfigError::PositionBoundCount,
        ConfigError::VelocityBoundCount,
        ConfigError::InvalidRange,
        ConfigError::InvalidMaximum,
        ConfigError::SwarmConfigCount,
        ConfigError::LoneCollaborator,
        ConfigError::MixedSwarms,
    ];
    for (i, a) in all.iter().enumerate() {
        assert!(!a.message().is_empty());
        for b in all.iter().skip(i + 1) {
            assert_ne!(a.message(), b.message());
        }
    }
    assert_eq!(ConfigError::TooManySwarms.message(), "The number of swarms must not exceed 32!");
    assert_eq!(ConfigError::NoSwarms.message(), "There must be at least one swarm!");
    assert_eq!(
        ConfigError::PositionBoundCount.message(),
        "The variable bounds must have one entry for each variable!"
    );
}
