use ps_optim::number::{equal_to, INFINITY};
use ps_optim::record::{copy_of, Record};
use ps_optim::{PSOConfig, PSO};

fn bits(xs: &[f64]) -> Vec<u64> {
    xs.iter().map(|x| x.to_bits()).collect()
}

fn floats(xs: &[u64]) -> Vec<f64> {
    xs.iter().map(|x| f64::from_bits(*x)).collect()
}

fn record(cost: f64, location: &[f64]) -> Record {
    Record::new(cost.to_bits(), &bits(location))
}

#[test]
fn blank_record_has_infinite_cost_at_the_origin() {
    let r = Record::blank(4);
    assert_eq!(f64::from_bits(r.get_cost()), f64::INFINITY);
    assert_eq!(r.get_cost(), INFINITY);
    assert_eq!(floats(&r.get_location()), vec![0.0; 4]);
    assert_eq!(r.num_vars(), 4);
    assert_eq!(Record::blank(0).get_location().len(), 0);
}

#[test]
fn finite_costs_precede_blank() {
    let blank = Record::blank(3);
    for c in [0.0, -1.0, 1.0, 1e300, -1e300, f64::MAX, f64::MIN, 5e-324] {
        let r = record(c, &[1.0, 2.0, 3.0]);
        assert!(r < blank, "{:?}", c);
        assert!(!(blank < r));
        assert!(blank > r);
        assert!(blank.loses_to(c.to_bits()));
    }
    assert!(!(record(f64::INFINITY, &[]) < blank));
    assert!(!(record(f64::NAN, &[]) < blank));
}

#[test]
fn new_record_keeps_cost_and_location() {
    let r = record(2.5, &[1.0, -2.0, 3.5]);
    assert_eq!(f64::from_bits(r.get_cost()), 2.5);
    assert_eq!(floats(&r.get_location()), vec![1.0, -2.0, 3.5]);
    assert_eq!(f64::from_bits(r.pos(0)), 1.0);
    assert_eq!(f64::from_bits(r.pos(1)), -2.0);
    assert_eq!(f64::from_bits(r.pos(2)), 3.5);
    let (cost, location) = r.to_tuple();
    assert_eq!(f64::from_bits(cost), 2.5);
    assert_eq!(floats(&location), vec![1.0, -2.0, 3.5]);
    let c = r.clone();
    assert_eq!(c.get_cost(), r.get_cost());
    assert_eq!(c.get_location(), r.get_location());
}

#[test]
fn accumulate_keeps_the_minimum_in_either_order() {
    let mut a = record(5.0, &[1.0, 1.0]);
    let b = record(3.0, &[2.0, 2.0]);
    a.blind_accumulate(&b);
    assert_eq!(f64::from_bits(a.get_cost()), 3.0);
    assert_eq!(floats(&a.get_location()), vec![2.0, 2.0]);

    let a = record(5.0, &[1.0, 1.0]);
    let mut b = record(3.0, &[2.0, 2.0]);
    b.blind_accumulate(&a);
    assert_eq!(f64::from_bits(b.get_cost()), 3.0);
    assert_eq!(floats(&b.get_location()), vec![2.0, 2.0]);
}

#[test]
fn accumulate_keeps_the_first_of_equal_costs() {
    let mut a = record(3.0, &[1.0]);
    let b = record(3.0, &[2.0]);
    a.blind_accumulate(&b);
    assert_eq!(floats(&a.get_location()), vec![1.0]);
}

#[test]
fn accumulate_ignores_a_cost_that_is_no_number() {
    let mut a = record(3.0, &[1.0]);
    a.blind_accumulate(&record(f64::NAN, &[2.0]));
    assert_eq!(f64::from_bits(a.get_cost()), 3.0);
    let mut n = record(f64::NAN, &[2.0]);
    n.blind_accumulate(&record(3.0, &[1.0]));
    assert!(f64::from_bits(n.get_cost()).is_nan());
}

#[test]
fn loses_to_is_strict() {
    let r = record(3.0, &[0.0]);
    assert!(r.loses_to(2.999f64.to_bits()));
    assert!(!r.loses_to(3.0f64.to_bits()));
    assert!(!r.loses_to(3.001f64.to_bits()));
    assert!(!r.loses_to(f64::NAN.to_bits()));
}

#[test]
fn records_are_ordered_by_cost_alone() {
    let a = record(1.0, &[9.0, 9.0]);
    let b = record(2.0, &[0.0, 0.0]);
    let c = record(1.0, &[5.0, 5.0]);
    assert!(a < b);
    assert!(!(b < a));
    assert!(b > a);
    assert!(!(a < c));
    assert!(a <= c && a >= c);
    assert!(a == c);
    assert!(a != b);
    assert_eq!(a.partial_cmp(&b), Some(std::cmp::Ordering::Less));
    assert_eq!(b.partial_cmp(&a), Some(std::cmp::Ordering::Greater));
    assert_eq!(a.partial_cmp(&c), Some(std::cmp::Ordering::Equal));
    let n = record(f64::NAN, &[0.0]);
    assert_eq!(a.partial_cmp(&n), None);
    assert_eq!(n.partial_cmp(&n), None);
    assert!(n != n);
    assert!(equal_to(a.get_cost(), c.get_cost()));
}

#[test]
fn copy_of_copies() {
    let v = bits(&[1.0, 2.0, 3.0]);
    assert_eq!(copy_of(&v), v);
    assert_eq!(copy_of(&Vec::new()), Vec::<u64>::new());
}

#[test]
fn independent_results_reduce_to_the_lowest() {
    let pso = PSO::new(PSOConfig::new(3, 16, 0, false));
    let found = vec![
        record(5.0, &[5.0, 5.0]),
        record(1.0, &[1.0, 1.5]),
        record(3.0, &[3.0, 3.0]),
    ];
    let (cost, location) = pso.run_independant_job(2, &found);
    assert_eq!(f64::from_bits(cost), 1.0);
    assert_eq!(floats(&location), vec![1.0, 1.5]);
}

#[test]
fn no_results_reduce_to_blank() {
    let pso = PSO::new(PSOConfig::new(1, 16, 0, false));
    let (cost, location) = pso.run_independant_job(3, &Vec::new());
    assert_eq!(f64::from_bits(cost), f64::INFINITY);
    assert_eq!(floats(&location), vec![0.0, 0.0, 0.0]);
}
