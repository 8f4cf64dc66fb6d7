use aqaoa::aoa::{conclude, Aoa, EngineOutcome, RxMethod};
use aqaoa::aqaoa::{AoaAssociatedFunctions, AoaInterface, AqAOA};
use aqaoa::driver::{Action, Driver, Event, LbfgsParameters, LineSearch, Phase, Termination, DEFAULT_MAX_ITERATIONS};
use aqaoa::error::AoaError;
use aqaoa::handle::Handle;
use aqaoa::polynomial::Polynomial;
use aqaoa::sample_set::AoaSampleSet;

fn scenario_polynomial() -> Polynomial<f64> {
    Polynomial::new(vec![vec![0], vec![1], vec![0, 1]], vec![1.0, -1.0, 2.0]).unwrap()
}

fn live_handle() -> Handle {
    Handle::acquire(Ok(7)).unwrap()
}

fn run_to_end(driver: &mut Driver, converge_at: Option<u32>) -> usize {
    let mut events = 0usize;
    let mut action = driver.step(Event::Started);
    events += 1;
    loop {
        let event = match action {
            Action::Evaluate => Event::Evaluated { converged: Some(driver.iterations) == converge_at },
            Action::SearchStep => Event::StepAccepted,
            Action::Finish | Action::Abort(_) => return events,
        };
        assert!(driver.accepts_event(&event));
        action = driver.step(event);
        events += 1;
    }
}

#[test]
fn polynomial_keeps_keys_and_values_aligned() {
    let p = scenario_polynomial();
    assert_eq!(p.len(), 3);
    assert_eq!(p.keys().len(), p.values().len());
    assert_eq!(p.keys()[2], vec![0, 1]);
    assert_eq!(p.values()[1], -1.0);
}

#[test]
fn polynomial_from_mismatched_sequences_fails() {
    let r = Polynomial::new(vec![vec![0], vec![1]], vec![1.0]);
    assert_eq!(r.err(), Some(AoaError::Shape));
    let r = Polynomial::<f64>::new(vec![vec![0]], vec![]);
    assert_eq!(r.err(), Some(AoaError::Shape));
}

#[test]
fn empty_polynomial_is_valid() {
    let p = Polynomial::<f64>::new(vec![], vec![]).unwrap();
    assert_eq!(p.len(), 0);
}

#[test]
fn polynomial_from_pairs_keeps_order() {
    let p = Polynomial::from_pairs(vec![(vec![], 0.5), (vec![3], 1.5), (vec![1, 2], -2.0)]);
    assert_eq!(p.len(), 3);
    assert_eq!(p.keys()[0], Vec::<usize>::new());
    assert_eq!(p.keys()[2], vec![1, 2]);
    assert_eq!(p.values(), &[0.5, 1.5, -2.0][..]);
}

#[test]
fn handle_acquire_and_release() {
    let mut h = live_handle();
    assert!(h.is_live());
    assert_eq!(h.id(), 7);
    assert_eq!(h.check(), Ok(()));
    h.release();
    assert!(!h.is_live());
    assert_eq!(h.id(), 7);
    assert_eq!(h.check(), Err(AoaError::InvalidHandle));
}

#[test]
fn handle_acquire_without_device_fails() {
    let r = Handle::acquire(Err("no device".to_string()));
    assert_eq!(r.err(), Some(AoaError::Device("no device".to_string())));
}

#[test]
fn released_handle_refuses_every_operation() {
    let p = scenario_polynomial();
    let mut h = live_handle();
    h.release();
    let b = [0.1];
    let g = [0.2];
    let r = [0.5; 11];
    assert_eq!(AqAOA::statevector(&h, 4, 1, &p, &b, &g, None, None).err(), Some(AoaError::InvalidHandle));
    assert_eq!(AqAOA::gradients(&h, 4, 1, &p, &b, &g, None, None).err(), Some(AoaError::InvalidHandle));
    assert_eq!(AqAOA::expectation_value(&h, 4, 1, &p, &b, &g, None, None).err(), Some(AoaError::InvalidHandle));
    assert_eq!(AqAOA::sample(&h, 4, 1, &p, &b, &g, 10, &r, None, None).err(), Some(AoaError::InvalidHandle));
    assert_eq!(AqAOA::optimize(&h, 4, 1, &p, &b, &g, None, None, None).err(), Some(AoaError::InvalidHandle));
}

#[test]
fn shape_mismatch_is_refused_by_every_operation() {
    let p = scenario_polynomial();
    let h = live_handle();
    let r = [0.5; 11];
    let cases: [(&[f64], &[f64], usize); 3] = [(&[0.1, 0.2], &[0.2], 1), (&[0.1], &[0.2], 2), (&[0.1], &[], 1)];
    for (b, g, depth) in cases {
        assert_eq!(AqAOA::statevector(&h, 4, depth, &p, b, g, None, None).err(), Some(AoaError::Shape));
        assert_eq!(AqAOA::gradients(&h, 4, depth, &p, b, g, None, None).err(), Some(AoaError::Shape));
        assert_eq!(AqAOA::expectation_value(&h, 4, depth, &p, b, g, None, None).err(), Some(AoaError::Shape));
        assert_eq!(AqAOA::sample(&h, 4, depth, &p, b, g, 10, &r, None, None).err(), Some(AoaError::Shape));
        assert_eq!(AqAOA::optimize(&h, 4, depth, &p, b, g, None, None, None).err(), Some(AoaError::Shape));
    }
}

#[test]
fn sample_needs_the_required_minimum_of_random_numbers() {
    let p = scenario_polynomial();
    let h = live_handle();
    let b = [0.1];
    let g = [0.2];
    let short = [0.5; 10];
    assert_eq!(AqAOA::sample(&h, 4, 1, &p, &b, &g, 10, &short, None, None).err(), Some(AoaError::Sample));
    let exact = [0.5; 11];
    let req = AqAOA::sample(&h, 4, 1, &p, &b, &g, 10, &exact, Some(64), Some(RxMethod::Qokit)).unwrap();
    assert_eq!(req.num_shots, 10);
    assert_eq!(req.shot_slots, 11);
    assert_eq!(req.randnums.len(), 11);
    assert_eq!(req.circuit.block_size, Some(64));
    assert_eq!(req.circuit.rxmethod, Some(RxMethod::Qokit));
}

#[test]
fn sample_with_zero_shots_fails() {
    let p = scenario_polynomial();
    let h = live_handle();
    let r = [0.5; 4];
    assert_eq!(AqAOA::sample(&h, 4, 1, &p, &[0.1], &[0.2], 0, &r, None, None).err(), Some(AoaError::Sample));
}

#[test]
fn scenario_circuit_is_laid_out_for_the_engine() {
    let p = scenario_polynomial();
    let h = live_handle();
    let b = [0.1];
    let g = [0.2];
    for c in [
        AqAOA::expectation_value(&h, 4, 1, &p, &b, &g, None, None).unwrap(),
        AqAOA::gradients(&h, 4, 1, &p, &b, &g, None, None).unwrap(),
        AqAOA::statevector(&h, 4, 1, &p, &b, &g, None, Some(RxMethod::Custatevec)).unwrap(),
    ] {
        assert_eq!(c.handle_id, 7);
        assert_eq!(c.num_qubits, 4);
        assert_eq!(c.depth, 1);
        assert_eq!(c.keys, &[vec![0], vec![1], vec![0, 1]][..]);
        assert_eq!(c.values, &[1.0, -1.0, 2.0][..]);
        assert_eq!(c.betas, &[0.1][..]);
        assert_eq!(c.gammas, &[0.2][..]);
    }
}

#[test]
fn optimize_uses_given_or_default_parameters() {
    let p = scenario_polynomial();
    let h = live_handle();
    let params = LbfgsParameters { linesearch: LineSearch::BacktrackingWolfe, max_iterations: 5 };
    let o = AqAOA::optimize(&h, 4, 1, &p, &[0.1], &[0.2], Some(&params), None, None).unwrap();
    assert_eq!(o.parameters, params);
    assert_eq!(o.driver.phase, Phase::Initialized);
    assert_eq!(o.driver.max_iterations, 5);
    let o = AqAOA::optimize(&h, 4, 1, &p, &[0.1], &[0.2], None, None, None).unwrap();
    assert_eq!(o.parameters.linesearch, LineSearch::MoreThuente);
    assert_eq!(o.driver.max_iterations, DEFAULT_MAX_ITERATIONS);
    assert_eq!(o.driver.iterations, 0);
}

#[test]
fn optimize_with_cap_one_ends_in_max_iter_after_one_step() {
    let p = scenario_polynomial();
    let h = live_handle();
    let params = LbfgsParameters { linesearch: LineSearch::MoreThuente, max_iterations: 1 };
    let mut o = AqAOA::optimize(&h, 4, 1, &p, &[0.1], &[0.2], Some(&params), None, None).unwrap();
    run_to_end(&mut o.driver, None);
    assert_eq!(o.driver.phase, Phase::MaxIter);
    assert_eq!(o.driver.iterations, 1);
    let res = o.driver.finish(vec![0.15], vec![0.25], -0.5);
    assert_eq!(res.termination, Termination::MaxIter);
    assert_eq!(res.iterations, 1);
    assert_eq!(res.betas, vec![0.15]);
    assert_eq!(res.gammas, vec![0.25]);
    assert_eq!(res.value, -0.5);
}

#[test]
fn optimize_twice_gives_the_same_run() {
    let p = scenario_polynomial();
    let h = live_handle();
    let params = LbfgsParameters { linesearch: LineSearch::MoreThuente, max_iterations: 4 };
    let mut first = AqAOA::optimize(&h, 4, 1, &p, &[0.1], &[0.2], Some(&params), None, None).unwrap();
    let mut second = AqAOA::optimize(&h, 4, 1, &p, &[0.1], &[0.2], Some(&params), None, None).unwrap();
    assert_eq!(first.driver, second.driver);
    let n1 = run_to_end(&mut first.driver, Some(2));
    let n2 = run_to_end(&mut second.driver, Some(2));
    assert_eq!(n1, n2);
    assert_eq!(first.driver, second.driver);
    assert_eq!(first.driver.phase, Phase::Converged);
    assert_eq!(first.driver.iterations, 2);
}

#[test]
fn driver_terminates_within_its_cap() {
    for cap in [0u32, 1, 3, 10] {
        let mut d = Driver::new(&LbfgsParameters { linesearch: LineSearch::BacktrackingArmijo, max_iterations: cap });
        let events = run_to_end(&mut d, None);
        assert_eq!(d.phase, Phase::MaxIter);
        assert_eq!(d.iterations, cap);
        assert!(events <= 2 * cap as usize + 2);
        assert_eq!(events, 2 * cap as usize + 2);
    }
}

#[test]
fn driver_converges_immediately() {
    let mut d = Driver::new(&LbfgsParameters { linesearch: LineSearch::MoreThuente, max_iterations: 3 });
    assert_eq!(d.step(Event::Started), Action::Evaluate);
    assert_eq!(d.step(Event::Evaluated { converged: true }), Action::Finish);
    assert_eq!(d.phase, Phase::Converged);
    assert!(!d.accepts_event(&Event::Started));
    let res = d.finish(vec![0.1], vec![0.2], 1.0);
    assert_eq!(res.termination, Termination::Converged);
    assert_eq!(res.iterations, 0);
}

#[test]
fn driver_fails_on_engine_error() {
    let mut d = Driver::new(&LbfgsParameters::default());
    assert_eq!(d.step(Event::Started), Action::Evaluate);
    assert!(!d.accepts_event(&Event::StepAccepted));
    let err = AoaError::Simulation("out of memory".to_string());
    assert_eq!(d.step(Event::EngineFailed(err.clone())), Action::Abort(err));
    assert_eq!(d.phase, Phase::Failed);
    assert!(!d.accepts_event(&Event::Evaluated { converged: true }));
}

#[test]
fn conclude_maps_engine_outcomes() {
    let mut h = live_handle();
    assert_eq!(conclude(&mut h, EngineOutcome::Done(3.5)), Ok(3.5));
    assert!(h.is_live());
    let r: Result<f64, AoaError> = conclude(&mut h, EngineOutcome::Failed("device fault".to_string()));
    assert_eq!(r, Err(AoaError::Simulation("device fault".to_string())));
    assert!(h.is_live());
    let r: Result<f64, AoaError> = conclude(&mut h, EngineOutcome::ContextLost);
    assert_eq!(r, Err(AoaError::InvalidHandle));
    assert!(!h.is_live());
    assert_eq!(h.check(), Err(AoaError::InvalidHandle));
}

#[test]
fn variant_holds_and_replaces_its_circuit() {
    let aoa = Aoa {
        num_qubits: 4,
        depth: 1,
        polynomial: scenario_polynomial(),
        betas: vec![0.1],
        gammas: vec![0.2],
        block_size: None,
        rxmethod: None,
    };
    let mut v = AqAOA::create(aoa);
    assert_eq!(v.aoa().num_qubits, 4);
    v.mutable_aoa().betas[0] = 0.3;
    assert_eq!(v.aoa().betas, vec![0.3]);
    v.set_aoa(Aoa {
        num_qubits: 2,
        depth: 2,
        polynomial: Polynomial::new(vec![vec![1]], vec![1.0]).unwrap(),
        betas: vec![0.1, 0.2],
        gammas: vec![0.3, 0.4],
        block_size: Some(8),
        rxmethod: Some(RxMethod::Custatevec),
    });
    assert_eq!(v.aoa().depth, 2);
    assert_eq!(v.aoa().polynomial.len(), 1);
}

#[test]
fn sample_set_total_count() {
    let s = AoaSampleSet::new(
        vec![vec![false, true], vec![true, true], vec![false, false]],
        vec![4, 5, 1],
    )
    .unwrap();
    assert_eq!(s.len(), 3);
    assert_eq!(s.total_count(), 10);
    assert_eq!(s.counts(), &[4, 5, 1][..]);
    assert_eq!(s.bitstrings()[1], vec![true, true]);
    let big = AoaSampleSet::new(vec![vec![true], vec![false]], vec![u64::MAX, u64::MAX]).unwrap();
    assert_eq!(big.total_count(), 2 * u64::MAX as u128);
    let empty = AoaSampleSet::new(vec![], vec![]).unwrap();
    assert_eq!(empty.total_count(), 0);
}

#[test]
fn sample_set_from_mismatched_sequences_fails() {
    let r = AoaSampleSet::new(vec![vec![true]], vec![1, 2]);
    assert_eq!(r.err(), Some(AoaError::Shape));
}

#[test]
fn error_descriptions() {
    assert_eq!(AoaError::from_engine("oom".to_string()), AoaError::Simulation("oom".to_string()));
    assert_eq!(AoaError::Simulation("oom".to_string()).describe(), "oom");
    assert_eq!(AoaError::Device("none".to_string()).describe(), "none");
    assert_eq!(AoaError::Shape.describe(), "shape mismatch between parameters and depth");
    assert_eq!(AoaError::InvalidHandle.describe(), "invalid handle: released or context lost");
    assert_eq!(AoaError::Sample.describe(), "too few random numbers for sampling");
}
